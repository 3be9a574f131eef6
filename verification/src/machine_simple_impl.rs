use crate::generic_types::{FiniteStateMachine, Peer};
use crate::model::{with_status, MachineModel};
use std::collections::HashMap;
use vstd::pervasive::unreached;
use vstd::prelude::*;

verus! {

broadcast use vstd::std_specs::hash::group_hash_axioms;

/// The type of participant
#[derive(Debug, PartialEq, Eq, Structural)]
pub enum ParticipantStatus {
    Author,
    Participant,
    Timeout,
}

impl Clone for ParticipantStatus {
    fn clone(&self) -> (copy: Self)
        ensures
            copy == *self,
    {
        match self {
            ParticipantStatus::Author => ParticipantStatus::Author,
            ParticipantStatus::Participant => ParticipantStatus::Participant,
            ParticipantStatus::Timeout => ParticipantStatus::Timeout,
        }
    }
}

/// A participant that "runs" the machine
#[derive(Debug)]
pub struct Participant {
    pub address: u32,
    pub status: ParticipantStatus,
}

impl Clone for Participant {
    fn clone(&self) -> (copy: Self)
        ensures
            copy == *self,
    {
        Participant { address: self.address, status: self.status.clone() }
    }
}

/// An error specific to our machine
#[derive(Debug, PartialEq, Eq, Structural)]
pub enum MachineError {
    /// A peer that does not hold authorship tried to advance the machine.
    /// Carries that peer's address.
    MaliciousParticipant(u32),
}

impl Clone for MachineError {
    fn clone(&self) -> (copy: Self)
        ensures
            copy == *self,
    {
        match self {
            MachineError::MaliciousParticipant(address) => MachineError::MaliciousParticipant(
                *address,
            ),
        }
    }
}

/// Our core machine's state - which in this case, is a simple boolean.
#[derive(Clone, Copy, Debug, PartialEq, Eq, Structural)]
pub struct State {
    /// Status - can be on or off (true == on, false == off)
    pub status: bool,
}

/// A simple machine for state
pub struct SimpleMachine<S> {
    /// The state the machine is in.
    pub state: S,
    /// The state it was in before the last transition, for one revert.
    pub prev_state: Option<S>,
    /// The record of the peer that may advance the machine.
    pub current_author: Participant,
    /// Every known peer, by address.
    pub peers: HashMap<u32, Participant>,
}

impl<S> View for SimpleMachine<S> {
    type V = MachineModel<S>;

    open spec fn view(&self) -> MachineModel<S> {
        MachineModel {
            state: self.state,
            prev_state: self.prev_state,
            current_author: self.current_author,
            peers: self.peers@,
        }
    }
}

impl<S> SimpleMachine<S> {
    /// Puts a machine together from its parts. Nothing is remembered for a
    /// revert yet. The parts are taken as they are: whether the author is in
    /// the registry is for the caller to see to.
    pub fn new(s: S, peers: HashMap<u32, Participant>, current_author: Participant) -> (machine:
        Self)
        ensures
            machine.state == s,
            machine.prev_state is None,
            machine.current_author == current_author,
            machine.peers == peers,
    {
        SimpleMachine { state: s, prev_state: None, current_author, peers }
    }
}

/// Replaces the status of the record stored under `key`, in place.
fn set_status(peers: &mut HashMap<u32, Participant>, key: u32, status: ParticipantStatus)
    requires
        old(peers)@.contains_key(key),
    ensures
        final(peers)@ == with_status(old(peers)@, key, status),
{
    let mut record = match peers.get(&key) {
        Some(found) => found.clone(),
        None => unreached(),
    };
    record.change_status(status);
    peers.insert(key, record);
}

impl FiniteStateMachine<Participant, State, MachineError> for SimpleMachine<State> {
    open spec fn initial_state() -> State {
        State { status: false }
    }

    open spec fn successor(state: State) -> State {
        State { status: !state.status }
    }

    open spec fn current_state(&self) -> State {
        self.state
    }

    open spec fn remembered_state(&self) -> Option<State> {
        self.prev_state
    }

    open spec fn authorized(peer: &Participant) -> bool {
        peer.status == ParticipantStatus::Author
    }

    open spec fn rejection(peer: &Participant) -> MachineError {
        MachineError::MaliciousParticipant(peer.address)
    }

    open spec fn knows(&self, peer: &Participant) -> bool {
        self.peers@.contains_key(peer.address)
    }

    open spec fn punished(&self, peer: &Participant, after: &Self) -> bool {
        after@ == self@.punish(peer.address)
    }

    open spec fn can_rotate(&self) -> bool {
        self@.can_rotate()
    }

    open spec fn rotated(&self, after: &Self) -> bool {
        after@ == self@.rotate()
    }

    fn inital() -> (state: State)
        ensures
            state == (State { status: false }),
    {
        State { status: false }
    }

    fn next(&mut self, author: &mut Participant) -> (result: Result<State, MachineError>)
        ensures
            *final(author) == *old(author),
            old(author).status == ParticipantStatus::Author ==> {
                &&& result == Ok::<State, MachineError>(State { status: !old(self).state.status })
                &&& final(self)@ == old(self)@.advance()
            },
            old(author).status != ParticipantStatus::Author ==> {
                &&& result == Err::<State, MachineError>(
                    MachineError::MaliciousParticipant(old(author).address),
                )
                &&& final(self)@ == old(self)@.punish(old(author).address)
                &&& final(self).state == old(self).state
                &&& final(self).peers@[old(author).address].status == ParticipantStatus::Timeout
            },
    {
        if author.status != ParticipantStatus::Author {
            self.punish(author);
            return Err(MachineError::MaliciousParticipant(author.address));
        }
        self.prev_state = Some(self.state);
        self.state.status = !self.state.status;
        Ok(self.state)
    }

    fn revert(&mut self)
        ensures
            final(self)@ == old(self)@.revert(),
    {
        let prev = self.prev_state;
        if let Some(prev) = prev {
            self.state = prev;
            self.prev_state = None;
        }
    }

    fn pick_author(&mut self)
        ensures
            final(self)@ == old(self)@.rotate(),
            old(self)@.proposed_address() != old(self).current_author.address
                ==> final(self).peers@[old(self).current_author.address].status
                == ParticipantStatus::Participant,
    {
        // Current author demoted
        set_status(&mut self.peers, self.current_author.address, ParticipantStatus::Participant);

        // The next author is the peer one address further on, or the first
        // one where the addresses are used up.
        let following = match self.current_author.address.checked_add(1) {
            Some(address) => self.peers.get(&address),
            None => None,
        };
        if let Some(proposed) = following {
            if proposed.status != ParticipantStatus::Timeout {
                let key = self.current_author.address + 1;
                self.current_author = proposed.clone();
                self.current_author.status = ParticipantStatus::Author;
                set_status(&mut self.peers, key, ParticipantStatus::Author);
            }
        } else {
            self.current_author = match self.peers.get(&0) {
                Some(first) => first.clone(),
                None => unreached(),
            };
            if self.current_author.status != ParticipantStatus::Timeout {
                self.current_author.status = ParticipantStatus::Author;
                set_status(&mut self.peers, 0, ParticipantStatus::Author);
            }
        }
    }

    /// For this implementation, if they are not a leader, they get put in timeout.
    fn punish(&mut self, participant: &mut Participant)
        ensures
            *final(participant) == *old(participant),
            final(self)@ == old(self)@.punish(old(participant).address),
    {
        set_status(&mut self.peers, participant.address, ParticipantStatus::Timeout);
    }
}

impl Peer for Participant {
    type Status = ParticipantStatus;

    open spec fn id(&self) -> u32 {
        self.address
    }

    open spec fn current_status(&self) -> ParticipantStatus {
        self.status
    }

    open spec fn default_status() -> ParticipantStatus {
        ParticipantStatus::Participant
    }

    fn create(id: u32) -> (peer: Self)
        ensures
            peer == (Participant { address: id, status: ParticipantStatus::Participant }),
    {
        Participant { address: id, status: ParticipantStatus::Participant }
    }

    fn status(&self) -> (status: &ParticipantStatus)
        ensures
            *status == self.status,
    {
        &self.status
    }

    fn change_status(&mut self, status: ParticipantStatus)
        ensures
            *final(self) == (Participant { address: old(self).address, status }),
    {
        self.status = status;
    }
}

} // verus!
