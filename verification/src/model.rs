use crate::machine_simple_impl::{Participant, ParticipantStatus, State};
use vstd::prelude::*;

verus! {

/// The registry `peers` after the record stored under `key` has had its
/// status replaced. The record keeps its address and its place.
pub open spec fn with_status(
    peers: Map<u32, Participant>,
    key: u32,
    status: ParticipantStatus,
) -> Map<u32, Participant> {
    peers.insert(key, Participant { address: peers[key].address, status })
}

/// The mathematical picture of a machine: the current state, the state a
/// revert would bring back, the record of the peer that holds authorship, and
/// the registry of all peers by address.
pub struct MachineModel<S> {
    pub state: S,
    pub prev_state: Option<S>,
    pub current_author: Participant,
    pub peers: Map<u32, Participant>,
}

impl<S> MachineModel<S> {
    /// Every record is stored under its own address.
    pub open spec fn keyed_by_address(self) -> bool {
        forall|key: u32| #[trigger]
            self.peers.contains_key(key) ==> self.peers[key].address == key
    }

    /// The author's record says `Author`, and the registry holds the very
    /// same record under the author's address.
    pub open spec fn author_in_office(self) -> bool {
        &&& self.current_author.status == ParticipantStatus::Author
        &&& self.peers.contains_key(self.current_author.address)
        &&& self.peers[self.current_author.address] == self.current_author
    }

    /// No record but the author's says `Author`.
    pub open spec fn sole_author(self) -> bool {
        forall|key: u32| #[trigger]
            self.peers.contains_key(key) && self.peers[key].status == ParticipantStatus::Author
                ==> key == self.current_author.address
    }

    /// A configuration a driver may start from and that rounds are meant to
    /// keep: records sit under their own addresses, address zero is there as
    /// the wrap-around target, and the author, and nobody else, is in office.
    pub open spec fn well_formed(self) -> bool {
        &&& self.keyed_by_address()
        &&& self.peers.contains_key(0)
        &&& self.author_in_office()
        &&& self.sole_author()
    }

    /// The registry holds exactly the addresses below `size`, each record
    /// under its own address and none in timeout, and the author's address is
    /// one of them.
    pub open spec fn is_ring(self, size: nat) -> bool {
        &&& size <= u32::MAX + 1
        &&& self.keyed_by_address()
        &&& forall|key: u32| #[trigger] self.peers.contains_key(key) <==> key < size
        &&& forall|key: u32| #[trigger]
            self.peers.contains_key(key) ==> self.peers[key].status != ParticipantStatus::Timeout
        &&& self.current_author.address < size
    }

    /// The machine after the peer registered under `address` was put in
    /// timeout. Nothing but that one record changes.
    pub open spec fn punish(self, address: u32) -> Self {
        MachineModel {
            peers: with_status(self.peers, address, ParticipantStatus::Timeout),
            ..self
        }
    }

    /// The machine after a revert: the remembered state, if there is one,
    /// becomes current and is forgotten; otherwise nothing changes.
    pub open spec fn revert(self) -> Self {
        match self.prev_state {
            Some(prev) => MachineModel { state: prev, prev_state: None, ..self },
            None => self,
        }
    }

    /// Whether the registry holds a peer at the address that follows the
    /// author's. The last address of all has no follower.
    pub open spec fn has_successor(self) -> bool {
        &&& self.current_author.address < u32::MAX
        &&& self.peers.contains_key((self.current_author.address + 1) as u32)
    }

    /// The address a rotation proposes: the one after the author's, or zero
    /// where the registry holds no peer there.
    pub open spec fn proposed_address(self) -> u32 {
        if self.has_successor() {
            (self.current_author.address + 1) as u32
        } else {
            0
        }
    }

    /// What a rotation needs of the registry: an entry for the author, and an
    /// entry at the proposed address.
    pub open spec fn can_rotate(self) -> bool {
        &&& self.peers.contains_key(self.current_author.address)
        &&& self.peers.contains_key(self.proposed_address())
    }

    /// The registry once the author's entry has been set back to
    /// `Participant`, which is the first thing a rotation does.
    pub open spec fn demoted_peers(self) -> Map<u32, Participant> {
        with_status(self.peers, self.current_author.address, ParticipantStatus::Participant)
    }

    /// Whether a rotation finds the proposed peer in timeout and therefore
    /// promotes nobody. The author's own demotion comes first, so an author
    /// that proposes itself is never in the way.
    pub open spec fn stalls(self) -> bool {
        self.demoted_peers()[self.proposed_address()].status == ParticipantStatus::Timeout
    }

    /// The machine after one round of leader rotation.
    ///
    /// The author's registry entry is demoted. If the proposed peer is not in
    /// timeout, its entry is promoted to `Author` and a copy of it becomes the
    /// author record. If it is in timeout, nobody is promoted: where the
    /// proposal was the following address the author record stays as it was,
    /// and where it was the wrap-around to zero the author record becomes a
    /// copy of that timed-out entry.
    pub open spec fn rotate(self) -> Self {
        let target = self.proposed_address();
        let demoted = self.demoted_peers();
        if !self.stalls() {
            MachineModel {
                current_author: Participant {
                    address: demoted[target].address,
                    status: ParticipantStatus::Author,
                },
                peers: with_status(demoted, target, ParticipantStatus::Author),
                ..self
            }
        } else if self.has_successor() {
            MachineModel { peers: demoted, ..self }
        } else {
            MachineModel { current_author: demoted[target], peers: demoted, ..self }
        }
    }

    /// The machine after `rounds` rotations in a row.
    pub open spec fn rotate_times(self, rounds: nat) -> Self
        decreases rounds,
    {
        if rounds == 0 {
            self
        } else {
            self.rotate_times((rounds - 1) as nat).rotate()
        }
    }
}

impl MachineModel<State> {
    /// The machine after its author advanced it: the state is flipped and the
    /// state it had is remembered. Author and registry stay as they are.
    pub open spec fn advance(self) -> Self {
        MachineModel {
            state: State { status: !self.state.status },
            prev_state: Some(self.state),
            ..self
        }
    }
}

} // verus!
