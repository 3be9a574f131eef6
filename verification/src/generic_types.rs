use vstd::prelude::*;

verus! {

/// A generic, finite state machine.
/// - `P` = participant type
/// - `S` = state to keep track of and update
/// - `E` = custom error type
///
/// The contract speaks of a machine through a handful of specification
/// functions that each implementor defines: what its state is, what it
/// remembers, whom it lets through, and how a punishment or a rotation
/// relates the machine before to the machine after.
pub trait FiniteStateMachine<P: Peer, S, E>: Sized {
    /// The defined starting value of the state type.
    spec fn initial_state() -> S;

    /// The state that follows `state` on a successful transition.
    spec fn successor(state: S) -> S;

    /// The state the machine currently holds.
    spec fn current_state(&self) -> S;

    /// The state a revert would bring back, if any.
    spec fn remembered_state(&self) -> Option<S>;

    /// Whether `peer` may advance the machine.
    spec fn authorized(peer: &P) -> bool;

    /// The error that an unauthorized attempt by `peer` is answered with.
    spec fn rejection(peer: &P) -> E;

    /// Whether the machine's registry has an entry for `peer`.
    spec fn knows(&self, peer: &P) -> bool;

    /// Whether `after` is this machine with `peer` punished and nothing else
    /// changed.
    spec fn punished(&self, peer: &P, after: &Self) -> bool;

    /// Whether the registry is complete enough for a rotation: every entry
    /// that the rotation looks up without an alternative is there.
    spec fn can_rotate(&self) -> bool;

    /// Whether `after` is this machine one leader rotation later.
    spec fn rotated(&self, after: &Self) -> bool;

    /// Defines some initial state
    fn inital() -> (state: S)
        ensures
            state == Self::initial_state(),
    ;

    /// Updates to a new state on behalf of `peer`.
    ///
    /// An authorized peer moves the machine to the successor state, which is
    /// also returned, and the state it leaves is remembered. Any other peer
    /// is punished and turned away with an error; the state is not touched.
    fn next(&mut self, peer: &mut P) -> (result: Result<S, E>)
        requires
            !Self::authorized(old(peer)) ==> old(self).knows(old(peer)),
        ensures
            Self::authorized(old(peer)) ==> {
                &&& result == Ok::<S, E>(Self::successor(old(self).current_state()))
                &&& final(self).current_state() == Self::successor(old(self).current_state())
                &&& final(self).remembered_state() == Some(old(self).current_state())
            },
            !Self::authorized(old(peer)) ==> {
                &&& result == Err::<S, E>(Self::rejection(old(peer)))
                &&& final(self).current_state() == old(self).current_state()
                &&& final(self).remembered_state() == old(self).remembered_state()
                &&& old(self).punished(old(peer), final(self))
            },
    ;

    /// Reverts to the previous state. Only one level is remembered: with
    /// nothing remembered the machine stays as it is.
    fn revert(&mut self)
        ensures
            final(self).current_state() == match old(self).remembered_state() {
                Some(previous) => previous,
                None => old(self).current_state(),
            },
            final(self).remembered_state() is None,
    ;

    /// Punishes a bad actor if they attempt an adversarial action
    fn punish(&mut self, peer: &mut P)
        requires
            old(self).knows(old(peer)),
        ensures
            old(self).punished(old(peer), final(self)),
            final(self).current_state() == old(self).current_state(),
            final(self).remembered_state() == old(self).remembered_state(),
    ;

    /// Picks author
    fn pick_author(&mut self)
        requires
            old(self).can_rotate(),
        ensures
            old(self).rotated(final(self)),
            final(self).current_state() == old(self).current_state(),
            final(self).remembered_state() == old(self).remembered_state(),
    ;
}

/// Anything that can be created from a numeric identifier, report a status
/// and have that status replaced.
///
/// The status type is fixed once per peer type, so a machine does not have to
/// name it.
pub trait Peer: Sized {
    type Status;

    /// The identifier this peer answers to.
    spec fn id(&self) -> u32;

    /// The status this peer currently reports.
    spec fn current_status(&self) -> Self::Status;

    /// The status every freshly created peer starts with.
    spec fn default_status() -> Self::Status;

    /// Create a new peer instance with the default, non-author status.
    fn create(id: u32) -> (peer: Self)
        ensures
            peer.id() == id,
            peer.current_status() == Self::default_status(),
    ;

    /// Get the current status of a peer.
    fn status(&self) -> (status: &Self::Status)
        ensures
            *status == self.current_status(),
    ;

    /// Change the status of the peer. The identifier stays as it is.
    fn change_status(&mut self, status: Self::Status)
        ensures
            final(self).current_status() == status,
            final(self).id() == old(self).id(),
    ;
}

} // verus!
