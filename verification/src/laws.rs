use crate::machine_simple_impl::{Participant, ParticipantStatus, State};
use crate::model::MachineModel;
use vstd::arithmetic::div_mod::{lemma_add_mod_noop_right, lemma_mod_self_0, lemma_small_mod};
use vstd::prelude::*;

verus! {

/// A revert straight after one advance brings back the state from before the
/// advance and leaves nothing remembered. Author and registry are untouched
/// by both steps.
pub proof fn lemma_revert_undoes_advance(m: MachineModel<State>)
    ensures
        m.advance().revert().state == m.state,
        m.advance().revert().prev_state is None,
        m.advance().revert() == (MachineModel { prev_state: None, ..m }),
{
}

/// With nothing remembered, a revert changes nothing at all.
pub proof fn lemma_revert_without_history<S>(m: MachineModel<S>)
    requires
        m.prev_state is None,
    ensures
        m.revert() == m,
{
}

/// Only one level is remembered: a second revert in a row changes nothing.
pub proof fn lemma_revert_is_single_level<S>(m: MachineModel<S>)
    ensures
        m.revert().revert() == m.revert(),
{
}

/// Punishment and rotation work on the registry and the author record only:
/// the state and what is remembered for a revert stay as they are.
pub proof fn lemma_registry_steps_keep_state<S>(m: MachineModel<S>, address: u32)
    ensures
        m.punish(address).state == m.state,
        m.punish(address).prev_state == m.prev_state,
        m.punish(address).current_author == m.current_author,
        m.rotate().state == m.state,
        m.rotate().prev_state == m.prev_state,
{
}

/// The registry is fixed in size: neither a punishment of a registered peer
/// nor a rotation adds or removes an address.
pub proof fn lemma_registry_keeps_its_addresses<S>(m: MachineModel<S>, address: u32)
    ensures
        m.peers.contains_key(address) ==> m.punish(address).peers.dom() == m.peers.dom(),
        m.can_rotate() ==> m.rotate().peers.dom() == m.peers.dom(),
{
    if m.peers.contains_key(address) {
        assert(m.punish(address).peers.dom() =~= m.peers.dom());
    }
    if m.can_rotate() {
        assert(m.demoted_peers().dom() =~= m.peers.dom());
        assert(m.rotate().peers.dom() =~= m.peers.dom());
    }
}

/// A punished peer is in timeout afterwards, under the address it had, and no
/// other record is touched.
pub proof fn lemma_punish_times_out<S>(m: MachineModel<S>, address: u32, other: u32)
    requires
        other != address,
    ensures
        m.punish(address).peers[address] == (Participant {
            address: m.peers[address].address,
            status: ParticipantStatus::Timeout,
        }),
        m.punish(address).peers.contains_key(other) == m.peers.contains_key(other),
        m.punish(address).peers[other] == m.peers[other],
{
}

/// A rotation leaves the previous author's registry entry as `Participant`.
/// The one exception is a previous author that the rotation proposes again
/// and promotes, which takes a wrap-around onto the author's own address.
pub proof fn lemma_rotation_demotes_previous_author<S>(m: MachineModel<S>)
    requires
        m.can_rotate(),
    ensures
        m.rotate().peers.contains_key(m.current_author.address),
        m.rotate().peers[m.current_author.address].address
            == m.peers[m.current_author.address].address,
        m.proposed_address() != m.current_author.address ==> m.rotate().peers[m.current_author.address].status
            == ParticipantStatus::Participant,
        m.proposed_address() == m.current_author.address ==> {
            &&& m.current_author.address == 0
            &&& !m.has_successor()
            &&& !m.stalls()
            &&& m.rotate().peers[m.current_author.address].status == ParticipantStatus::Author
        },
{
}

/// A rotation that does not stall installs the proposed peer: its registry
/// entry says `Author`, and the author record is that very entry.
pub proof fn lemma_rotation_promotes_proposed<S>(m: MachineModel<S>)
    requires
        m.can_rotate(),
        !m.stalls(),
    ensures
        m.rotate().peers[m.proposed_address()] == m.rotate().current_author,
        m.rotate().current_author.status == ParticipantStatus::Author,
        m.rotate().current_author.address == m.peers[m.proposed_address()].address,
{
}

/// A rotation that stalls promotes nobody: the registry differs from the one
/// before by the author's demotion alone, and no record is made `Author`.
pub proof fn lemma_stalled_rotation_promotes_nobody<S>(m: MachineModel<S>)
    requires
        m.can_rotate(),
        m.stalls(),
    ensures
        m.rotate().peers == m.demoted_peers(),
        m.has_successor() ==> m.rotate().current_author == m.current_author,
        !m.has_successor() ==> m.rotate().current_author == m.peers[0]
            && m.rotate().current_author.status == ParticipantStatus::Timeout,
{
}

/// Timeout is lasting. A punishment never lifts it, and a rotation changes no
/// timed-out record except the author's own, which it demotes like any other
/// author's.
pub proof fn lemma_timeout_is_kept<S>(m: MachineModel<S>, key: u32, punished: u32)
    requires
        m.peers.contains_key(key),
        m.peers[key].status == ParticipantStatus::Timeout,
    ensures
        m.punish(punished).peers[key].status == ParticipantStatus::Timeout,
        key != m.current_author.address ==> m.rotate().peers[key] == m.peers[key],
{
}

/// Advancing and reverting keep a well-formed machine well formed.
pub proof fn lemma_state_steps_keep_well_formed(m: MachineModel<State>)
    requires
        m.well_formed(),
    ensures
        m.advance().well_formed(),
        m.revert().well_formed(),
{
}

/// Punishing a registered peer other than the author keeps a well-formed
/// machine well formed.
pub proof fn lemma_punish_keeps_well_formed<S>(m: MachineModel<S>, address: u32)
    requires
        m.well_formed(),
        m.peers.contains_key(address),
        address != m.current_author.address,
    ensures
        m.punish(address).well_formed(),
{
    let after = m.punish(address);
    assert forall|key: u32| #[trigger] after.peers.contains_key(key) implies after.peers[key].address
        == key by {
        assert(m.peers.contains_key(key));
    }
    assert forall|key: u32| #[trigger]
        after.peers.contains_key(key) && after.peers[key].status
            == ParticipantStatus::Author implies key == after.current_author.address by {
        assert(m.peers.contains_key(key));
    }
}

/// A well-formed machine can always rotate, and unless the rotation stalls
/// the machine is well formed again afterwards, with the proposed peer as
/// the one author.
pub proof fn lemma_rotation_keeps_well_formed<S>(m: MachineModel<S>)
    requires
        m.well_formed(),
    ensures
        m.can_rotate(),
        !m.stalls() ==> m.rotate().well_formed() && m.rotate().current_author.address
            == m.proposed_address(),
{
    if !m.stalls() {
        let after = m.rotate();
        let target = m.proposed_address();
        assert(m.peers.contains_key(target));
        assert(m.demoted_peers().contains_key(target));
        assert forall|key: u32| #[trigger] after.peers.contains_key(key) implies after.peers[key].address
            == key by {
            assert(m.peers.contains_key(key));
        }
        assert forall|key: u32| #[trigger]
            after.peers.contains_key(key) && after.peers[key].status
                == ParticipantStatus::Author implies key == after.current_author.address by {
            assert(m.peers.contains_key(key));
        }
    }
}

/// In a registry of the addresses `0..size` with nobody in timeout, one
/// rotation hands authorship to the following address, and from the last
/// address back to zero. The registry is such a ring again afterwards.
pub proof fn lemma_rotation_steps_round_the_ring<S>(m: MachineModel<S>, size: nat)
    requires
        m.is_ring(size),
    ensures
        m.can_rotate(),
        !m.stalls(),
        m.rotate().is_ring(size),
        m.rotate().current_author == (Participant {
            address: ((m.current_author.address + 1) % (size as int)) as u32,
            status: ParticipantStatus::Author,
        }),
        m.rotate().peers[m.rotate().current_author.address] == m.rotate().current_author,
{
    let author = m.current_author.address;
    let target = m.proposed_address();
    assert(m.peers.contains_key(author));
    assert(m.peers.contains_key(0));
    if author + 1 < size {
        assert(m.peers.contains_key((author + 1) as u32));
        lemma_small_mod((author + 1) as nat, size);
    } else {
        assert(author < u32::MAX ==> !m.peers.contains_key((author + 1) as u32));
        lemma_mod_self_0(size as int);
    }
    assert(target == (author + 1) % (size as int));
    assert(m.peers.contains_key(target));
    let after = m.rotate();
    assert forall|key: u32| #[trigger] after.peers.contains_key(key) implies after.peers[key].address
        == key && after.peers[key].status != ParticipantStatus::Timeout by {
        assert(m.peers.contains_key(key));
    }
    assert forall|key: u32| #[trigger] after.peers.contains_key(key) <==> key < size by {
        assert(m.peers.contains_key(key) <==> key < size);
    }
}

/// Round-robin order. In a registry of the addresses `0..size` with nobody
/// in timeout, `rounds` rotations in a row move authorship `rounds` addresses
/// on, counted round the ring: from address `a` the authors are `a + 1`,
/// `a + 2`, and so on up to `size - 1`, then `0`, `1`, and so on. After each
/// rotation the author's registry entry says `Author`.
pub proof fn lemma_rotation_cycles<S>(m: MachineModel<S>, size: nat, rounds: nat)
    requires
        m.is_ring(size),
    ensures
        m.rotate_times(rounds).is_ring(size),
        m.rotate_times(rounds).current_author.address == (m.current_author.address + rounds) % (
        size as int),
        rounds > 0 ==> {
            let after = m.rotate_times(rounds);
            &&& after.current_author.status == ParticipantStatus::Author
            &&& after.peers[after.current_author.address] == after.current_author
        },
    decreases rounds,
{
    let start = m.current_author.address as int;
    if rounds == 0 {
        lemma_small_mod(start as nat, size);
    } else {
        let before = m.rotate_times((rounds - 1) as nat);
        lemma_rotation_cycles(m, size, (rounds - 1) as nat);
        lemma_rotation_steps_round_the_ring(before, size);
        let n = size as int;
        assert((1 + (start + rounds - 1) % n) % n == (1 + (start + rounds - 1)) % n) by {
            lemma_add_mod_noop_right(1, start + rounds - 1, n);
        }
    }
}

/// After as many rotations as the ring has addresses, authorship is back
/// where it started.
pub proof fn lemma_rotation_comes_full_circle<S>(m: MachineModel<S>, size: nat)
    requires
        m.is_ring(size),
    ensures
        m.rotate_times(size).current_author.address == m.current_author.address,
{
    let start = m.current_author.address as int;
    let n = size as int;
    lemma_rotation_cycles(m, size, size);
    assert((start + n % n) % n == (start + n) % n) by {
        lemma_add_mod_noop_right(start, n, n);
    }
    lemma_mod_self_0(n);
    lemma_small_mod(start as nat, size);
}

} // verus!
