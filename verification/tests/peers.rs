use leader_rotation::generic_types::Peer;
use leader_rotation::machine_simple_impl::{MachineError, Participant, ParticipantStatus, State};
use leader_rotation::util::generate_participiants;

#[test]
fn create_gives_a_plain_participant() {
    let peer = Participant::create(5);
    assert_eq!(peer.address, 5);
    assert_eq!(*peer.status(), ParticipantStatus::Participant);
}

#[test]
fn change_status_replaces_the_status_only() {
    let mut peer = Participant::create(9);
    peer.change_status(ParticipantStatus::Author);
    assert_eq!(*peer.status(), ParticipantStatus::Author);
    assert_eq!(peer.address, 9);
    peer.change_status(ParticipantStatus::Timeout);
    assert_eq!(*peer.status(), ParticipantStatus::Timeout);
    peer.change_status(ParticipantStatus::Participant);
    assert_eq!(*peer.status(), ParticipantStatus::Participant);
    assert_eq!(peer.address, 9);
}

#[test]
fn generated_peers_count_up_from_zero() {
    let peers = generate_participiants::<Participant>(4);
    assert_eq!(peers.len(), 4);
    let mut expected: u32 = 0;
    for peer in peers.iter() {
        assert_eq!(peer.address, expected);
        assert_eq!(peer.status, ParticipantStatus::Participant);
        expected += 1;
    }
}

#[test]
fn generating_no_peers_gives_an_empty_list() {
    let peers = generate_participiants::<Participant>(0);
    assert!(peers.is_empty());
}

#[test]
fn clones_are_equal_to_their_originals() {
    let peer = Participant { address: 3, status: ParticipantStatus::Timeout };
    let copy = peer.clone();
    assert_eq!(copy.address, 3);
    assert_eq!(copy.status, ParticipantStatus::Timeout);
    assert_eq!(ParticipantStatus::Author.clone(), ParticipantStatus::Author);
    assert_eq!(ParticipantStatus::Participant.clone(), ParticipantStatus::Participant);
    let error = MachineError::MaliciousParticipant(8);
    assert_eq!(error.clone(), MachineError::MaliciousParticipant(8));
    let state = State { status: true };
    assert_eq!(state.clone(), state);
}

#[test]
fn errors_differ_by_address() {
    assert_ne!(MachineError::MaliciousParticipant(1), MachineError::MaliciousParticipant(2));
    assert_eq!(format!("{:?}", MachineError::MaliciousParticipant(1)), "MaliciousParticipant(1)");
}
