use sawtooth_pbft::{
    PbftBlock, PbftConfig, PbftError, PbftMessageType, PbftMode, PbftPhase, PbftState,
    TimeoutState, WorkingBlockOption,
};

fn peer(i: u64) -> Vec<u8> {
    vec![0xa0 + i as u8, 0x10, i as u8]
}

fn config(n: u64) -> PbftConfig {
    PbftConfig {
        peers: (0..n).map(|i| (peer(i), i)).collect(),
        view_change_timeout: 4000,
    }
}

fn node(id: u64, n: u64) -> PbftState {
    PbftState::new(id, &config(n)).unwrap()
}

#[test]
fn new_state_starts_a_fresh_round() {
    let s = node(2, 4);
    assert_eq!(s.id, 2);
    assert_eq!(s.seq_num, 0);
    assert_eq!(s.view, 0);
    assert_eq!(s.phase, PbftPhase::NotStarted);
    assert_eq!(s.mode, PbftMode::Normal);
    assert_eq!(s.pre_checkpoint_mode, PbftMode::Normal);
    assert!(!s.is_primary());
    assert!(s.working_block.is_none());
    assert_eq!(s.timeout.state, TimeoutState::Inactive);
    assert_eq!(s.timeout.duration, 4000);
    assert!(node(0, 4).is_primary());
}

#[test]
fn fault_bound_by_network_size() {
    assert_eq!(node(0, 1).f, 0);
    assert_eq!(node(0, 2).f, 0);
    assert_eq!(node(0, 3).f, 0);
    assert_eq!(node(0, 4).f, 1);
    assert_eq!(node(0, 6).f, 1);
    assert_eq!(node(0, 7).f, 2);
    assert_eq!(node(0, 10).f, 3);
    assert_eq!(node(0, 4).network_node_ids.fault_bound(), 1);
}

#[test]
fn membership_errors() {
    assert_eq!(PbftState::new(0, &config(0)).unwrap_err(), PbftError::InvalidMembership);
    assert_eq!(PbftState::new(4, &config(4)).unwrap_err(), PbftError::NodeNotFound);
    let gap = PbftConfig { peers: vec![(peer(0), 0), (peer(2), 2)], view_change_timeout: 1 };
    assert_eq!(PbftState::new(0, &gap).unwrap_err(), PbftError::InvalidMembership);
    let twice = PbftConfig { peers: vec![(peer(0), 0), (peer(1), 0)], view_change_timeout: 1 };
    assert_eq!(PbftState::new(0, &twice).unwrap_err(), PbftError::InvalidMembership);
    let shared = PbftConfig { peers: vec![(peer(0), 0), (peer(0), 1)], view_change_timeout: 1 };
    assert_eq!(PbftState::new(0, &shared).unwrap_err(), PbftError::InvalidMembership);
}

#[test]
fn peers_in_any_order() {
    let c = PbftConfig {
        peers: vec![(peer(2), 2), (peer(0), 0), (peer(1), 1)],
        view_change_timeout: 1,
    };
    let s = PbftState::new(1, &c).unwrap();
    assert_eq!(s.get_own_peer_id(), peer(1));
    assert_eq!(s.get_primary_peer_id(), peer(0));
    assert_eq!(s.get_node_id_from_bytes(&peer(2)), Ok(2));
}

#[test]
fn primary_follows_view() {
    let mut s = node(1, 4);
    for view in 0..9u64 {
        s.view = view;
        assert_eq!(s.get_primary_peer_id(), peer(view % 4));
    }
    s.view = u64::MAX;
    assert_eq!(s.get_primary_peer_id(), peer(u64::MAX % 4));
}

#[test]
fn one_primary_per_view() {
    for view in 0..8u64 {
        let mut primaries = 0;
        for id in 0..4 {
            let mut s = node(id, 4);
            s.view = view;
            if view % 4 == id {
                s.upgrade_role();
            } else {
                s.downgrade_role();
            }
            if s.is_primary() {
                primaries += 1;
                assert_eq!(s.get_own_peer_id(), s.get_primary_peer_id());
            }
        }
        assert_eq!(primaries, 1);
    }
}

#[test]
fn lookup_round_trips() {
    let s = node(3, 5);
    for i in 0..5 {
        assert_eq!(s.get_node_id_from_bytes(&peer(i)), Ok(i));
    }
    assert_eq!(s.get_node_id_from_bytes(&[1, 2, 3]), Err(PbftError::NodeNotFound));
    assert_eq!(s.get_node_id_from_bytes(&[]), Err(PbftError::NodeNotFound));
    assert_eq!(s.get_node_id_from_bytes(&peer(0)[..2]), Err(PbftError::NodeNotFound));
    assert_eq!(s.get_own_peer_id(), peer(3));
}

#[test]
fn phases_advance_one_step_at_a_time() {
    let mut s = node(0, 4);
    let cycle = [
        PbftPhase::PrePreparing,
        PbftPhase::Preparing,
        PbftPhase::Checking,
        PbftPhase::Committing,
        PbftPhase::Finished,
        PbftPhase::NotStarted,
    ];
    for round in 0..2 {
        for (i, next) in cycle.iter().enumerate() {
            let here = s.phase;
            // skipping ahead or going back is refused, and changes nothing
            let skip = cycle[(i + 1) % cycle.len()];
            assert_eq!(s.switch_phase(skip), None);
            assert_eq!(s.switch_phase(here), None);
            assert_eq!(s.phase, here);
            assert_eq!(s.switch_phase(*next), Some(*next), "round {}", round);
            assert_eq!(s.phase, *next);
        }
    }
}

#[test]
fn expected_message_by_phase() {
    let mut s = node(0, 4);
    assert_eq!(s.check_msg_type(), PbftMessageType::Unset);
    let expected = [
        (PbftPhase::PrePreparing, PbftMessageType::PrePrepare),
        (PbftPhase::Preparing, PbftMessageType::Prepare),
        (PbftPhase::Checking, PbftMessageType::Prepare),
        (PbftPhase::Committing, PbftMessageType::Commit),
        (PbftPhase::Finished, PbftMessageType::Unset),
        (PbftPhase::NotStarted, PbftMessageType::Unset),
    ];
    for (phase, kind) in expected.iter() {
        assert_eq!(s.switch_phase(*phase), Some(*phase));
        assert_eq!(s.check_msg_type(), *kind);
    }
}

#[test]
fn checkpoint_then_restore_keeps_mode() {
    let mut s = node(1, 4);
    s.enter_checkpointing();
    assert_eq!(s.mode, PbftMode::Checkpointing);
    assert_eq!(s.pre_checkpoint_mode, PbftMode::Normal);
    s.restore_mode();
    assert_eq!(s.mode, PbftMode::Normal);

    // a view change that interrupts a checkpoint returns to checkpointing
    s.enter_checkpointing();
    s.enter_view_change();
    assert_eq!(s.mode, PbftMode::ViewChanging);
    assert_eq!(s.pre_checkpoint_mode, PbftMode::Checkpointing);
    assert_eq!(s.view, 1);
    s.restore_mode();
    assert_eq!(s.mode, PbftMode::Checkpointing);
}

#[test]
fn working_block_states() {
    let none = WorkingBlockOption::NoWorkingBlock;
    let tentative = WorkingBlockOption::TentativeWorkingBlock(vec![1, 2, 3]);
    let bound = WorkingBlockOption::WorkingBlock(PbftBlock {
        block_id: vec![1, 2, 3],
        signer_id: vec![9],
        block_num: 7,
        summary: vec![],
    });
    assert!(none.is_none() && !none.is_some());
    assert!(!tentative.is_none() && !tentative.is_some());
    assert!(!bound.is_none() && bound.is_some());
}

#[test]
fn four_node_round() {
    let mut s = node(0, 4);
    assert_eq!(s.f, 1);
    assert!(s.is_primary());
    assert_eq!(s.get_primary_peer_id(), s.get_own_peer_id());

    let block_id = vec![0xde, 0xad, 0xbe, 0xef];
    s.working_block = WorkingBlockOption::TentativeWorkingBlock(block_id.clone());
    assert!(!s.working_block.is_none());
    assert!(!s.working_block.is_some());

    assert_eq!(s.switch_phase(PbftPhase::PrePreparing), Some(PbftPhase::PrePreparing));
    s.seq_num = 1;
    s.working_block = WorkingBlockOption::WorkingBlock(PbftBlock {
        block_id,
        signer_id: peer(0),
        block_num: 1,
        summary: vec![],
    });
    assert!(s.working_block.is_some());
    assert_eq!(s.check_msg_type(), PbftMessageType::PrePrepare);

    // 2f + 1 matching Prepare messages seen
    let prepares = 3;
    assert!(prepares >= 2 * s.f + 1);
    assert_eq!(s.switch_phase(PbftPhase::Preparing), Some(PbftPhase::Preparing));
    assert_eq!(s.switch_phase(PbftPhase::Preparing), None);
    assert_eq!(s.phase, PbftPhase::Preparing);
}

#[test]
fn timeout_while_preparing_starts_view_change() {
    let mut s = node(1, 4);
    s.timeout.start(1000);
    assert_eq!(s.switch_phase(PbftPhase::PrePreparing), Some(PbftPhase::PrePreparing));
    assert_eq!(s.switch_phase(PbftPhase::Preparing), Some(PbftPhase::Preparing));
    assert_eq!(s.get_primary_peer_id(), peer(0));
    assert!(!s.timeout.is_expired(5000));
    assert!(s.timeout.is_expired(5001));

    s.enter_view_change();
    assert_eq!(s.mode, PbftMode::ViewChanging);
    assert_eq!(s.view, 1);
    assert_eq!(s.get_primary_peer_id(), peer(1));
    s.upgrade_role();
    assert!(s.is_primary());
    // messages of the old view no longer match the current one
    assert_ne!(s.view, 0);
}

#[test]
fn rendering() {
    let mut s = node(0, 4);
    assert_eq!(s.to_string(), "(NS N 0, seq 0, wb ~none~), Node *00");

    let mut t = node(12, 16);
    t.view = 3;
    t.seq_num = 250;
    t.mode = PbftMode::ViewChanging;
    t.working_block = WorkingBlockOption::TentativeWorkingBlock(vec![0x12, 0x34, 0x56, 0x78]);
    assert_eq!(t.to_string(), "(NS V 3, seq 250, wb 12345~), Node  12");

    s.switch_phase(PbftPhase::PrePreparing);
    s.mode = PbftMode::Checkpointing;
    s.working_block = WorkingBlockOption::WorkingBlock(PbftBlock {
        block_id: vec![0xab, 0xcd, 0xef, 0x01],
        signer_id: vec![],
        block_num: 1,
        summary: vec![],
    });
    assert_eq!(s.to_string(), "(PP C 0, seq 0, wb abcdef), Node *00");

    // identifiers shorter than the shown prefix are shown whole
    s.working_block = WorkingBlockOption::TentativeWorkingBlock(vec![0x0f]);
    assert_eq!(s.to_string(), "(PP C 0, seq 0, wb 0f~), Node *00");
}
