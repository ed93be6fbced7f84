use chiselstore::decode::{
    ble_message_is_complete, blemessageSP, psg_is_complete, snapshot_from_wire, Compactionsp,
    ProposalForwardsp, RPCtoSeqPaxos, SSsp, StoreCommandSP, SyncItemSP,
};
use chiselstore::encode::{
    ballotpr, BleMessagepr, Compactionpr, Preparepr, ProposalForwardpr, SSpr, SeqpaxosToRpc,
    StoreCommandpr, SyncItempr,
};
use chiselstore::paxos::{
    AcceptDecide, AcceptStopSign, AcceptSync, Accepted, AcceptedStopSign, BLEMessage, Ballot,
    Compaction, Decide, DecideStopSign, FirstAccept, HeartbeatMsg, HeartbeatReply,
    HeartbeatRequest, Message, PaxosMsg, Prepare, Promise, SnapshotType, StopSign, StoreCommand,
    SyncItem,
};
use chiselstore::proto::{
    AcceptSsObj, BallotObj, BleMessageObj, BleMsg, CompactionKind, CompactionObj,
    HeartbeatReplyObj, MetadataObj, PrepareObj, ProposalForwardObj, Psg, PsgMsg, StopSignObj,
    StoreCommandObj, SyncItemInum, SyncItemObj, TrimObj, SNAPSHOT_COMPLETE, SNAPSHOT_DELTA,
    SNAPSHOT_PHANTOM,
};

fn ballot(n: u32) -> Ballot {
    Ballot { n, priority: 10, pid: 3 }
}

fn cmd(id: usize, sql: &str) -> StoreCommand {
    StoreCommand { id, sql: sql.to_string() }
}

fn cmds() -> Vec<StoreCommand> {
    vec![cmd(1, "CREATE TABLE t (x INT)"), cmd(2, "INSERT INTO t VALUES (1)"), cmd(7, "")]
}

fn stop_sign() -> StopSign {
    StopSign { config_id: 4, nodes: vec![1, 2, 3], metadata: Some(vec![0, 9, 255]) }
}

/// Every kind of sequence-paxos body, one of each.
fn all_bodies() -> Vec<PaxosMsg> {
    vec![
        PaxosMsg::PrepareReq,
        PaxosMsg::Prepare(Prepare { n: ballot(2), ld: 5, n_accepted: ballot(1), la: 6 }),
        PaxosMsg::Promise(Promise {
            n: ballot(2),
            n_accepted: ballot(1),
            sync_item: Some(SyncItem::Entries(cmds())),
            ld: 3,
            la: 4,
            stopsign: Some(stop_sign()),
        }),
        PaxosMsg::Promise(Promise {
            n: ballot(2),
            n_accepted: ballot(1),
            sync_item: None,
            ld: 0,
            la: 0,
            stopsign: None,
        }),
        PaxosMsg::AcceptSync(AcceptSync {
            n: ballot(3),
            sync_item: SyncItem::Snapshot(SnapshotType::Delta),
            sync_idx: 8,
            decide_idx: Some(7),
            stopsign: None,
        }),
        PaxosMsg::AcceptSync(AcceptSync {
            n: ballot(3),
            sync_item: SyncItem::Empty,
            sync_idx: 8,
            decide_idx: None,
            stopsign: Some(StopSign { config_id: 1, nodes: vec![], metadata: None }),
        }),
        PaxosMsg::FirstAccept(FirstAccept { n: ballot(4), entries: cmds() }),
        PaxosMsg::AcceptDecide(AcceptDecide { n: ballot(4), ld: 9, entries: cmds() }),
        PaxosMsg::Accepted(Accepted { n: ballot(4), la: 11 }),
        PaxosMsg::Decide(Decide { n: ballot(4), ld: 12 }),
        PaxosMsg::ProposalForward(cmds()),
        PaxosMsg::Compaction(Compaction::Trim(Some(3))),
        PaxosMsg::ForwardCompaction(Compaction::Snapshot(42)),
        PaxosMsg::AcceptStopSign(AcceptStopSign { n: ballot(5), ss: stop_sign() }),
        PaxosMsg::AcceptedStopSign(AcceptedStopSign { n: ballot(5) }),
        PaxosMsg::DecideStopSign(DecideStopSign { n: ballot(5) }),
    ]
}

fn all_messages() -> Vec<Message> {
    all_bodies().into_iter().map(|msg| Message { from: 1, to: 2, msg }).collect()
}

#[test]
fn store_command_to_wire() {
    let o = StoreCommandpr(cmd(17, "SELECT 1"));
    assert_eq!(o, StoreCommandObj { id: 17, query: "SELECT 1".to_string() });
}

#[test]
fn store_command_from_wire() {
    let c = StoreCommandSP(StoreCommandObj { id: 99, query: "DELETE FROM t".to_string() });
    assert_eq!(c, cmd(99, "DELETE FROM t"));
}

#[test]
fn store_command_roundtrip() {
    let c = cmd(usize::MAX, "UPDATE t SET x = 2");
    assert_eq!(StoreCommandSP(StoreCommandpr(c)), cmd(usize::MAX, "UPDATE t SET x = 2"));
}

#[test]
fn proposal_forward_keeps_order() {
    let o = ProposalForwardpr(cmds());
    let ids: Vec<u64> = o.entries.iter().map(|e| e.id).collect();
    assert_eq!(ids, vec![1, 2, 7]);
    assert_eq!(o.entries[1].query, "INSERT INTO t VALUES (1)");
    assert_eq!(ProposalForwardsp(o), cmds());
}

#[test]
fn proposal_forward_empty() {
    let o = ProposalForwardpr(vec![]);
    assert!(o.entries.is_empty());
    assert_eq!(ProposalForwardsp(ProposalForwardObj { entries: vec![] }), vec![]);
}

#[test]
fn ballot_to_wire() {
    assert_eq!(ballotpr(Ballot { n: 5, priority: 6, pid: 7 }), BallotObj { n: 5, priority: 6, pid: 7 });
}

#[test]
fn prepare_to_wire() {
    let o = Preparepr(Prepare { n: ballot(2), ld: 5, n_accepted: ballot(1), la: 6 });
    assert_eq!(
        o,
        PrepareObj {
            n: Some(BallotObj { n: 2, priority: 10, pid: 3 }),
            ld: 5,
            n_accepted: Some(BallotObj { n: 1, priority: 10, pid: 3 }),
            la: 6,
        }
    );
}

#[test]
fn sync_item_snapshot_numbers() {
    let kinds = [
        (SnapshotType::Complete, SNAPSHOT_COMPLETE),
        (SnapshotType::Delta, SNAPSHOT_DELTA),
        (SnapshotType::Phantom, SNAPSHOT_PHANTOM),
    ];
    for (kind, number) in kinds {
        let o = SyncItempr(SyncItem::Snapshot(kind));
        assert_eq!(o, SyncItemObj { inum: Some(SyncItemInum::S(number)) });
        assert_eq!(SyncItemSP(o), SyncItem::Snapshot(kind));
    }
    assert_eq!((SNAPSHOT_COMPLETE, SNAPSHOT_DELTA, SNAPSHOT_PHANTOM), (0, 1, 2));
}

#[test]
fn snapshot_numbers_known_and_unknown() {
    assert_eq!(snapshot_from_wire(0), Some(SnapshotType::Complete));
    assert_eq!(snapshot_from_wire(1), Some(SnapshotType::Delta));
    assert_eq!(snapshot_from_wire(2), Some(SnapshotType::Phantom));
    assert_eq!(snapshot_from_wire(3), None);
    assert_eq!(snapshot_from_wire(-1), None);
}

#[test]
fn stop_sign_metadata_widened() {
    let o = SSpr(stop_sign());
    assert_eq!(
        o,
        StopSignObj { config_id: 4, nodes: vec![1, 2, 3], metadata: Some(MetadataObj { vec: vec![0, 9, 255] }) }
    );
    assert_eq!(SSsp(o), stop_sign());
}

#[test]
fn stop_sign_metadata_cut_to_byte() {
    let o = StopSignObj { config_id: 1, nodes: vec![5], metadata: Some(MetadataObj { vec: vec![300, 256, 7] }) };
    assert_eq!(SSsp(o), StopSign { config_id: 1, nodes: vec![5], metadata: Some(vec![44, 0, 7]) });
}

#[test]
fn compaction_to_and_from_wire() {
    assert_eq!(
        Compactionpr(Compaction::Trim(None)),
        CompactionObj { compaction: Some(CompactionKind::Trim(TrimObj { trim: None })) }
    );
    assert_eq!(
        Compactionpr(Compaction::Snapshot(8)),
        CompactionObj { compaction: Some(CompactionKind::Snapshot(8)) }
    );
    assert_eq!(
        Compactionsp(CompactionObj { compaction: Some(CompactionKind::Trim(TrimObj { trim: Some(2) })) }),
        Compaction::Trim(Some(2))
    );
}

#[test]
fn message_keeps_sender_and_receiver() {
    let o = SeqpaxosToRpc(Message { from: 11, to: 12, msg: PaxosMsg::PrepareReq });
    assert_eq!((o.from, o.to), (11, 12));
    assert!(matches!(o.msg, Some(PsgMsg::Preparereq(_))));
}

#[test]
fn every_message_roundtrips() {
    for (sent, expected) in all_messages().into_iter().zip(all_messages()) {
        let wire = SeqpaxosToRpc(sent);
        assert!(psg_is_complete(&wire));
        assert_eq!(RPCtoSeqPaxos(wire), expected);
    }
}

/// Complete wire messages whose identifiers fit in a word and whose metadata are bytes.
fn wire_messages() -> Vec<Psg> {
    let b = || Some(BallotObj { n: 3, priority: 1, pid: 2 });
    let wcmd = |id: u64, q: &str| StoreCommandObj { id, query: q.to_string() };
    vec![
        Psg { from: 1, to: 2, msg: Some(PsgMsg::Preparereq(chiselstore::proto::PrepareReqObj {})) },
        Psg {
            from: 2,
            to: 1,
            msg: Some(PsgMsg::Promise(chiselstore::proto::PromiseObj {
                n: b(),
                n_accepted: b(),
                sync_item: Some(SyncItemObj {
                    inum: Some(SyncItemInum::E(chiselstore::proto::EntriesObj { vec: vec![wcmd(5, "a"), wcmd(6, "b")] })),
                }),
                ld: 1,
                la: 2,
                stop_sign: Some(StopSignObj { config_id: 2, nodes: vec![1], metadata: Some(MetadataObj { vec: vec![1, 200] }) }),
            })),
        },
        Psg {
            from: 3,
            to: 4,
            msg: Some(PsgMsg::AcceptSync(chiselstore::proto::AcceptSyncObj {
                n: b(),
                sync_item: Some(SyncItemObj { inum: Some(SyncItemInum::S(SNAPSHOT_PHANTOM)) }),
                sync_idx: 9,
                decide_idx: None,
                stop_sign: None,
            })),
        },
        Psg { from: 5, to: 6, msg: Some(PsgMsg::ForwardCompaction(CompactionObj { compaction: Some(CompactionKind::Snapshot(4)) })) },
        Psg { from: 5, to: 6, msg: Some(PsgMsg::Proposalforward(ProposalForwardObj { entries: vec![wcmd(u32::MAX as u64, "c")] })) },
    ]
}

#[test]
fn every_wire_message_roundtrips() {
    for (received, expected) in wire_messages().into_iter().zip(wire_messages()) {
        assert!(psg_is_complete(&received));
        assert_eq!(SeqpaxosToRpc(RPCtoSeqPaxos(received)), expected);
    }
}

#[test]
fn metadata_beyond_a_byte_does_not_roundtrip() {
    let wire = || Psg {
        from: 1,
        to: 2,
        msg: Some(PsgMsg::AcceptStopSign(AcceptSsObj {
            n: Some(BallotObj { n: 1, priority: 1, pid: 1 }),
            ss: Some(StopSignObj { config_id: 0, nodes: vec![], metadata: Some(MetadataObj { vec: vec![300] }) }),
        })),
    };
    assert_ne!(SeqpaxosToRpc(RPCtoSeqPaxos(wire())), wire());
}

#[test]
fn distinct_messages_stay_distinct() {
    let a = SeqpaxosToRpc(Message { from: 1, to: 2, msg: PaxosMsg::Compaction(Compaction::Trim(None)) });
    let b = SeqpaxosToRpc(Message { from: 1, to: 2, msg: PaxosMsg::ForwardCompaction(Compaction::Trim(None)) });
    assert_ne!(a, b);
}

#[test]
fn accepted_kind_is_kept() {
    let wire = SeqpaxosToRpc(Message { from: 3, to: 4, msg: PaxosMsg::Accepted(Accepted { n: ballot(9), la: 77 }) });
    match &wire.msg {
        Some(PsgMsg::Accepted(a)) => {
            assert_eq!(a.la, 77);
            assert_eq!(a.n, Some(BallotObj { n: 9, priority: 10, pid: 3 }));
        }
        _ => panic!("wrong kind"),
    }
}

#[test]
fn incomplete_messages_detected() {
    assert!(!psg_is_complete(&Psg { from: 1, to: 2, msg: None }));
    let missing_ballot = Psg {
        from: 1,
        to: 2,
        msg: Some(PsgMsg::Prepare(PrepareObj { n: None, ld: 0, n_accepted: Some(BallotObj { n: 0, priority: 0, pid: 0 }), la: 0 })),
    };
    assert!(!psg_is_complete(&missing_ballot));
    let missing_stop_sign = Psg {
        from: 1,
        to: 2,
        msg: Some(PsgMsg::AcceptStopSign(AcceptSsObj { n: Some(BallotObj { n: 0, priority: 0, pid: 0 }), ss: None })),
    };
    assert!(!psg_is_complete(&missing_stop_sign));
    let unknown_snapshot = SyncItemObj { inum: Some(SyncItemInum::S(5)) };
    let promise = chiselstore::proto::PromiseObj {
        n: Some(BallotObj { n: 0, priority: 0, pid: 0 }),
        n_accepted: Some(BallotObj { n: 0, priority: 0, pid: 0 }),
        sync_item: Some(unknown_snapshot),
        ld: 0,
        la: 0,
        stop_sign: None,
    };
    assert!(!psg_is_complete(&Psg { from: 1, to: 2, msg: Some(PsgMsg::Promise(promise)) }));
    let no_kind = Psg { from: 1, to: 2, msg: Some(PsgMsg::Compaction(CompactionObj { compaction: None })) };
    assert!(!psg_is_complete(&no_kind));
    let proposals = Psg { from: 1, to: 2, msg: Some(PsgMsg::Proposalforward(ProposalForwardObj { entries: vec![] })) };
    assert!(psg_is_complete(&proposals));
}

#[test]
fn wire_command_id_kept_when_it_fits() {
    let wire = Psg {
        from: 5,
        to: 6,
        msg: Some(PsgMsg::Proposalforward(ProposalForwardObj {
            entries: vec![StoreCommandObj { id: 1234, query: "SELECT x FROM t".to_string() }],
        })),
    };
    let m = RPCtoSeqPaxos(wire);
    assert_eq!(m, Message { from: 5, to: 6, msg: PaxosMsg::ProposalForward(vec![cmd(1234, "SELECT x FROM t")]) });
}

#[test]
fn ble_request_roundtrip() {
    let m = BLEMessage { from: 1, to: 2, msg: HeartbeatMsg::Request(HeartbeatRequest { round: 3 }) };
    let o = BleMessagepr(m);
    assert!(ble_message_is_complete(&o));
    assert_eq!(blemessageSP(o), m);
}

#[test]
fn ble_reply_to_wire() {
    let m = BLEMessage {
        from: 4,
        to: 5,
        msg: HeartbeatMsg::Reply(HeartbeatReply { round: 6, ballot: ballot(7), majority_connected: true }),
    };
    let o = BleMessagepr(m);
    assert_eq!(
        o,
        BleMessageObj {
            from: 4,
            to: 5,
            msg: Some(BleMsg::Heartbeatrep(HeartbeatReplyObj {
                round: 6,
                ballot: Some(BallotObj { n: 7, priority: 10, pid: 3 }),
                majority_connected: true,
            })),
        }
    );
    assert_eq!(blemessageSP(o), m);
}

#[test]
fn ble_incomplete_detected() {
    assert!(!ble_message_is_complete(&BleMessageObj { from: 1, to: 2, msg: None }));
    let no_ballot = BleMessageObj {
        from: 1,
        to: 2,
        msg: Some(BleMsg::Heartbeatrep(HeartbeatReplyObj { round: 1, ballot: None, majority_connected: false })),
    };
    assert!(!ble_message_is_complete(&no_ballot));
}
