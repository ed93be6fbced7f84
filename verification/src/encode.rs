//! From consensus messages to wire messages.
//!
//! Each `encode_*` spec function says what the wire form of a value is; each
//! executable conversion returns a message whose view is that wire form.
use vstd::prelude::*;
use crate::paxos::{
    StoreCommand, SpecStoreCommand, commands_view, Ballot, Prepare, SnapshotType, SyncItem,
    SpecSyncItem, StopSign, SpecStopSign, Promise, SpecPromise, AcceptSync, SpecAcceptSync,
    FirstAccept, SpecFirstAccept, AcceptDecide, SpecAcceptDecide, Accepted, Decide, Compaction,
    AcceptStopSign, SpecAcceptStopSign, AcceptedStopSign, DecideStopSign, PaxosMsg, SpecPaxosMsg,
    Message, SpecMessage, HeartbeatRequest, HeartbeatReply, HeartbeatMsg, BLEMessage,
};
use crate::fields::{same_ballot, sent_ballot};
use crate::proto::{
    StoreCommandObj, SpecStoreCommandObj, command_objs_view, BallotObj, PrepareReqObj,
    PrepareObj, EntriesObj, NoneObj, SyncItemInum, SpecSyncItemInum, SyncItemObj,
    SpecSyncItemObj, MetadataObj, StopSignObj, SpecStopSignObj, PromiseObj, SpecPromiseObj,
    AcceptSyncObj, SpecAcceptSyncObj, FirstMessageObj, SpecFirstMessageObj, AcceptDecideObj,
    SpecAcceptDecideObj, AcceptedObj, DecideObj, ProposalForwardObj, TrimObj, CompactionKind,
    CompactionObj, AcceptSsObj, SpecAcceptSsObj, AcceptedSsObj, DecidedSsObj, PsgMsg,
    SpecPsgMsg, Psg, SpecPsg, HeartbeatRequestObj, HeartbeatReplyObj, BleMsg, BleMessageObj,
    SNAPSHOT_COMPLETE, SNAPSHOT_DELTA, SNAPSHOT_PHANTOM,
};

verus! {

// ---------------------------------------------------------------------------
// The wire form of each consensus value
// ---------------------------------------------------------------------------

/// The wire form of a ballot: the same three numbers.
pub open spec fn encode_ballot(b: Ballot) -> BallotObj {
    BallotObj { n: b.n, priority: b.priority, pid: b.pid }
}

/// The wire form of `Prepare`: both ballots present, indices kept.
pub open spec fn encode_prepare(p: Prepare) -> PrepareObj {
    PrepareObj {
        n: Some(encode_ballot(p.n)),
        ld: p.ld,
        n_accepted: Some(encode_ballot(p.n_accepted)),
        la: p.la,
    }
}

/// The wire form of a store command: the identifier widened to 64 bits, the SQL text kept.
pub open spec fn encode_command(c: SpecStoreCommand) -> SpecStoreCommandObj {
    SpecStoreCommandObj { id: c.id as u64, query: c.sql }
}

/// The wire form of a sequence of commands, element by element in the same order.
pub open spec fn encode_commands(s: Seq<SpecStoreCommand>) -> Seq<SpecStoreCommandObj> {
    s.map_values(|c: SpecStoreCommand| encode_command(c))
}

/// The wire number of a snapshot kind.
pub open spec fn encode_snapshot(t: SnapshotType) -> i32 {
    match t {
        SnapshotType::Complete => SNAPSHOT_COMPLETE,
        SnapshotType::Delta => SNAPSHOT_DELTA,
        SnapshotType::Phantom => SNAPSHOT_PHANTOM,
    }
}

/// The wire form of a sync item: always with its alternative present.
pub open spec fn encode_sync_item(s: SpecSyncItem) -> SpecSyncItemObj {
    SpecSyncItemObj {
        inum: Some(
            match s {
                SpecSyncItem::Entries(v) => SpecSyncItemInum::E(encode_commands(v)),
                SpecSyncItem::Snapshot(t) => SpecSyncItemInum::S(encode_snapshot(t)),
                SpecSyncItem::Empty => SpecSyncItemInum::Empty,
            },
        ),
    }
}

/// The wire form of a stop sign: each metadata byte widened to 32 bits.
pub open spec fn encode_stop_sign(s: SpecStopSign) -> SpecStopSignObj {
    SpecStopSignObj {
        config_id: s.config_id,
        nodes: s.nodes,
        metadata: match s.metadata {
            Some(m) => Some(m.map_values(|b: u8| b as u32)),
            None => None,
        },
    }
}

/// The wire form of an optional stop sign.
pub open spec fn encode_opt_stop_sign(s: Option<SpecStopSign>) -> Option<SpecStopSignObj> {
    match s {
        Some(ss) => Some(encode_stop_sign(ss)),
        None => None,
    }
}

/// The wire form of `Promise`.
pub open spec fn encode_promise(p: SpecPromise) -> SpecPromiseObj {
    SpecPromiseObj {
        n: Some(encode_ballot(p.n)),
        n_accepted: Some(encode_ballot(p.n_accepted)),
        sync_item: match p.sync_item {
            Some(s) => Some(encode_sync_item(s)),
            None => None,
        },
        ld: p.ld,
        la: p.la,
        stop_sign: encode_opt_stop_sign(p.stopsign),
    }
}

/// The wire form of `AcceptSync`.
pub open spec fn encode_accept_sync(a: SpecAcceptSync) -> SpecAcceptSyncObj {
    SpecAcceptSyncObj {
        n: Some(encode_ballot(a.n)),
        sync_item: Some(encode_sync_item(a.sync_item)),
        sync_idx: a.sync_idx,
        decide_idx: a.decide_idx,
        stop_sign: encode_opt_stop_sign(a.stopsign),
    }
}

/// The wire form of `FirstAccept`.
pub open spec fn encode_first_accept(f: SpecFirstAccept) -> SpecFirstMessageObj {
    SpecFirstMessageObj { n: Some(encode_ballot(f.n)), e: encode_commands(f.entries) }
}

/// The wire form of `AcceptDecide`.
pub open spec fn encode_accept_decide(a: SpecAcceptDecide) -> SpecAcceptDecideObj {
    SpecAcceptDecideObj { n: Some(encode_ballot(a.n)), ld: a.ld, e: encode_commands(a.entries) }
}

/// The wire form of `Accepted`.
pub open spec fn encode_accepted(a: Accepted) -> AcceptedObj {
    AcceptedObj { n: Some(encode_ballot(a.n)), la: a.la }
}

/// The wire form of `Decide`.
pub open spec fn encode_decide(d: Decide) -> DecideObj {
    DecideObj { n: Some(encode_ballot(d.n)), ld: d.ld }
}

/// The wire form of a compaction: always with its alternative present.
pub open spec fn encode_compaction(c: Compaction) -> CompactionObj {
    CompactionObj {
        compaction: Some(
            match c {
                Compaction::Trim(t) => CompactionKind::Trim(TrimObj { trim: t }),
                Compaction::Snapshot(s) => CompactionKind::Snapshot(s),
            },
        ),
    }
}

/// The wire form of `AcceptStopSign`.
pub open spec fn encode_accept_stop_sign(a: SpecAcceptStopSign) -> SpecAcceptSsObj {
    SpecAcceptSsObj { n: Some(encode_ballot(a.n)), ss: Some(encode_stop_sign(a.ss)) }
}

/// The wire form of `AcceptedStopSign`.
pub open spec fn encode_accepted_stop_sign(a: AcceptedStopSign) -> AcceptedSsObj {
    AcceptedSsObj { n: Some(encode_ballot(a.n)) }
}

/// The wire form of `DecideStopSign`.
pub open spec fn encode_decide_stop_sign(d: DecideStopSign) -> DecidedSsObj {
    DecidedSsObj { n: Some(encode_ballot(d.n)) }
}

/// The wire form of a sequence-paxos message body: the alternative of the same name.
pub open spec fn encode_paxos_msg(m: SpecPaxosMsg) -> SpecPsgMsg {
    match m {
        SpecPaxosMsg::PrepareReq => SpecPsgMsg::Preparereq,
        SpecPaxosMsg::Prepare(p) => SpecPsgMsg::Prepare(encode_prepare(p)),
        SpecPaxosMsg::Promise(p) => SpecPsgMsg::Promise(encode_promise(p)),
        SpecPaxosMsg::AcceptSync(a) => SpecPsgMsg::AcceptSync(encode_accept_sync(a)),
        SpecPaxosMsg::FirstAccept(f) => SpecPsgMsg::FirstAccept(encode_first_accept(f)),
        SpecPaxosMsg::AcceptDecide(a) => SpecPsgMsg::AcceptDecide(encode_accept_decide(a)),
        SpecPaxosMsg::Accepted(a) => SpecPsgMsg::Accepted(encode_accepted(a)),
        SpecPaxosMsg::Decide(d) => SpecPsgMsg::Decide(encode_decide(d)),
        SpecPaxosMsg::ProposalForward(v) => SpecPsgMsg::Proposalforward(encode_commands(v)),
        SpecPaxosMsg::Compaction(c) => SpecPsgMsg::Compaction(encode_compaction(c)),
        SpecPaxosMsg::ForwardCompaction(c) => SpecPsgMsg::ForwardCompaction(encode_compaction(c)),
        SpecPaxosMsg::AcceptStopSign(a) => SpecPsgMsg::AcceptStopSign(encode_accept_stop_sign(a)),
        SpecPaxosMsg::AcceptedStopSign(a) => SpecPsgMsg::AcceptedStopSign(
            encode_accepted_stop_sign(a),
        ),
        SpecPaxosMsg::DecideStopSign(d) => SpecPsgMsg::DecideSsSign(encode_decide_stop_sign(d)),
    }
}

/// The wire form of a sequence-paxos message: sender and receiver kept, body present.
pub open spec fn encode_message(m: SpecMessage) -> SpecPsg {
    SpecPsg { from: m.from, to: m.to, msg: Some(encode_paxos_msg(m.msg)) }
}

/// The wire form of a heartbeat request.
pub open spec fn encode_heartbeat_request(r: HeartbeatRequest) -> HeartbeatRequestObj {
    HeartbeatRequestObj { round: r.round }
}

/// The wire form of a heartbeat reply.
pub open spec fn encode_heartbeat_reply(r: HeartbeatReply) -> HeartbeatReplyObj {
    HeartbeatReplyObj {
        round: r.round,
        ballot: Some(encode_ballot(r.ballot)),
        majority_connected: r.majority_connected,
    }
}

/// The wire form of a leader-election message: sender and receiver kept, body present.
pub open spec fn encode_ble_message(m: BLEMessage) -> BleMessageObj {
    BleMessageObj {
        from: m.from,
        to: m.to,
        msg: Some(
            match m.msg {
                HeartbeatMsg::Request(r) => BleMsg::Heartbeatreq(encode_heartbeat_request(r)),
                HeartbeatMsg::Reply(r) => BleMsg::Heartbeatrep(encode_heartbeat_reply(r)),
            },
        ),
    }
}

// ---------------------------------------------------------------------------
// The conversions
// ---------------------------------------------------------------------------

/// Converts a sequence-paxos message to its wire form.
pub fn SeqpaxosToRpc(message: Message) -> (res: Psg)
    ensures
        res@ == encode_message(message@),
        res.from == message.from,
        res.to == message.to,
        message.msg is PrepareReq <==> res.msg matches Some(PsgMsg::Preparereq(_)),
        message.msg is Prepare <==> res.msg matches Some(PsgMsg::Prepare(_)),
        message.msg is Promise <==> res.msg matches Some(PsgMsg::Promise(_)),
        message.msg is AcceptSync <==> res.msg matches Some(PsgMsg::AcceptSync(_)),
        message.msg is FirstAccept <==> res.msg matches Some(PsgMsg::FirstAccept(_)),
        message.msg is AcceptDecide <==> res.msg matches Some(PsgMsg::AcceptDecide(_)),
        message.msg is Accepted <==> res.msg matches Some(PsgMsg::Accepted(_)),
        message.msg is Decide <==> res.msg matches Some(PsgMsg::Decide(_)),
        message.msg is ProposalForward <==> res.msg matches Some(PsgMsg::Proposalforward(_)),
        message.msg is Compaction <==> res.msg matches Some(PsgMsg::Compaction(_)),
        message.msg is ForwardCompaction <==> res.msg matches Some(PsgMsg::ForwardCompaction(_)),
        message.msg is AcceptStopSign <==> res.msg matches Some(PsgMsg::AcceptStopSign(_)),
        message.msg is AcceptedStopSign <==> res.msg matches Some(PsgMsg::AcceptedStopSign(_)),
        message.msg is DecideStopSign <==> res.msg matches Some(PsgMsg::DecideSsSign(_)),
{
    Psg {
        from: message.from,
        to: message.to,
        msg: Some(
            match message.msg {
                PaxosMsg::PrepareReq => PsgMsg::Preparereq(PrepareReqObj {  }),
                PaxosMsg::Prepare(prepare) => PsgMsg::Prepare(Preparepr(prepare)),
                PaxosMsg::Promise(promise) => PsgMsg::Promise(Promispr(promise)),
                PaxosMsg::AcceptSync(accept_sync) => PsgMsg::AcceptSync(AcceptSyncpr(accept_sync)),
                PaxosMsg::FirstAccept(first_accept) => PsgMsg::FirstAccept(
                    FirstMessagepr(first_accept),
                ),
                PaxosMsg::AcceptDecide(accept_decide) => PsgMsg::AcceptDecide(
                    AcceptDecidepr(accept_decide),
                ),
                PaxosMsg::Accepted(accepted) => PsgMsg::Accepted(AcceptedPr(accepted)),
                PaxosMsg::Decide(decide) => PsgMsg::Decide(DecidePr(decide)),
                PaxosMsg::ProposalForward(proposals) => PsgMsg::Proposalforward(
                    ProposalForwardpr(proposals),
                ),
                PaxosMsg::Compaction(compaction) => PsgMsg::Compaction(Compactionpr(compaction)),
                PaxosMsg::ForwardCompaction(compaction) => PsgMsg::ForwardCompaction(
                    Compactionpr(compaction),
                ),
                PaxosMsg::AcceptStopSign(accept_stop_sign) => PsgMsg::AcceptStopSign(
                    AcceptStopSignPr(accept_stop_sign),
                ),
                PaxosMsg::AcceptedStopSign(accepted_stop_sign) => PsgMsg::AcceptedStopSign(
                    AcceptedSSpr(accepted_stop_sign),
                ),
                PaxosMsg::DecideStopSign(decide_stop_sign) => PsgMsg::DecideSsSign(
                    DecideSSpr(decide_stop_sign),
                ),
            },
        ),
    }
}

/// Converts a leader-election message to its wire form.
pub fn BleMessagepr(message: BLEMessage) -> (res: BleMessageObj)
    ensures
        res == encode_ble_message(message),
        res.from == message.from,
        res.to == message.to,
        message.msg matches HeartbeatMsg::Request(r) ==> res.msg matches Some(
            BleMsg::Heartbeatreq(o),
        ) && o.round == r.round,
        message.msg matches HeartbeatMsg::Reply(r) ==> res.msg matches Some(
            BleMsg::Heartbeatrep(o),
        ) && o.round == r.round && sent_ballot(r.ballot, o.ballot) && o.majority_connected
            == r.majority_connected,
{
    BleMessageObj {
        from: message.from,
        to: message.to,
        msg: Some(
            match message.msg {
                HeartbeatMsg::Request(request) => BleMsg::Heartbeatreq(HeartBeatRequestpr(request)),
                HeartbeatMsg::Reply(reply) => BleMsg::Heartbeatrep(HeartBeatReplypr(reply)),
            },
        ),
    }
}

/// Converts a ballot to its wire form.
pub fn ballotpr(ballot: Ballot) -> (res: BallotObj)
    ensures
        res == encode_ballot(ballot),
        same_ballot(ballot, res),
{
    BallotObj { n: ballot.n, priority: ballot.priority, pid: ballot.pid }
}

/// Converts `Prepare` to its wire form.
pub fn Preparepr(obj: Prepare) -> (res: PrepareObj)
    ensures
        res == encode_prepare(obj),
        sent_ballot(obj.n, res.n),
        sent_ballot(obj.n_accepted, res.n_accepted),
        res.ld == obj.ld,
        res.la == obj.la,
{
    PrepareObj {
        n: Some(ballotpr(obj.n)),
        ld: obj.ld,
        n_accepted: Some(ballotpr(obj.n_accepted)),
        la: obj.la,
    }
}

/// Converts a store command to its wire form.
pub fn StoreCommandpr(cmd: StoreCommand) -> (res: StoreCommandObj)
    ensures
        res@ == encode_command(cmd@),
        res.id == cmd.id,
        res.query@ == cmd.sql@,
{
    StoreCommandObj { id: cmd.id as u64, query: cmd.sql }
}

/// A copy of a store command.
fn copy_command(cmd: &StoreCommand) -> (res: StoreCommand)
    ensures
        res@ == cmd@,
{
    StoreCommand { id: cmd.id, sql: cmd.sql.clone() }
}

/// Converts a vector of store commands to wire commands, keeping their order.
fn commands_pr(cmds: Vec<StoreCommand>) -> (res: Vec<StoreCommandObj>)
    ensures
        command_objs_view(res@) == encode_commands(commands_view(cmds@)),
        res@.len() == cmds@.len(),
        forall|i: int| 0 <= i < cmds@.len() ==> #[trigger] res@[i].id == cmds@[i].id
            && res@[i].query@ == cmds@[i].sql@,
{
    let mut out: Vec<StoreCommandObj> = Vec::new();
    let len = cmds.len();
    for i in 0..len
        invariant
            len == cmds@.len(),
            out@.len() == i,
            forall|j: int| 0 <= j < i ==> (#[trigger] out@[j])@ == encode_command(cmds@[j]@),
    {
        out.push(StoreCommandpr(copy_command(&cmds[i])));
    }
    assert(command_objs_view(out@) =~= encode_commands(commands_view(cmds@)));
    out
}

/// Converts a sync item to its wire form.
pub fn SyncItempr(sync_item: SyncItem) -> (res: SyncItemObj)
    ensures
        res@ == encode_sync_item(sync_item@),
{
    SyncItemObj {
        inum: Some(
            match sync_item {
                SyncItem::Entries(vec) => SyncItemInum::E(EntriesObj { vec: commands_pr(vec) }),
                SyncItem::Snapshot(ss) => match ss {
                    SnapshotType::Complete => SyncItemInum::S(SNAPSHOT_COMPLETE),
                    SnapshotType::Delta => SyncItemInum::S(SNAPSHOT_DELTA),
                    SnapshotType::Phantom => SyncItemInum::S(SNAPSHOT_PHANTOM),
                },
                SyncItem::Empty => SyncItemInum::Empty(NoneObj {  }),
            },
        ),
    }
}

/// Widens each metadata byte to 32 bits, keeping their order.
fn metadata_pr(bytes: Vec<u8>) -> (res: Vec<u32>)
    ensures
        res@ == bytes@.map_values(|b: u8| b as u32),
{
    let mut out: Vec<u32> = Vec::new();
    let len = bytes.len();
    for i in 0..len
        invariant
            len == bytes@.len(),
            out@.len() == i,
            forall|j: int| 0 <= j < i ==> #[trigger] out@[j] == bytes@[j] as u32,
    {
        out.push(bytes[i] as u32);
    }
    assert(out@ =~= bytes@.map_values(|b: u8| b as u32));
    out
}

/// Converts a stop sign to its wire form.
pub fn SSpr(stop_sign: StopSign) -> (res: StopSignObj)
    ensures
        res@ == encode_stop_sign(stop_sign@),
        res.config_id == stop_sign.config_id,
        res.nodes@ == stop_sign.nodes@,
        stop_sign.metadata is None <==> res.metadata is None,
{
    StopSignObj {
        config_id: stop_sign.config_id,
        nodes: stop_sign.nodes,
        metadata: match stop_sign.metadata {
            Some(vec) => Some(MetadataObj { vec: metadata_pr(vec) }),
            None => None,
        },
    }
}

/// Converts `Promise` to its wire form.
pub fn Promispr(promise: Promise) -> (res: PromiseObj)
    ensures
        res@ == encode_promise(promise@),
        sent_ballot(promise.n, res.n),
        sent_ballot(promise.n_accepted, res.n_accepted),
        res.ld == promise.ld,
        res.la == promise.la,
        promise.sync_item is None <==> res.sync_item is None,
        promise.stopsign is None <==> res.stop_sign is None,
{
    PromiseObj {
        n: Some(ballotpr(promise.n)),
        n_accepted: Some(ballotpr(promise.n_accepted)),
        sync_item: match promise.sync_item {
            Some(s) => Some(SyncItempr(s)),
            None => None,
        },
        ld: promise.ld,
        la: promise.la,
        stop_sign: match promise.stopsign {
            Some(ss) => Some(SSpr(ss)),
            None => None,
        },
    }
}

/// Converts `AcceptSync` to its wire form.
pub fn AcceptSyncpr(accept_sync: AcceptSync) -> (res: AcceptSyncObj)
    ensures
        res@ == encode_accept_sync(accept_sync@),
        sent_ballot(accept_sync.n, res.n),
        res.sync_item is Some,
        res.sync_idx == accept_sync.sync_idx,
        res.decide_idx == accept_sync.decide_idx,
        accept_sync.stopsign is None <==> res.stop_sign is None,
{
    AcceptSyncObj {
        n: Some(ballotpr(accept_sync.n)),
        sync_item: Some(SyncItempr(accept_sync.sync_item)),
        sync_idx: accept_sync.sync_idx,
        decide_idx: accept_sync.decide_idx,
        stop_sign: match accept_sync.stopsign {
            Some(ss) => Some(SSpr(ss)),
            None => None,
        },
    }
}

/// Converts `FirstAccept` to its wire form.
pub fn FirstMessagepr(first_accept: FirstAccept) -> (res: FirstMessageObj)
    ensures
        res@ == encode_first_accept(first_accept@),
        sent_ballot(first_accept.n, res.n),
        res.e@.len() == first_accept.entries@.len(),
        forall|i: int| 0 <= i < res.e@.len() ==> #[trigger] res.e@[i].id
            == first_accept.entries@[i].id && res.e@[i].query@ == first_accept.entries@[i].sql@,
{
    FirstMessageObj { n: Some(ballotpr(first_accept.n)), e: commands_pr(first_accept.entries) }
}

/// Converts `AcceptDecide` to its wire form.
pub fn AcceptDecidepr(accept_decide: AcceptDecide) -> (res: AcceptDecideObj)
    ensures
        res@ == encode_accept_decide(accept_decide@),
        sent_ballot(accept_decide.n, res.n),
        res.ld == accept_decide.ld,
        res.e@.len() == accept_decide.entries@.len(),
        forall|i: int| 0 <= i < res.e@.len() ==> #[trigger] res.e@[i].id
            == accept_decide.entries@[i].id && res.e@[i].query@ == accept_decide.entries@[i].sql@,
{
    AcceptDecideObj {
        n: Some(ballotpr(accept_decide.n)),
        ld: accept_decide.ld,
        e: commands_pr(accept_decide.entries),
    }
}

/// Converts `Accepted` to its wire form.
pub fn AcceptedPr(accepted: Accepted) -> (res: AcceptedObj)
    ensures
        res == encode_accepted(accepted),
        sent_ballot(accepted.n, res.n),
        res.la == accepted.la,
{
    AcceptedObj { n: Some(ballotpr(accepted.n)), la: accepted.la }
}

/// Converts `Decide` to its wire form.
pub fn DecidePr(decide: Decide) -> (res: DecideObj)
    ensures
        res == encode_decide(decide),
        sent_ballot(decide.n, res.n),
        res.ld == decide.ld,
{
    DecideObj { n: Some(ballotpr(decide.n)), ld: decide.ld }
}

/// Converts forwarded proposals to their wire form.
pub fn ProposalForwardpr(proposals: Vec<StoreCommand>) -> (res: ProposalForwardObj)
    ensures
        res@ == encode_commands(commands_view(proposals@)),
        res.entries@.len() == proposals@.len(),
        forall|i: int| 0 <= i < proposals@.len() ==> #[trigger] res.entries@[i].id
            == proposals@[i].id && res.entries@[i].query@ == proposals@[i].sql@,
{
    ProposalForwardObj { entries: commands_pr(proposals) }
}

/// Converts a compaction to its wire form.
pub fn Compactionpr(compaction: Compaction) -> (res: CompactionObj)
    ensures
        res == encode_compaction(compaction),
        compaction matches Compaction::Trim(t) ==> res.compaction matches Some(
            CompactionKind::Trim(o),
        ) && o.trim == t,
        compaction matches Compaction::Snapshot(s) ==> res.compaction == Some(
            CompactionKind::Snapshot(s),
        ),
{
    CompactionObj {
        compaction: Some(
            match compaction {
                Compaction::Trim(trim) => CompactionKind::Trim(TrimObj { trim }),
                Compaction::Snapshot(ss) => CompactionKind::Snapshot(ss),
            },
        ),
    }
}

/// Converts `AcceptStopSign` to its wire form.
pub fn AcceptStopSignPr(accept_stop_sign: AcceptStopSign) -> (res: AcceptSsObj)
    ensures
        res@ == encode_accept_stop_sign(accept_stop_sign@),
        sent_ballot(accept_stop_sign.n, res.n),
        res.ss matches Some(ss) && ss.config_id == accept_stop_sign.ss.config_id
            && ss.nodes@ == accept_stop_sign.ss.nodes@,
{
    AcceptSsObj { n: Some(ballotpr(accept_stop_sign.n)), ss: Some(SSpr(accept_stop_sign.ss)) }
}

/// Converts `AcceptedStopSign` to its wire form.
pub fn AcceptedSSpr(accepted_stop_sign: AcceptedStopSign) -> (res: AcceptedSsObj)
    ensures
        res == encode_accepted_stop_sign(accepted_stop_sign),
        sent_ballot(accepted_stop_sign.n, res.n),
{
    AcceptedSsObj { n: Some(ballotpr(accepted_stop_sign.n)) }
}

/// Converts `DecideStopSign` to its wire form.
pub fn DecideSSpr(decide_stop_sign: DecideStopSign) -> (res: DecidedSsObj)
    ensures
        res == encode_decide_stop_sign(decide_stop_sign),
        sent_ballot(decide_stop_sign.n, res.n),
{
    DecidedSsObj { n: Some(ballotpr(decide_stop_sign.n)) }
}

/// Converts a heartbeat request to its wire form.
pub fn HeartBeatRequestpr(heartbeat_request: HeartbeatRequest) -> (res: HeartbeatRequestObj)
    ensures
        res == encode_heartbeat_request(heartbeat_request),
        res.round == heartbeat_request.round,
{
    HeartbeatRequestObj { round: heartbeat_request.round }
}

/// Converts a heartbeat reply to its wire form.
pub fn HeartBeatReplypr(heartbeat_reply: HeartbeatReply) -> (res: HeartbeatReplyObj)
    ensures
        res == encode_heartbeat_reply(heartbeat_reply),
        res.round == heartbeat_reply.round,
        sent_ballot(heartbeat_reply.ballot, res.ballot),
        res.majority_connected == heartbeat_reply.majority_connected,
{
    HeartbeatReplyObj {
        round: heartbeat_reply.round,
        ballot: Some(ballotpr(heartbeat_reply.ballot)),
        majority_connected: heartbeat_reply.majority_connected,
    }
}

} // verus!
