//! From wire messages to consensus messages.
//!
//! A wire message may leave out fields that a consensus message needs. The
//! `complete_*` spec functions say when every needed field is there; the
//! conversions require it, and `psg_is_complete` / `ble_message_is_complete`
//! decide it for a received message. Each `decode_*` spec function says what
//! consensus value a complete wire value stands for.
use vstd::prelude::*;
use crate::paxos::{
    StoreCommand, SpecStoreCommand, commands_view, Ballot, Prepare, SnapshotType, SyncItem,
    SpecSyncItem, StopSign, SpecStopSign, Promise, SpecPromise, AcceptSync, SpecAcceptSync,
    FirstAccept, SpecFirstAccept, AcceptDecide, SpecAcceptDecide, Accepted, Decide, Compaction,
    AcceptStopSign, SpecAcceptStopSign, AcceptedStopSign, DecideStopSign, PaxosMsg, SpecPaxosMsg,
    Message, SpecMessage, HeartbeatRequest, HeartbeatReply, HeartbeatMsg, BLEMessage,
};
use crate::fields::{same_ballot, sent_ballot};
use crate::proto::{
    StoreCommandObj, SpecStoreCommandObj, command_objs_view, BallotObj, PrepareObj,
    SyncItemInum, SpecSyncItemInum, SyncItemObj, SpecSyncItemObj, StopSignObj, SpecStopSignObj,
    PromiseObj, SpecPromiseObj, AcceptSyncObj, SpecAcceptSyncObj, FirstMessageObj,
    SpecFirstMessageObj, AcceptDecideObj, SpecAcceptDecideObj, AcceptedObj, DecideObj,
    ProposalForwardObj, CompactionKind, CompactionObj, AcceptSsObj, SpecAcceptSsObj,
    AcceptedSsObj, DecidedSsObj, PsgMsg, SpecPsgMsg, Psg, SpecPsg, HeartbeatRequestObj,
    HeartbeatReplyObj, BleMsg, BleMessageObj, SNAPSHOT_COMPLETE, SNAPSHOT_DELTA,
    SNAPSHOT_PHANTOM,
};

verus! {

// ---------------------------------------------------------------------------
// When a wire message is complete
// ---------------------------------------------------------------------------

/// A wire number that names a snapshot kind.
pub open spec fn known_snapshot(t: i32) -> bool {
    t == SNAPSHOT_COMPLETE || t == SNAPSHOT_DELTA || t == SNAPSHOT_PHANTOM
}

/// A wire sync item with its alternative present and, for a snapshot, a known kind.
pub open spec fn complete_sync_item(s: SpecSyncItemObj) -> bool {
    match s.inum {
        Some(SpecSyncItemInum::S(t)) => known_snapshot(t),
        Some(_) => true,
        None => false,
    }
}

/// A wire `Prepare` with both ballots.
pub open spec fn complete_prepare(p: PrepareObj) -> bool {
    p.n is Some && p.n_accepted is Some
}

/// A wire `Promise` with both ballots and, where it has a sync item, a complete one.
pub open spec fn complete_promise(p: SpecPromiseObj) -> bool {
    &&& p.n is Some
    &&& p.n_accepted is Some
    &&& (p.sync_item matches Some(s) ==> complete_sync_item(s))
}

/// A wire `AcceptSync` with its ballot and a complete sync item.
pub open spec fn complete_accept_sync(a: SpecAcceptSyncObj) -> bool {
    &&& a.n is Some
    &&& a.sync_item matches Some(s) && complete_sync_item(s)
}

/// A wire `AcceptStopSign` with its ballot and stop sign.
pub open spec fn complete_accept_stop_sign(a: SpecAcceptSsObj) -> bool {
    a.n is Some && a.ss is Some
}

/// A wire sequence-paxos body with every field that its kind needs.
pub open spec fn complete_psg_msg(m: SpecPsgMsg) -> bool {
    match m {
        SpecPsgMsg::Preparereq => true,
        SpecPsgMsg::Prepare(p) => complete_prepare(p),
        SpecPsgMsg::Promise(p) => complete_promise(p),
        SpecPsgMsg::AcceptSync(a) => complete_accept_sync(a),
        SpecPsgMsg::FirstAccept(f) => f.n is Some,
        SpecPsgMsg::AcceptDecide(a) => a.n is Some,
        SpecPsgMsg::Accepted(a) => a.n is Some,
        SpecPsgMsg::Decide(d) => d.n is Some,
        SpecPsgMsg::Proposalforward(_) => true,
        SpecPsgMsg::Compaction(c) => c.compaction is Some,
        SpecPsgMsg::ForwardCompaction(c) => c.compaction is Some,
        SpecPsgMsg::AcceptStopSign(a) => complete_accept_stop_sign(a),
        SpecPsgMsg::AcceptedStopSign(a) => a.n is Some,
        SpecPsgMsg::DecideSsSign(d) => d.n is Some,
    }
}

/// A wire sequence-paxos message with a complete body.
pub open spec fn complete_psg(o: SpecPsg) -> bool {
    o.msg matches Some(m) && complete_psg_msg(m)
}

/// A wire leader-election message with its body and, for a reply, its ballot.
pub open spec fn complete_ble_message(o: BleMessageObj) -> bool {
    match o.msg {
        Some(BleMsg::Heartbeatreq(_)) => true,
        Some(BleMsg::Heartbeatrep(r)) => r.ballot is Some,
        None => false,
    }
}

// ---------------------------------------------------------------------------
// What a complete wire value stands for
// ---------------------------------------------------------------------------

/// The ballot that a wire ballot stands for: the same three numbers.
pub open spec fn decode_ballot(b: BallotObj) -> Ballot {
    Ballot { n: b.n, priority: b.priority, pid: b.pid }
}

/// The `Prepare` that a complete wire `Prepare` stands for.
pub open spec fn decode_prepare(p: PrepareObj) -> Prepare {
    Prepare {
        n: decode_ballot(p.n.unwrap()),
        ld: p.ld,
        n_accepted: decode_ballot(p.n_accepted.unwrap()),
        la: p.la,
    }
}

/// The store command that a wire command stands for: the identifier cut to the
/// machine's word size, the SQL text kept.
pub open spec fn decode_command(o: SpecStoreCommandObj) -> SpecStoreCommand {
    SpecStoreCommand { id: o.id as usize, sql: o.query }
}

/// The commands that a sequence of wire commands stands for, in the same order.
pub open spec fn decode_commands(s: Seq<SpecStoreCommandObj>) -> Seq<SpecStoreCommand> {
    s.map_values(|o: SpecStoreCommandObj| decode_command(o))
}

/// The snapshot kind that a known wire number names.
pub open spec fn decode_snapshot(t: i32) -> SnapshotType {
    if t == SNAPSHOT_COMPLETE {
        SnapshotType::Complete
    } else if t == SNAPSHOT_DELTA {
        SnapshotType::Delta
    } else {
        SnapshotType::Phantom
    }
}

/// The sync item that a complete wire sync item stands for.
pub open spec fn decode_sync_item(s: SpecSyncItemObj) -> SpecSyncItem {
    match s.inum.unwrap() {
        SpecSyncItemInum::E(v) => SpecSyncItem::Entries(decode_commands(v)),
        SpecSyncItemInum::S(t) => SpecSyncItem::Snapshot(decode_snapshot(t)),
        SpecSyncItemInum::Empty => SpecSyncItem::Empty,
    }
}

/// The stop sign that a wire stop sign stands for: each metadata number cut to its low byte.
pub open spec fn decode_stop_sign(s: SpecStopSignObj) -> SpecStopSign {
    SpecStopSign {
        config_id: s.config_id,
        nodes: s.nodes,
        metadata: match s.metadata {
            Some(m) => Some(m.map_values(|x: u32| x as u8)),
            None => None,
        },
    }
}

/// The optional stop sign that an optional wire stop sign stands for.
pub open spec fn decode_opt_stop_sign(s: Option<SpecStopSignObj>) -> Option<SpecStopSign> {
    match s {
        Some(ss) => Some(decode_stop_sign(ss)),
        None => None,
    }
}

/// The `Promise` that a complete wire `Promise` stands for.
pub open spec fn decode_promise(p: SpecPromiseObj) -> SpecPromise {
    SpecPromise {
        n: decode_ballot(p.n.unwrap()),
        n_accepted: decode_ballot(p.n_accepted.unwrap()),
        sync_item: match p.sync_item {
            Some(s) => Some(decode_sync_item(s)),
            None => None,
        },
        ld: p.ld,
        la: p.la,
        stopsign: decode_opt_stop_sign(p.stop_sign),
    }
}

/// The `AcceptSync` that a complete wire `AcceptSync` stands for.
pub open spec fn decode_accept_sync(a: SpecAcceptSyncObj) -> SpecAcceptSync {
    SpecAcceptSync {
        n: decode_ballot(a.n.unwrap()),
        sync_item: decode_sync_item(a.sync_item.unwrap()),
        sync_idx: a.sync_idx,
        decide_idx: a.decide_idx,
        stopsign: decode_opt_stop_sign(a.stop_sign),
    }
}

/// The `FirstAccept` that a complete wire one stands for.
pub open spec fn decode_first_accept(f: SpecFirstMessageObj) -> SpecFirstAccept {
    SpecFirstAccept { n: decode_ballot(f.n.unwrap()), entries: decode_commands(f.e) }
}

/// The `AcceptDecide` that a complete wire one stands for.
pub open spec fn decode_accept_decide(a: SpecAcceptDecideObj) -> SpecAcceptDecide {
    SpecAcceptDecide { n: decode_ballot(a.n.unwrap()), ld: a.ld, entries: decode_commands(a.e) }
}

/// The `Accepted` that a complete wire one stands for.
pub open spec fn decode_accepted(a: AcceptedObj) -> Accepted {
    Accepted { n: decode_ballot(a.n.unwrap()), la: a.la }
}

/// The `Decide` that a complete wire one stands for.
pub open spec fn decode_decide(d: DecideObj) -> Decide {
    Decide { n: decode_ballot(d.n.unwrap()), ld: d.ld }
}

/// The compaction that a complete wire compaction stands for.
pub open spec fn decode_compaction(c: CompactionObj) -> Compaction {
    match c.compaction.unwrap() {
        CompactionKind::Trim(t) => Compaction::Trim(t.trim),
        CompactionKind::Snapshot(s) => Compaction::Snapshot(s),
    }
}

/// The `AcceptStopSign` that a complete wire one stands for.
pub open spec fn decode_accept_stop_sign(a: SpecAcceptSsObj) -> SpecAcceptStopSign {
    SpecAcceptStopSign { n: decode_ballot(a.n.unwrap()), ss: decode_stop_sign(a.ss.unwrap()) }
}

/// The `AcceptedStopSign` that a complete wire one stands for.
pub open spec fn decode_accepted_stop_sign(a: AcceptedSsObj) -> AcceptedStopSign {
    AcceptedStopSign { n: decode_ballot(a.n.unwrap()) }
}

/// The `DecideStopSign` that a complete wire one stands for.
pub open spec fn decode_decide_stop_sign(d: DecidedSsObj) -> DecideStopSign {
    DecideStopSign { n: decode_ballot(d.n.unwrap()) }
}

/// The sequence-paxos body that a complete wire body stands for: the kind of the same name.
pub open spec fn decode_paxos_msg(m: SpecPsgMsg) -> SpecPaxosMsg {
    match m {
        SpecPsgMsg::Preparereq => SpecPaxosMsg::PrepareReq,
        SpecPsgMsg::Prepare(p) => SpecPaxosMsg::Prepare(decode_prepare(p)),
        SpecPsgMsg::Promise(p) => SpecPaxosMsg::Promise(decode_promise(p)),
        SpecPsgMsg::AcceptSync(a) => SpecPaxosMsg::AcceptSync(decode_accept_sync(a)),
        SpecPsgMsg::FirstAccept(f) => SpecPaxosMsg::FirstAccept(decode_first_accept(f)),
        SpecPsgMsg::AcceptDecide(a) => SpecPaxosMsg::AcceptDecide(decode_accept_decide(a)),
        SpecPsgMsg::Accepted(a) => SpecPaxosMsg::Accepted(decode_accepted(a)),
        SpecPsgMsg::Decide(d) => SpecPaxosMsg::Decide(decode_decide(d)),
        SpecPsgMsg::Proposalforward(v) => SpecPaxosMsg::ProposalForward(decode_commands(v)),
        SpecPsgMsg::Compaction(c) => SpecPaxosMsg::Compaction(decode_compaction(c)),
        SpecPsgMsg::ForwardCompaction(c) => SpecPaxosMsg::ForwardCompaction(decode_compaction(c)),
        SpecPsgMsg::AcceptStopSign(a) => SpecPaxosMsg::AcceptStopSign(decode_accept_stop_sign(a)),
        SpecPsgMsg::AcceptedStopSign(a) => SpecPaxosMsg::AcceptedStopSign(
            decode_accepted_stop_sign(a),
        ),
        SpecPsgMsg::DecideSsSign(d) => SpecPaxosMsg::DecideStopSign(decode_decide_stop_sign(d)),
    }
}

/// The sequence-paxos message that a complete wire message stands for.
pub open spec fn decode_message(o: SpecPsg) -> SpecMessage {
    SpecMessage { from: o.from, to: o.to, msg: decode_paxos_msg(o.msg.unwrap()) }
}

/// The heartbeat request that a wire request stands for.
pub open spec fn decode_heartbeat_request(r: HeartbeatRequestObj) -> HeartbeatRequest {
    HeartbeatRequest { round: r.round }
}

/// The heartbeat reply that a complete wire reply stands for.
pub open spec fn decode_heartbeat_reply(r: HeartbeatReplyObj) -> HeartbeatReply {
    HeartbeatReply {
        round: r.round,
        ballot: decode_ballot(r.ballot.unwrap()),
        majority_connected: r.majority_connected,
    }
}

/// The leader-election message that a complete wire message stands for.
pub open spec fn decode_ble_message(o: BleMessageObj) -> BLEMessage {
    BLEMessage {
        from: o.from,
        to: o.to,
        msg: match o.msg.unwrap() {
            BleMsg::Heartbeatreq(r) => HeartbeatMsg::Request(decode_heartbeat_request(r)),
            BleMsg::Heartbeatrep(r) => HeartbeatMsg::Reply(decode_heartbeat_reply(r)),
        },
    }
}

// ---------------------------------------------------------------------------
// Deciding completeness
// ---------------------------------------------------------------------------

/// The snapshot kind that a wire number names, if it names one.
pub fn snapshot_from_wire(t: i32) -> (res: Option<SnapshotType>)
    ensures
        res is Some <==> known_snapshot(t),
        res is Some ==> res.unwrap() == decode_snapshot(t),
{
    if t == SNAPSHOT_COMPLETE {
        Some(SnapshotType::Complete)
    } else if t == SNAPSHOT_DELTA {
        Some(SnapshotType::Delta)
    } else if t == SNAPSHOT_PHANTOM {
        Some(SnapshotType::Phantom)
    } else {
        None
    }
}

/// Whether a wire sync item is complete.
fn sync_item_is_complete(s: &SyncItemObj) -> (res: bool)
    ensures
        res == complete_sync_item(s@),
{
    match &s.inum {
        Some(SyncItemInum::S(t)) => snapshot_from_wire(*t).is_some(),
        Some(_) => true,
        None => false,
    }
}

/// Whether a wire sequence-paxos message has every field that its conversion needs.
pub fn psg_is_complete(obj: &Psg) -> (res: bool)
    ensures
        res == complete_psg(obj@),
{
    match &obj.msg {
        None => false,
        Some(m) => match m {
            PsgMsg::Preparereq(_) => true,
            PsgMsg::Prepare(p) => p.n.is_some() && p.n_accepted.is_some(),
            PsgMsg::Promise(p) => p.n.is_some() && p.n_accepted.is_some() && match &p.sync_item {
                Some(s) => sync_item_is_complete(s),
                None => true,
            },
            PsgMsg::AcceptSync(a) => a.n.is_some() && match &a.sync_item {
                Some(s) => sync_item_is_complete(s),
                None => false,
            },
            PsgMsg::FirstAccept(f) => f.n.is_some(),
            PsgMsg::AcceptDecide(a) => a.n.is_some(),
            PsgMsg::Accepted(a) => a.n.is_some(),
            PsgMsg::Decide(d) => d.n.is_some(),
            PsgMsg::Proposalforward(_) => true,
            PsgMsg::Compaction(c) => c.compaction.is_some(),
            PsgMsg::ForwardCompaction(c) => c.compaction.is_some(),
            PsgMsg::AcceptStopSign(a) => a.n.is_some() && a.ss.is_some(),
            PsgMsg::AcceptedStopSign(a) => a.n.is_some(),
            PsgMsg::DecideSsSign(d) => d.n.is_some(),
        },
    }
}

/// Whether a wire leader-election message has every field that its conversion needs.
pub fn ble_message_is_complete(obj: &BleMessageObj) -> (res: bool)
    ensures
        res == complete_ble_message(*obj),
{
    match &obj.msg {
        Some(BleMsg::Heartbeatreq(_)) => true,
        Some(BleMsg::Heartbeatrep(r)) => r.ballot.is_some(),
        None => false,
    }
}

// ---------------------------------------------------------------------------
// The conversions
// ---------------------------------------------------------------------------

/// Converts a complete wire sequence-paxos message to the message it stands for.
pub fn RPCtoSeqPaxos(obj: Psg) -> (res: Message)
    requires
        complete_psg(obj@),
    ensures
        res@ == decode_message(obj@),
        res.from == obj.from,
        res.to == obj.to,
        res.msg is PrepareReq <==> obj.msg matches Some(PsgMsg::Preparereq(_)),
        res.msg is Prepare <==> obj.msg matches Some(PsgMsg::Prepare(_)),
        res.msg is Promise <==> obj.msg matches Some(PsgMsg::Promise(_)),
        res.msg is AcceptSync <==> obj.msg matches Some(PsgMsg::AcceptSync(_)),
        res.msg is FirstAccept <==> obj.msg matches Some(PsgMsg::FirstAccept(_)),
        res.msg is AcceptDecide <==> obj.msg matches Some(PsgMsg::AcceptDecide(_)),
        res.msg is Accepted <==> obj.msg matches Some(PsgMsg::Accepted(_)),
        res.msg is Decide <==> obj.msg matches Some(PsgMsg::Decide(_)),
        res.msg is ProposalForward <==> obj.msg matches Some(PsgMsg::Proposalforward(_)),
        res.msg is Compaction <==> obj.msg matches Some(PsgMsg::Compaction(_)),
        res.msg is ForwardCompaction <==> obj.msg matches Some(PsgMsg::ForwardCompaction(_)),
        res.msg is AcceptStopSign <==> obj.msg matches Some(PsgMsg::AcceptStopSign(_)),
        res.msg is AcceptedStopSign <==> obj.msg matches Some(PsgMsg::AcceptedStopSign(_)),
        res.msg is DecideStopSign <==> obj.msg matches Some(PsgMsg::DecideSsSign(_)),
{
    Message {
        from: obj.from,
        to: obj.to,
        msg: match obj.msg.unwrap() {
            PsgMsg::Preparereq(_) => PaxosMsg::PrepareReq,
            PsgMsg::Prepare(prepare) => PaxosMsg::Prepare(PrepareSP(prepare)),
            PsgMsg::Promise(promise) => PaxosMsg::Promise(Promisesp(promise)),
            PsgMsg::AcceptSync(accept_sync) => PaxosMsg::AcceptSync(AcceptSyncsp(accept_sync)),
            PsgMsg::FirstAccept(first_accept) => PaxosMsg::FirstAccept(
                FirstMessagesp(first_accept),
            ),
            PsgMsg::AcceptDecide(accept_decide) => PaxosMsg::AcceptDecide(
                AcceptDecidesp(accept_decide),
            ),
            PsgMsg::Accepted(accepted) => PaxosMsg::Accepted(Acceptedsp(accepted)),
            PsgMsg::Decide(decide) => PaxosMsg::Decide(Decidesp(decide)),
            PsgMsg::Proposalforward(proposals) => PaxosMsg::ProposalForward(
                ProposalForwardsp(proposals),
            ),
            PsgMsg::Compaction(compaction) => PaxosMsg::Compaction(Compactionsp(compaction)),
            PsgMsg::ForwardCompaction(compaction) => PaxosMsg::ForwardCompaction(
                Compactionsp(compaction),
            ),
            PsgMsg::AcceptStopSign(accept_stop_sign) => PaxosMsg::AcceptStopSign(
                AcceptSSsp(accept_stop_sign),
            ),
            PsgMsg::AcceptedStopSign(accepted_stop_sign) => PaxosMsg::AcceptedStopSign(
                AcceptedSSsp(accepted_stop_sign),
            ),
            PsgMsg::DecideSsSign(decide_stop_sign) => PaxosMsg::DecideStopSign(
                DecideSSsp(decide_stop_sign),
            ),
        },
    }
}

/// Converts a complete wire leader-election message to the message it stands for.
pub fn blemessageSP(obj: BleMessageObj) -> (res: BLEMessage)
    requires
        complete_ble_message(obj),
    ensures
        res == decode_ble_message(obj),
        res.from == obj.from,
        res.to == obj.to,
        obj.msg matches Some(BleMsg::Heartbeatreq(r)) ==> res.msg matches HeartbeatMsg::Request(q)
            && q.round == r.round,
        obj.msg matches Some(BleMsg::Heartbeatrep(r)) ==> res.msg matches HeartbeatMsg::Reply(q)
            && q.round == r.round && sent_ballot(q.ballot, r.ballot) && q.majority_connected
            == r.majority_connected,
{
    BLEMessage {
        from: obj.from,
        to: obj.to,
        msg: match obj.msg.unwrap() {
            BleMsg::Heartbeatreq(request) => HeartbeatMsg::Request(HeartbeatRequestsp(request)),
            BleMsg::Heartbeatrep(reply) => HeartbeatMsg::Reply(HeartBeatReplysp(reply)),
        },
    }
}

/// Converts a wire ballot to a ballot.
pub fn ballotsp(obj: BallotObj) -> (res: Ballot)
    ensures
        res == decode_ballot(obj),
        same_ballot(res, obj),
{
    Ballot { n: obj.n, priority: obj.priority, pid: obj.pid }
}

/// Converts a complete wire `Prepare`.
pub fn PrepareSP(obj: PrepareObj) -> (res: Prepare)
    requires
        complete_prepare(obj),
    ensures
        res == decode_prepare(obj),
        sent_ballot(res.n, obj.n),
        sent_ballot(res.n_accepted, obj.n_accepted),
        res.ld == obj.ld,
        res.la == obj.la,
{
    Prepare {
        n: ballotsp(obj.n.unwrap()),
        ld: obj.ld,
        n_accepted: ballotsp(obj.n_accepted.unwrap()),
        la: obj.la,
    }
}

/// Converts a wire command to a store command.
pub fn StoreCommandSP(obj: StoreCommandObj) -> (res: StoreCommand)
    ensures
        res@ == decode_command(obj@),
        res.id == obj.id as usize,
        res.sql@ == obj.query@,
{
    StoreCommand { id: obj.id as usize, sql: obj.query }
}

/// A copy of a wire command.
fn copy_command_obj(obj: &StoreCommandObj) -> (res: StoreCommandObj)
    ensures
        res@ == obj@,
{
    StoreCommandObj { id: obj.id, query: obj.query.clone() }
}

/// Converts a vector of wire commands to store commands, keeping their order.
fn commands_sp(objs: Vec<StoreCommandObj>) -> (res: Vec<StoreCommand>)
    ensures
        commands_view(res@) == decode_commands(command_objs_view(objs@)),
        res@.len() == objs@.len(),
        forall|i: int| 0 <= i < objs@.len() ==> #[trigger] res@[i].id == objs@[i].id as usize
            && res@[i].sql@ == objs@[i].query@,
{
    let mut out: Vec<StoreCommand> = Vec::new();
    let len = objs.len();
    for i in 0..len
        invariant
            len == objs@.len(),
            out@.len() == i,
            forall|j: int| 0 <= j < i ==> (#[trigger] out@[j])@ == decode_command(objs@[j]@),
    {
        out.push(StoreCommandSP(copy_command_obj(&objs[i])));
    }
    assert(commands_view(out@) =~= decode_commands(command_objs_view(objs@)));
    out
}

/// Converts a complete wire sync item.
pub fn SyncItemSP(obj: SyncItemObj) -> (res: SyncItem)
    requires
        complete_sync_item(obj@),
    ensures
        res@ == decode_sync_item(obj@),
{
    match obj.inum.unwrap() {
        SyncItemInum::E(entries) => SyncItem::Entries(commands_sp(entries.vec)),
        SyncItemInum::S(ss) => match snapshot_from_wire(ss) {
            Some(t) => SyncItem::Snapshot(t),
            None => unreached(),
        },
        SyncItemInum::Empty(_) => SyncItem::Empty,
    }
}

/// Cuts each metadata number to its low byte, keeping their order.
fn metadata_sp(values: Vec<u32>) -> (res: Vec<u8>)
    ensures
        res@ == values@.map_values(|x: u32| x as u8),
{
    let mut out: Vec<u8> = Vec::new();
    let len = values.len();
    for i in 0..len
        invariant
            len == values@.len(),
            out@.len() == i,
            forall|j: int| 0 <= j < i ==> #[trigger] out@[j] == values@[j] as u8,
    {
        out.push(values[i] as u8);
    }
    assert(out@ =~= values@.map_values(|x: u32| x as u8));
    out
}

/// Converts a wire stop sign.
pub fn SSsp(obj: StopSignObj) -> (res: StopSign)
    ensures
        res@ == decode_stop_sign(obj@),
        res.config_id == obj.config_id,
        res.nodes@ == obj.nodes@,
        obj.metadata is None <==> res.metadata is None,
{
    StopSign {
        config_id: obj.config_id,
        nodes: obj.nodes,
        metadata: match obj.metadata {
            Some(md) => Some(metadata_sp(md.vec)),
            None => None,
        },
    }
}

/// Converts a complete wire `Promise`.
pub fn Promisesp(obj: PromiseObj) -> (res: Promise)
    requires
        complete_promise(obj@),
    ensures
        res@ == decode_promise(obj@),
        sent_ballot(res.n, obj.n),
        sent_ballot(res.n_accepted, obj.n_accepted),
        res.ld == obj.ld,
        res.la == obj.la,
        obj.sync_item is None <==> res.sync_item is None,
        obj.stop_sign is None <==> res.stopsign is None,
{
    Promise {
        n: ballotsp(obj.n.unwrap()),
        n_accepted: ballotsp(obj.n_accepted.unwrap()),
        sync_item: match obj.sync_item {
            Some(s) => Some(SyncItemSP(s)),
            None => None,
        },
        ld: obj.ld,
        la: obj.la,
        stopsign: match obj.stop_sign {
            Some(ss) => Some(SSsp(ss)),
            None => None,
        },
    }
}

/// Converts a complete wire `AcceptSync`.
pub fn AcceptSyncsp(obj: AcceptSyncObj) -> (res: AcceptSync)
    requires
        complete_accept_sync(obj@),
    ensures
        res@ == decode_accept_sync(obj@),
        sent_ballot(res.n, obj.n),
        res.sync_idx == obj.sync_idx,
        res.decide_idx == obj.decide_idx,
        obj.stop_sign is None <==> res.stopsign is None,
{
    AcceptSync {
        n: ballotsp(obj.n.unwrap()),
        sync_item: SyncItemSP(obj.sync_item.unwrap()),
        sync_idx: obj.sync_idx,
        decide_idx: obj.decide_idx,
        stopsign: match obj.stop_sign {
            Some(ss) => Some(SSsp(ss)),
            None => None,
        },
    }
}

/// Converts a complete wire `FirstAccept`.
pub fn FirstMessagesp(obj: FirstMessageObj) -> (res: FirstAccept)
    requires
        obj.n is Some,
    ensures
        res@ == decode_first_accept(obj@),
        sent_ballot(res.n, obj.n),
        res.entries@.len() == obj.e@.len(),
        forall|i: int| 0 <= i < obj.e@.len() ==> #[trigger] res.entries@[i].id == obj.e@[i].id as usize
            && res.entries@[i].sql@ == obj.e@[i].query@,
{
    FirstAccept { n: ballotsp(obj.n.unwrap()), entries: commands_sp(obj.e) }
}

/// Converts a complete wire `AcceptDecide`.
pub fn AcceptDecidesp(obj: AcceptDecideObj) -> (res: AcceptDecide)
    requires
        obj.n is Some,
    ensures
        res@ == decode_accept_decide(obj@),
        sent_ballot(res.n, obj.n),
        res.ld == obj.ld,
        res.entries@.len() == obj.e@.len(),
        forall|i: int| 0 <= i < obj.e@.len() ==> #[trigger] res.entries@[i].id == obj.e@[i].id as usize
            && res.entries@[i].sql@ == obj.e@[i].query@,
{
    AcceptDecide { n: ballotsp(obj.n.unwrap()), ld: obj.ld, entries: commands_sp(obj.e) }
}

/// Converts a complete wire `Accepted`.
pub fn Acceptedsp(obj: AcceptedObj) -> (res: Accepted)
    requires
        obj.n is Some,
    ensures
        res == decode_accepted(obj),
        sent_ballot(res.n, obj.n),
        res.la == obj.la,
{
    Accepted { n: ballotsp(obj.n.unwrap()), la: obj.la }
}

/// Converts a complete wire `Decide`.
pub fn Decidesp(obj: DecideObj) -> (res: Decide)
    requires
        obj.n is Some,
    ensures
        res == decode_decide(obj),
        sent_ballot(res.n, obj.n),
        res.ld == obj.ld,
{
    Decide { n: ballotsp(obj.n.unwrap()), ld: obj.ld }
}

/// Converts wire forwarded proposals to store commands.
pub fn ProposalForwardsp(obj: ProposalForwardObj) -> (res: Vec<StoreCommand>)
    ensures
        commands_view(res@) == decode_commands(obj@),
        res@.len() == obj.entries@.len(),
        forall|i: int| 0 <= i < obj.entries@.len() ==> #[trigger] res@[i].id
            == obj.entries@[i].id as usize && res@[i].sql@ == obj.entries@[i].query@,
{
    commands_sp(obj.entries)
}

/// Converts a complete wire compaction.
pub fn Compactionsp(obj: CompactionObj) -> (res: Compaction)
    requires
        obj.compaction is Some,
    ensures
        res == decode_compaction(obj),
        obj.compaction matches Some(CompactionKind::Trim(t)) ==> res == Compaction::Trim(t.trim),
        obj.compaction matches Some(CompactionKind::Snapshot(s)) ==> res == Compaction::Snapshot(s),
{
    match obj.compaction.unwrap() {
        CompactionKind::Trim(trim) => Compaction::Trim(trim.trim),
        CompactionKind::Snapshot(ss) => Compaction::Snapshot(ss),
    }
}

/// Converts a complete wire `AcceptStopSign`.
pub fn AcceptSSsp(obj: AcceptSsObj) -> (res: AcceptStopSign)
    requires
        complete_accept_stop_sign(obj@),
    ensures
        res@ == decode_accept_stop_sign(obj@),
        sent_ballot(res.n, obj.n),
        res.ss.config_id == obj.ss.unwrap().config_id,
        res.ss.nodes@ == obj.ss.unwrap().nodes@,
{
    AcceptStopSign { n: ballotsp(obj.n.unwrap()), ss: SSsp(obj.ss.unwrap()) }
}

/// Converts a complete wire `AcceptedStopSign`.
pub fn AcceptedSSsp(obj: AcceptedSsObj) -> (res: AcceptedStopSign)
    requires
        obj.n is Some,
    ensures
        res == decode_accepted_stop_sign(obj),
        sent_ballot(res.n, obj.n),
{
    AcceptedStopSign { n: ballotsp(obj.n.unwrap()) }
}

/// Converts a complete wire `DecideStopSign`.
pub fn DecideSSsp(obj: DecidedSsObj) -> (res: DecideStopSign)
    requires
        obj.n is Some,
    ensures
        res == decode_decide_stop_sign(obj),
        sent_ballot(res.n, obj.n),
{
    DecideStopSign { n: ballotsp(obj.n.unwrap()) }
}

/// Converts a wire heartbeat request.
pub fn HeartbeatRequestsp(obj: HeartbeatRequestObj) -> (res: HeartbeatRequest)
    ensures
        res == decode_heartbeat_request(obj),
        res.round == obj.round,
{
    HeartbeatRequest { round: obj.round }
}

/// Converts a complete wire heartbeat reply.
pub fn HeartBeatReplysp(obj: HeartbeatReplyObj) -> (res: HeartbeatReply)
    requires
        obj.ballot is Some,
    ensures
        res == decode_heartbeat_reply(obj),
        res.round == obj.round,
        sent_ballot(res.ballot, obj.ballot),
        res.majority_connected == obj.majority_connected,
{
    HeartbeatReply {
        round: obj.round,
        ballot: ballotsp(obj.ballot.unwrap()),
        majority_connected: obj.majority_connected,
    }
}

} // verus!
