//! What each conversion keeps, field by field.
//!
//! These laws say, for every input, which field of the result holds which field
//! of the input, and that every message kind travels as the kind of the same
//! name. They are stated against the inputs directly, so they pin down the
//! `encode_*` / `decode_*` descriptions that the conversions' contracts use.
use vstd::prelude::*;
use crate::paxos::{
    SpecStoreCommand, Ballot, Prepare, SnapshotType, SpecSyncItem, SpecStopSign, SpecPromise,
    SpecAcceptSync, SpecFirstAccept, SpecAcceptDecide, Accepted, Decide, Compaction,
    SpecAcceptStopSign, AcceptedStopSign, DecideStopSign, SpecPaxosMsg, SpecMessage,
    HeartbeatRequest, HeartbeatReply, HeartbeatMsg, BLEMessage,
};
use crate::proto::{
    SpecStoreCommandObj, BallotObj, PrepareObj, SpecSyncItemInum, SpecSyncItemObj,
    SpecStopSignObj, SpecPromiseObj, SpecAcceptSyncObj, SpecFirstMessageObj, SpecAcceptDecideObj,
    AcceptedObj, DecideObj, CompactionKind, CompactionObj, SpecAcceptSsObj, AcceptedSsObj,
    DecidedSsObj, SpecPsgMsg, SpecPsg, HeartbeatRequestObj, HeartbeatReplyObj, BleMsg,
    BleMessageObj,
};
use crate::encode::{
    encode_ballot, encode_prepare, encode_command, encode_commands, encode_snapshot,
    encode_sync_item, encode_stop_sign, encode_promise, encode_accept_sync, encode_first_accept,
    encode_accept_decide, encode_accepted, encode_decide, encode_compaction,
    encode_accept_stop_sign, encode_accepted_stop_sign, encode_decide_stop_sign, encode_paxos_msg,
    encode_message, encode_heartbeat_request, encode_heartbeat_reply, encode_ble_message,
};
use crate::decode::{
    decode_ballot, decode_prepare, decode_command, decode_commands, decode_snapshot,
    decode_sync_item, decode_stop_sign, decode_promise, decode_accept_sync, decode_first_accept,
    decode_accept_decide, decode_accepted, decode_decide, decode_compaction,
    decode_accept_stop_sign, decode_accepted_stop_sign, decode_decide_stop_sign, decode_paxos_msg,
    decode_message, decode_heartbeat_request, decode_heartbeat_reply, decode_ble_message,
    complete_sync_item, complete_promise, complete_accept_sync, complete_accept_stop_sign,
    complete_psg_msg, complete_psg, complete_ble_message,
};

verus! {

// ---------------------------------------------------------------------------
// Relations between a value and its wire form, field by field
// ---------------------------------------------------------------------------

/// A wire ballot that holds the round, priority and proposer of a ballot.
pub open spec fn same_ballot(b: Ballot, o: BallotObj) -> bool {
    o.n == b.n && o.priority == b.priority && o.pid == b.pid
}

/// An optional wire ballot that is present and holds the ballot.
pub open spec fn sent_ballot(b: Ballot, o: Option<BallotObj>) -> bool {
    o matches Some(ob) && same_ballot(b, ob)
}

/// Wire commands, one per command and in the same order, with the same id and text.
pub open spec fn same_commands(c: Seq<SpecStoreCommand>, o: Seq<SpecStoreCommandObj>) -> bool {
    &&& o.len() == c.len()
    &&& forall|i: int| 0 <= i < c.len() ==> #[trigger] o[i].id == c[i].id && o[i].query == c[i].sql
}

/// Wire metadata that holds the same numbers as the bytes, in the same order.
pub open spec fn same_metadata(m: Seq<u8>, w: Seq<u32>) -> bool {
    &&& w.len() == m.len()
    &&& forall|i: int| 0 <= i < m.len() ==> #[trigger] w[i] as int == m[i] as int
}

// ---------------------------------------------------------------------------
// Encoding
// ---------------------------------------------------------------------------

/// A ballot is sent with its round, priority and proposer in the fields of those names.
pub proof fn law_encode_ballot(b: Ballot)
    ensures
        encode_ballot(b).n == b.n,
        encode_ballot(b).priority == b.priority,
        encode_ballot(b).pid == b.pid,
{
}

/// `Prepare` is sent with both ballots and its decided and accepted indices in place.
pub proof fn law_encode_prepare(p: Prepare)
    ensures
        sent_ballot(p.n, encode_prepare(p).n),
        sent_ballot(p.n_accepted, encode_prepare(p).n_accepted),
        encode_prepare(p).ld == p.ld,
        encode_prepare(p).la == p.la,
{
}

/// A command is sent with its id and its SQL text.
pub proof fn law_encode_command(c: SpecStoreCommand)
    ensures
        encode_command(c).id == c.id,
        encode_command(c).query == c.sql,
{
}

/// Commands are sent one for one, in order.
pub proof fn law_encode_commands(s: Seq<SpecStoreCommand>)
    ensures
        same_commands(s, encode_commands(s)),
{
}

/// Each snapshot kind has its own wire number.
pub proof fn law_encode_snapshot()
    ensures
        encode_snapshot(SnapshotType::Complete) == 0,
        encode_snapshot(SnapshotType::Delta) == 1,
        encode_snapshot(SnapshotType::Phantom) == 2,
{
}

/// A sync item is sent as the alternative of its kind, with its entries or snapshot kind.
pub proof fn law_encode_sync_item(s: SpecSyncItem)
    ensures
        s matches SpecSyncItem::Entries(v) ==> encode_sync_item(s).inum matches Some(
            SpecSyncItemInum::E(w),
        ) && same_commands(v, w),
        s matches SpecSyncItem::Snapshot(t) ==> encode_sync_item(s).inum == Some(
            SpecSyncItemInum::S(encode_snapshot(t)),
        ),
        s is Empty ==> encode_sync_item(s).inum == Some(SpecSyncItemInum::Empty),
{
}

/// A stop sign is sent with its configuration, its nodes and its metadata bytes.
pub proof fn law_encode_stop_sign(s: SpecStopSign)
    ensures
        encode_stop_sign(s).config_id == s.config_id,
        encode_stop_sign(s).nodes == s.nodes,
        s.metadata is None <==> encode_stop_sign(s).metadata is None,
        s.metadata matches Some(m) ==> encode_stop_sign(s).metadata matches Some(w)
            && same_metadata(m, w),
{
}

/// `Promise` is sent with both ballots, its decided index in `ld`, its accepted
/// index in `la`, and its sync item and stop sign where it has them.
pub proof fn law_encode_promise(p: SpecPromise)
    ensures
        sent_ballot(p.n, encode_promise(p).n),
        sent_ballot(p.n_accepted, encode_promise(p).n_accepted),
        encode_promise(p).ld == p.ld,
        encode_promise(p).la == p.la,
        p.sync_item is None <==> encode_promise(p).sync_item is None,
        p.sync_item matches Some(s) ==> encode_promise(p).sync_item == Some(encode_sync_item(s)),
        p.stopsign is None <==> encode_promise(p).stop_sign is None,
        p.stopsign matches Some(s) ==> encode_promise(p).stop_sign == Some(encode_stop_sign(s)),
{
}

/// `AcceptSync` is sent with its ballot, sync item, indices and stop sign.
pub proof fn law_encode_accept_sync(a: SpecAcceptSync)
    ensures
        sent_ballot(a.n, encode_accept_sync(a).n),
        encode_accept_sync(a).sync_item == Some(encode_sync_item(a.sync_item)),
        encode_accept_sync(a).sync_idx == a.sync_idx,
        encode_accept_sync(a).decide_idx == a.decide_idx,
        a.stopsign is None <==> encode_accept_sync(a).stop_sign is None,
        a.stopsign matches Some(s) ==> encode_accept_sync(a).stop_sign == Some(encode_stop_sign(s)),
{
}

/// `FirstAccept` is sent with its ballot and its entries in order.
pub proof fn law_encode_first_accept(f: SpecFirstAccept)
    ensures
        sent_ballot(f.n, encode_first_accept(f).n),
        same_commands(f.entries, encode_first_accept(f).e),
{
}

/// `AcceptDecide` is sent with its ballot, decided index and entries in order.
pub proof fn law_encode_accept_decide(a: SpecAcceptDecide)
    ensures
        sent_ballot(a.n, encode_accept_decide(a).n),
        encode_accept_decide(a).ld == a.ld,
        same_commands(a.entries, encode_accept_decide(a).e),
{
}

/// `Accepted`, `Decide`, `AcceptedStopSign` and `DecideStopSign` keep their ballot and index.
pub proof fn law_encode_acks(a: Accepted, d: Decide, s: AcceptedStopSign, t: DecideStopSign)
    ensures
        sent_ballot(a.n, encode_accepted(a).n),
        encode_accepted(a).la == a.la,
        sent_ballot(d.n, encode_decide(d).n),
        encode_decide(d).ld == d.ld,
        sent_ballot(s.n, encode_accepted_stop_sign(s).n),
        sent_ballot(t.n, encode_decide_stop_sign(t).n),
{
}

/// A compaction is sent as the alternative of its kind with its index.
pub proof fn law_encode_compaction(c: Compaction)
    ensures
        c matches Compaction::Trim(t) ==> encode_compaction(c).compaction matches Some(
            CompactionKind::Trim(o),
        ) && o.trim == t,
        c matches Compaction::Snapshot(s) ==> encode_compaction(c).compaction == Some(
            CompactionKind::Snapshot(s),
        ),
{
}

/// `AcceptStopSign` is sent with its ballot and stop sign.
pub proof fn law_encode_accept_stop_sign(a: SpecAcceptStopSign)
    ensures
        sent_ballot(a.n, encode_accept_stop_sign(a).n),
        encode_accept_stop_sign(a).ss == Some(encode_stop_sign(a.ss)),
{
}

/// Every sequence-paxos message kind is sent as the wire alternative of the same
/// name, holding that kind's wire form.
pub proof fn law_encode_paxos_msg_kind(m: SpecPaxosMsg)
    ensures
        m is PrepareReq <==> encode_paxos_msg(m) is Preparereq,
        m is Prepare <==> encode_paxos_msg(m) is Prepare,
        m is Promise <==> encode_paxos_msg(m) is Promise,
        m is AcceptSync <==> encode_paxos_msg(m) is AcceptSync,
        m is FirstAccept <==> encode_paxos_msg(m) is FirstAccept,
        m is AcceptDecide <==> encode_paxos_msg(m) is AcceptDecide,
        m is Accepted <==> encode_paxos_msg(m) is Accepted,
        m is Decide <==> encode_paxos_msg(m) is Decide,
        m is ProposalForward <==> encode_paxos_msg(m) is Proposalforward,
        m is Compaction <==> encode_paxos_msg(m) is Compaction,
        m is ForwardCompaction <==> encode_paxos_msg(m) is ForwardCompaction,
        m is AcceptStopSign <==> encode_paxos_msg(m) is AcceptStopSign,
        m is AcceptedStopSign <==> encode_paxos_msg(m) is AcceptedStopSign,
        m is DecideStopSign <==> encode_paxos_msg(m) is DecideSsSign,
        m matches SpecPaxosMsg::Prepare(p) ==> encode_paxos_msg(m) == SpecPsgMsg::Prepare(
            encode_prepare(p),
        ),
        m matches SpecPaxosMsg::Promise(p) ==> encode_paxos_msg(m) == SpecPsgMsg::Promise(
            encode_promise(p),
        ),
        m matches SpecPaxosMsg::AcceptSync(a) ==> encode_paxos_msg(m) == SpecPsgMsg::AcceptSync(
            encode_accept_sync(a),
        ),
        m matches SpecPaxosMsg::FirstAccept(f) ==> encode_paxos_msg(m) == SpecPsgMsg::FirstAccept(
            encode_first_accept(f),
        ),
        m matches SpecPaxosMsg::AcceptDecide(a) ==> encode_paxos_msg(m)
            == SpecPsgMsg::AcceptDecide(encode_accept_decide(a)),
        m matches SpecPaxosMsg::Accepted(a) ==> encode_paxos_msg(m) == SpecPsgMsg::Accepted(
            encode_accepted(a),
        ),
        m matches SpecPaxosMsg::Decide(d) ==> encode_paxos_msg(m) == SpecPsgMsg::Decide(
            encode_decide(d),
        ),
        m matches SpecPaxosMsg::ProposalForward(v) ==> encode_paxos_msg(m)
            == SpecPsgMsg::Proposalforward(encode_commands(v)),
        m matches SpecPaxosMsg::Compaction(c) ==> encode_paxos_msg(m) == SpecPsgMsg::Compaction(
            encode_compaction(c),
        ),
        m matches SpecPaxosMsg::ForwardCompaction(c) ==> encode_paxos_msg(m)
            == SpecPsgMsg::ForwardCompaction(encode_compaction(c)),
        m matches SpecPaxosMsg::AcceptStopSign(a) ==> encode_paxos_msg(m)
            == SpecPsgMsg::AcceptStopSign(encode_accept_stop_sign(a)),
        m matches SpecPaxosMsg::AcceptedStopSign(a) ==> encode_paxos_msg(m)
            == SpecPsgMsg::AcceptedStopSign(encode_accepted_stop_sign(a)),
        m matches SpecPaxosMsg::DecideStopSign(d) ==> encode_paxos_msg(m)
            == SpecPsgMsg::DecideSsSign(encode_decide_stop_sign(d)),
{
}

/// A sequence-paxos message is sent with its sender, receiver and body.
pub proof fn law_encode_message(m: SpecMessage)
    ensures
        encode_message(m).from == m.from,
        encode_message(m).to == m.to,
        encode_message(m).msg == Some(encode_paxos_msg(m.msg)),
{
}

/// A leader-election message is sent with its sender and receiver, as a request
/// or reply as it is, with its round, ballot and connectivity.
pub proof fn law_encode_ble_message(m: BLEMessage)
    ensures
        encode_ble_message(m).from == m.from,
        encode_ble_message(m).to == m.to,
        m.msg matches HeartbeatMsg::Request(r) ==> encode_ble_message(m).msg matches Some(
            BleMsg::Heartbeatreq(o),
        ) && o.round == r.round,
        m.msg matches HeartbeatMsg::Reply(r) ==> encode_ble_message(m).msg matches Some(
            BleMsg::Heartbeatrep(o),
        ) && o.round == r.round && sent_ballot(r.ballot, o.ballot) && o.majority_connected
            == r.majority_connected,
{
}

/// A heartbeat reply is sent with its round, ballot and connectivity.
pub proof fn law_encode_heartbeat(q: HeartbeatRequest, r: HeartbeatReply)
    ensures
        encode_heartbeat_request(q).round == q.round,
        encode_heartbeat_reply(r).round == r.round,
        sent_ballot(r.ballot, encode_heartbeat_reply(r).ballot),
        encode_heartbeat_reply(r).majority_connected == r.majority_connected,
{
}

// ---------------------------------------------------------------------------
// Decoding
// ---------------------------------------------------------------------------

/// A wire ballot is received with its round, priority and proposer in place.
pub proof fn law_decode_ballot(o: BallotObj)
    ensures
        same_ballot(decode_ballot(o), o),
{
}

/// A complete wire `Prepare` is received with both ballots and indices in place.
pub proof fn law_decode_prepare(p: PrepareObj)
    requires
        p.n is Some && p.n_accepted is Some,
    ensures
        sent_ballot(decode_prepare(p).n, p.n),
        sent_ballot(decode_prepare(p).n_accepted, p.n_accepted),
        decode_prepare(p).ld == p.ld,
        decode_prepare(p).la == p.la,
{
}

/// A wire command is received with its id, cut to a machine word, and its SQL text.
pub proof fn law_decode_command(o: SpecStoreCommandObj)
    ensures
        decode_command(o).id == o.id as usize,
        decode_command(o).sql == o.query,
{
}

/// Wire commands are received one for one, in order.
pub proof fn law_decode_commands(s: Seq<SpecStoreCommandObj>)
    ensures
        decode_commands(s).len() == s.len(),
        forall|i: int| 0 <= i < s.len() ==> #[trigger] decode_commands(s)[i].id == s[i].id as usize
            && decode_commands(s)[i].sql == s[i].query,
{
}

/// Each known wire number names its own snapshot kind.
pub proof fn law_decode_snapshot()
    ensures
        decode_snapshot(0) == SnapshotType::Complete,
        decode_snapshot(1) == SnapshotType::Delta,
        decode_snapshot(2) == SnapshotType::Phantom,
{
}

/// A complete wire sync item is received as the item of its kind.
pub proof fn law_decode_sync_item(s: SpecSyncItemObj)
    requires
        complete_sync_item(s),
    ensures
        s.inum matches Some(SpecSyncItemInum::E(w)) ==> decode_sync_item(s) == SpecSyncItem::Entries(
            decode_commands(w),
        ),
        s.inum matches Some(SpecSyncItemInum::S(t)) ==> decode_sync_item(s)
            == SpecSyncItem::Snapshot(decode_snapshot(t)),
        s.inum == Some(SpecSyncItemInum::Empty) ==> decode_sync_item(s) is Empty,
{
}

/// A wire stop sign is received with its configuration, nodes and the low byte of
/// each metadata number.
pub proof fn law_decode_stop_sign(s: SpecStopSignObj)
    ensures
        decode_stop_sign(s).config_id == s.config_id,
        decode_stop_sign(s).nodes == s.nodes,
        s.metadata is None <==> decode_stop_sign(s).metadata is None,
        s.metadata matches Some(w) ==> decode_stop_sign(s).metadata matches Some(m) && m.len()
            == w.len() && forall|i: int| 0 <= i < w.len() ==> #[trigger] m[i] == w[i] as u8,
{
}

/// A complete wire `Promise` is received with both ballots, `ld` as its decided
/// index, `la` as its accepted index, and its sync item and stop sign.
pub proof fn law_decode_promise(p: SpecPromiseObj)
    requires
        complete_promise(p),
    ensures
        sent_ballot(decode_promise(p).n, p.n),
        sent_ballot(decode_promise(p).n_accepted, p.n_accepted),
        decode_promise(p).ld == p.ld,
        decode_promise(p).la == p.la,
        p.sync_item is None <==> decode_promise(p).sync_item is None,
        p.sync_item matches Some(s) ==> decode_promise(p).sync_item == Some(decode_sync_item(s)),
        p.stop_sign is None <==> decode_promise(p).stopsign is None,
        p.stop_sign matches Some(s) ==> decode_promise(p).stopsign == Some(decode_stop_sign(s)),
{
}

/// A complete wire `AcceptSync` is received with its ballot, sync item, indices and stop sign.
pub proof fn law_decode_accept_sync(a: SpecAcceptSyncObj)
    requires
        complete_accept_sync(a),
    ensures
        sent_ballot(decode_accept_sync(a).n, a.n),
        decode_accept_sync(a).sync_item == decode_sync_item(a.sync_item.unwrap()),
        decode_accept_sync(a).sync_idx == a.sync_idx,
        decode_accept_sync(a).decide_idx == a.decide_idx,
        a.stop_sign is None <==> decode_accept_sync(a).stopsign is None,
        a.stop_sign matches Some(s) ==> decode_accept_sync(a).stopsign == Some(decode_stop_sign(s)),
{
}

/// Complete wire `FirstAccept` and `AcceptDecide` are received with their ballot,
/// index and entries in order.
pub proof fn law_decode_accepts(f: SpecFirstMessageObj, a: SpecAcceptDecideObj)
    requires
        f.n is Some,
        a.n is Some,
    ensures
        sent_ballot(decode_first_accept(f).n, f.n),
        decode_first_accept(f).entries == decode_commands(f.e),
        sent_ballot(decode_accept_decide(a).n, a.n),
        decode_accept_decide(a).ld == a.ld,
        decode_accept_decide(a).entries == decode_commands(a.e),
{
}

/// Complete wire `Accepted`, `Decide`, `AcceptedStopSign` and `DecideStopSign` are
/// received with their ballot and index.
pub proof fn law_decode_acks(a: AcceptedObj, d: DecideObj, s: AcceptedSsObj, t: DecidedSsObj)
    requires
        a.n is Some,
        d.n is Some,
        s.n is Some,
        t.n is Some,
    ensures
        sent_ballot(decode_accepted(a).n, a.n),
        decode_accepted(a).la == a.la,
        sent_ballot(decode_decide(d).n, d.n),
        decode_decide(d).ld == d.ld,
        sent_ballot(decode_accepted_stop_sign(s).n, s.n),
        sent_ballot(decode_decide_stop_sign(t).n, t.n),
{
}

/// A complete wire compaction is received as the compaction of its kind.
pub proof fn law_decode_compaction(c: CompactionObj)
    requires
        c.compaction is Some,
    ensures
        c.compaction matches Some(CompactionKind::Trim(o)) ==> decode_compaction(c)
            == Compaction::Trim(o.trim),
        c.compaction matches Some(CompactionKind::Snapshot(s)) ==> decode_compaction(c)
            == Compaction::Snapshot(s),
{
}

/// A complete wire `AcceptStopSign` is received with its ballot and stop sign.
pub proof fn law_decode_accept_stop_sign(a: SpecAcceptSsObj)
    requires
        complete_accept_stop_sign(a),
    ensures
        sent_ballot(decode_accept_stop_sign(a).n, a.n),
        decode_accept_stop_sign(a).ss == decode_stop_sign(a.ss.unwrap()),
{
}

/// Every complete wire body is received as the message kind of the same name,
/// holding what that kind's wire form stands for.
pub proof fn law_decode_paxos_msg_kind(m: SpecPsgMsg)
    requires
        complete_psg_msg(m),
    ensures
        m is Preparereq <==> decode_paxos_msg(m) is PrepareReq,
        m is Prepare <==> decode_paxos_msg(m) is Prepare,
        m is Promise <==> decode_paxos_msg(m) is Promise,
        m is AcceptSync <==> decode_paxos_msg(m) is AcceptSync,
        m is FirstAccept <==> decode_paxos_msg(m) is FirstAccept,
        m is AcceptDecide <==> decode_paxos_msg(m) is AcceptDecide,
        m is Accepted <==> decode_paxos_msg(m) is Accepted,
        m is Decide <==> decode_paxos_msg(m) is Decide,
        m is Proposalforward <==> decode_paxos_msg(m) is ProposalForward,
        m is Compaction <==> decode_paxos_msg(m) is Compaction,
        m is ForwardCompaction <==> decode_paxos_msg(m) is ForwardCompaction,
        m is AcceptStopSign <==> decode_paxos_msg(m) is AcceptStopSign,
        m is AcceptedStopSign <==> decode_paxos_msg(m) is AcceptedStopSign,
        m is DecideSsSign <==> decode_paxos_msg(m) is DecideStopSign,
        m matches SpecPsgMsg::Prepare(p) ==> decode_paxos_msg(m) == SpecPaxosMsg::Prepare(
            decode_prepare(p),
        ),
        m matches SpecPsgMsg::Promise(p) ==> decode_paxos_msg(m) == SpecPaxosMsg::Promise(
            decode_promise(p),
        ),
        m matches SpecPsgMsg::AcceptSync(a) ==> decode_paxos_msg(m) == SpecPaxosMsg::AcceptSync(
            decode_accept_sync(a),
        ),
        m matches SpecPsgMsg::FirstAccept(f) ==> decode_paxos_msg(m) == SpecPaxosMsg::FirstAccept(
            decode_first_accept(f),
        ),
        m matches SpecPsgMsg::AcceptDecide(a) ==> decode_paxos_msg(m)
            == SpecPaxosMsg::AcceptDecide(decode_accept_decide(a)),
        m matches SpecPsgMsg::Accepted(a) ==> decode_paxos_msg(m) == SpecPaxosMsg::Accepted(
            decode_accepted(a),
        ),
        m matches SpecPsgMsg::Decide(d) ==> decode_paxos_msg(m) == SpecPaxosMsg::Decide(
            decode_decide(d),
        ),
        m matches SpecPsgMsg::Proposalforward(v) ==> decode_paxos_msg(m)
            == SpecPaxosMsg::ProposalForward(decode_commands(v)),
        m matches SpecPsgMsg::Compaction(c) ==> decode_paxos_msg(m) == SpecPaxosMsg::Compaction(
            decode_compaction(c),
        ),
        m matches SpecPsgMsg::ForwardCompaction(c) ==> decode_paxos_msg(m)
            == SpecPaxosMsg::ForwardCompaction(decode_compaction(c)),
        m matches SpecPsgMsg::AcceptStopSign(a) ==> decode_paxos_msg(m)
            == SpecPaxosMsg::AcceptStopSign(decode_accept_stop_sign(a)),
        m matches SpecPsgMsg::AcceptedStopSign(a) ==> decode_paxos_msg(m)
            == SpecPaxosMsg::AcceptedStopSign(decode_accepted_stop_sign(a)),
        m matches SpecPsgMsg::DecideSsSign(d) ==> decode_paxos_msg(m)
            == SpecPaxosMsg::DecideStopSign(decode_decide_stop_sign(d)),
{
}

/// A complete wire sequence-paxos message is received with its sender, receiver and body.
pub proof fn law_decode_message(o: SpecPsg)
    requires
        complete_psg(o),
    ensures
        decode_message(o).from == o.from,
        decode_message(o).to == o.to,
        decode_message(o).msg == decode_paxos_msg(o.msg.unwrap()),
{
}

/// A complete wire leader-election message is received with its sender and
/// receiver, as a request or reply as it is, with its round, ballot and connectivity.
pub proof fn law_decode_ble_message(o: BleMessageObj)
    requires
        complete_ble_message(o),
    ensures
        decode_ble_message(o).from == o.from,
        decode_ble_message(o).to == o.to,
        o.msg matches Some(BleMsg::Heartbeatreq(r)) ==> decode_ble_message(o).msg matches HeartbeatMsg::Request(q)
            && q.round == r.round,
        o.msg matches Some(BleMsg::Heartbeatrep(r)) ==> decode_ble_message(o).msg matches HeartbeatMsg::Reply(q)
            && q.round == r.round && sent_ballot(q.ballot, r.ballot) && q.majority_connected
            == r.majority_connected,
{
}

/// Heartbeats are received with their round, ballot and connectivity.
pub proof fn law_decode_heartbeat(q: HeartbeatRequestObj, r: HeartbeatReplyObj)
    requires
        r.ballot is Some,
    ensures
        decode_heartbeat_request(q).round == q.round,
        decode_heartbeat_reply(r).round == r.round,
        sent_ballot(decode_heartbeat_reply(r).ballot, r.ballot),
        decode_heartbeat_reply(r).majority_connected == r.majority_connected,
{
}

} // verus!
