//! The messages of the RPC wire format.
//!
//! Message-typed fields of the wire format are optional, as the wire format
//! lets a sender leave them out; a `oneof` is an optional enum. Types that
//! hold vectors or strings have a view of the same shape over sequences.
use vstd::prelude::*;

verus! {

/// Wire number of a complete snapshot.
pub const SNAPSHOT_COMPLETE: i32 = 0;
/// Wire number of a delta snapshot.
pub const SNAPSHOT_DELTA: i32 = 1;
/// Wire number of a phantom snapshot.
pub const SNAPSHOT_PHANTOM: i32 = 2;

/// A store command on the wire.
#[derive(Debug, PartialEq, Eq)]
pub struct StoreCommandObj {
    pub id: u64,
    pub query: String,
}

/// Mathematical value of a `StoreCommandObj`.
pub struct SpecStoreCommandObj {
    pub id: u64,
    pub query: Seq<char>,
}

impl View for StoreCommandObj {
    type V = SpecStoreCommandObj;

    open spec fn view(&self) -> SpecStoreCommandObj {
        SpecStoreCommandObj { id: self.id, query: self.query@ }
    }
}

/// The view of a vector of wire commands.
pub open spec fn command_objs_view(v: Seq<StoreCommandObj>) -> Seq<SpecStoreCommandObj> {
    v.map_values(|c: StoreCommandObj| c@)
}

/// A ballot on the wire.
#[derive(Clone, Copy, PartialEq, Eq, Structural, Debug)]
pub struct BallotObj {
    pub n: u32,
    pub priority: u64,
    pub pid: u64,
}

/// The empty body of a prepare request.
#[derive(Clone, Copy, PartialEq, Eq, Structural, Debug)]
pub struct PrepareReqObj {}

/// `Prepare` on the wire.
#[derive(Clone, Copy, PartialEq, Eq, Structural, Debug)]
pub struct PrepareObj {
    pub n: Option<BallotObj>,
    pub ld: u64,
    pub n_accepted: Option<BallotObj>,
    pub la: u64,
}

/// The entries of a sync item on the wire.
#[derive(Debug, PartialEq, Eq)]
pub struct EntriesObj {
    pub vec: Vec<StoreCommandObj>,
}

/// The empty body of an empty sync item.
#[derive(Clone, Copy, PartialEq, Eq, Structural, Debug)]
pub struct NoneObj {}

/// The alternatives of a sync item on the wire; a snapshot is sent as its wire number.
#[derive(Debug, PartialEq, Eq)]
pub enum SyncItemInum {
    E(EntriesObj),
    S(i32),
    Empty(NoneObj),
}

/// Mathematical value of a `SyncItemInum`.
pub enum SpecSyncItemInum {
    E(Seq<SpecStoreCommandObj>),
    S(i32),
    Empty,
}

impl View for SyncItemInum {
    type V = SpecSyncItemInum;

    open spec fn view(&self) -> SpecSyncItemInum {
        match self {
            SyncItemInum::E(e) => SpecSyncItemInum::E(command_objs_view(e.vec@)),
            SyncItemInum::S(s) => SpecSyncItemInum::S(*s),
            SyncItemInum::Empty(_) => SpecSyncItemInum::Empty,
        }
    }
}

/// A sync item on the wire.
#[derive(Debug, PartialEq, Eq)]
pub struct SyncItemObj {
    pub inum: Option<SyncItemInum>,
}

/// Mathematical value of a `SyncItemObj`.
pub struct SpecSyncItemObj {
    pub inum: Option<SpecSyncItemInum>,
}

impl View for SyncItemObj {
    type V = SpecSyncItemObj;

    open spec fn view(&self) -> SpecSyncItemObj {
        SpecSyncItemObj {
            inum: match &self.inum {
                Some(i) => Some(i@),
                None => None,
            },
        }
    }
}

/// The view of an optional wire sync item.
pub open spec fn opt_sync_item_obj_view(s: Option<SyncItemObj>) -> Option<SpecSyncItemObj> {
    match s {
        Some(i) => Some(i@),
        None => None,
    }
}

/// The metadata of a stop sign on the wire, one 32-bit number per byte.
#[derive(Debug, PartialEq, Eq)]
pub struct MetadataObj {
    pub vec: Vec<u32>,
}

/// A stop sign on the wire.
#[derive(Debug, PartialEq, Eq)]
pub struct StopSignObj {
    pub config_id: u32,
    pub nodes: Vec<u64>,
    pub metadata: Option<MetadataObj>,
}

/// Mathematical value of a `StopSignObj`.
pub struct SpecStopSignObj {
    pub config_id: u32,
    pub nodes: Seq<u64>,
    pub metadata: Option<Seq<u32>>,
}

impl View for StopSignObj {
    type V = SpecStopSignObj;

    open spec fn view(&self) -> SpecStopSignObj {
        SpecStopSignObj {
            config_id: self.config_id,
            nodes: self.nodes@,
            metadata: match &self.metadata {
                Some(m) => Some(m.vec@),
                None => None,
            },
        }
    }
}

/// The view of an optional wire stop sign.
pub open spec fn opt_stop_sign_obj_view(s: Option<StopSignObj>) -> Option<SpecStopSignObj> {
    match s {
        Some(ss) => Some(ss@),
        None => None,
    }
}

/// `Promise` on the wire.
#[derive(Debug, PartialEq, Eq)]
pub struct PromiseObj {
    pub n: Option<BallotObj>,
    pub n_accepted: Option<BallotObj>,
    pub sync_item: Option<SyncItemObj>,
    pub ld: u64,
    pub la: u64,
    pub stop_sign: Option<StopSignObj>,
}

/// Mathematical value of a `PromiseObj`.
pub struct SpecPromiseObj {
    pub n: Option<BallotObj>,
    pub n_accepted: Option<BallotObj>,
    pub sync_item: Option<SpecSyncItemObj>,
    pub ld: u64,
    pub la: u64,
    pub stop_sign: Option<SpecStopSignObj>,
}

impl View for PromiseObj {
    type V = SpecPromiseObj;

    open spec fn view(&self) -> SpecPromiseObj {
        SpecPromiseObj {
            n: self.n,
            n_accepted: self.n_accepted,
            sync_item: opt_sync_item_obj_view(self.sync_item),
            ld: self.ld,
            la: self.la,
            stop_sign: opt_stop_sign_obj_view(self.stop_sign),
        }
    }
}

/// `AcceptSync` on the wire.
#[derive(Debug, PartialEq, Eq)]
pub struct AcceptSyncObj {
    pub n: Option<BallotObj>,
    pub sync_item: Option<SyncItemObj>,
    pub sync_idx: u64,
    pub decide_idx: Option<u64>,
    pub stop_sign: Option<StopSignObj>,
}

/// Mathematical value of an `AcceptSyncObj`.
pub struct SpecAcceptSyncObj {
    pub n: Option<BallotObj>,
    pub sync_item: Option<SpecSyncItemObj>,
    pub sync_idx: u64,
    pub decide_idx: Option<u64>,
    pub stop_sign: Option<SpecStopSignObj>,
}

impl View for AcceptSyncObj {
    type V = SpecAcceptSyncObj;

    open spec fn view(&self) -> SpecAcceptSyncObj {
        SpecAcceptSyncObj {
            n: self.n,
            sync_item: opt_sync_item_obj_view(self.sync_item),
            sync_idx: self.sync_idx,
            decide_idx: self.decide_idx,
            stop_sign: opt_stop_sign_obj_view(self.stop_sign),
        }
    }
}

/// `FirstAccept` on the wire.
#[derive(Debug, PartialEq, Eq)]
pub struct FirstMessageObj {
    pub n: Option<BallotObj>,
    pub e: Vec<StoreCommandObj>,
}

/// Mathematical value of a `FirstMessageObj`.
pub struct SpecFirstMessageObj {
    pub n: Option<BallotObj>,
    pub e: Seq<SpecStoreCommandObj>,
}

impl View for FirstMessageObj {
    type V = SpecFirstMessageObj;

    open spec fn view(&self) -> SpecFirstMessageObj {
        SpecFirstMessageObj { n: self.n, e: command_objs_view(self.e@) }
    }
}

/// `AcceptDecide` on the wire.
#[derive(Debug, PartialEq, Eq)]
pub struct AcceptDecideObj {
    pub n: Option<BallotObj>,
    pub ld: u64,
    pub e: Vec<StoreCommandObj>,
}

/// Mathematical value of an `AcceptDecideObj`.
pub struct SpecAcceptDecideObj {
    pub n: Option<BallotObj>,
    pub ld: u64,
    pub e: Seq<SpecStoreCommandObj>,
}

impl View for AcceptDecideObj {
    type V = SpecAcceptDecideObj;

    open spec fn view(&self) -> SpecAcceptDecideObj {
        SpecAcceptDecideObj { n: self.n, ld: self.ld, e: command_objs_view(self.e@) }
    }
}

/// `Accepted` on the wire.
#[derive(Clone, Copy, PartialEq, Eq, Structural, Debug)]
pub struct AcceptedObj {
    pub n: Option<BallotObj>,
    pub la: u64,
}

/// `Decide` on the wire.
#[derive(Clone, Copy, PartialEq, Eq, Structural, Debug)]
pub struct DecideObj {
    pub n: Option<BallotObj>,
    pub ld: u64,
}

/// Forwarded proposals on the wire.
#[derive(Debug, PartialEq, Eq)]
pub struct ProposalForwardObj {
    pub entries: Vec<StoreCommandObj>,
}

impl View for ProposalForwardObj {
    type V = Seq<SpecStoreCommandObj>;

    open spec fn view(&self) -> Seq<SpecStoreCommandObj> {
        command_objs_view(self.entries@)
    }
}

/// A trim request on the wire.
#[derive(Clone, Copy, PartialEq, Eq, Structural, Debug)]
pub struct TrimObj {
    pub trim: Option<u64>,
}

/// The alternatives of a compaction on the wire.
#[derive(Clone, Copy, PartialEq, Eq, Structural, Debug)]
pub enum CompactionKind {
    Trim(TrimObj),
    Snapshot(u64),
}

/// A compaction on the wire.
#[derive(Clone, Copy, PartialEq, Eq, Structural, Debug)]
pub struct CompactionObj {
    pub compaction: Option<CompactionKind>,
}

/// `AcceptStopSign` on the wire.
#[derive(Debug, PartialEq, Eq)]
pub struct AcceptSsObj {
    pub n: Option<BallotObj>,
    pub ss: Option<StopSignObj>,
}

/// Mathematical value of an `AcceptSsObj`.
pub struct SpecAcceptSsObj {
    pub n: Option<BallotObj>,
    pub ss: Option<SpecStopSignObj>,
}

impl View for AcceptSsObj {
    type V = SpecAcceptSsObj;

    open spec fn view(&self) -> SpecAcceptSsObj {
        SpecAcceptSsObj { n: self.n, ss: opt_stop_sign_obj_view(self.ss) }
    }
}

/// `AcceptedStopSign` on the wire.
#[derive(Clone, Copy, PartialEq, Eq, Structural, Debug)]
pub struct AcceptedSsObj {
    pub n: Option<BallotObj>,
}

/// `DecideStopSign` on the wire.
#[derive(Clone, Copy, PartialEq, Eq, Structural, Debug)]
pub struct DecidedSsObj {
    pub n: Option<BallotObj>,
}

/// The alternatives of a sequence-paxos message on the wire.
#[derive(Debug, PartialEq, Eq)]
pub enum PsgMsg {
    Preparereq(PrepareReqObj),
    Prepare(PrepareObj),
    Promise(PromiseObj),
    AcceptSync(AcceptSyncObj),
    FirstAccept(FirstMessageObj),
    AcceptDecide(AcceptDecideObj),
    Accepted(AcceptedObj),
    Decide(DecideObj),
    Proposalforward(ProposalForwardObj),
    Compaction(CompactionObj),
    ForwardCompaction(CompactionObj),
    AcceptStopSign(AcceptSsObj),
    AcceptedStopSign(AcceptedSsObj),
    DecideSsSign(DecidedSsObj),
}

/// Mathematical value of a `PsgMsg`.
pub enum SpecPsgMsg {
    Preparereq,
    Prepare(PrepareObj),
    Promise(SpecPromiseObj),
    AcceptSync(SpecAcceptSyncObj),
    FirstAccept(SpecFirstMessageObj),
    AcceptDecide(SpecAcceptDecideObj),
    Accepted(AcceptedObj),
    Decide(DecideObj),
    Proposalforward(Seq<SpecStoreCommandObj>),
    Compaction(CompactionObj),
    ForwardCompaction(CompactionObj),
    AcceptStopSign(SpecAcceptSsObj),
    AcceptedStopSign(AcceptedSsObj),
    DecideSsSign(DecidedSsObj),
}

impl View for PsgMsg {
    type V = SpecPsgMsg;

    open spec fn view(&self) -> SpecPsgMsg {
        match self {
            PsgMsg::Preparereq(_) => SpecPsgMsg::Preparereq,
            PsgMsg::Prepare(p) => SpecPsgMsg::Prepare(*p),
            PsgMsg::Promise(p) => SpecPsgMsg::Promise(p@),
            PsgMsg::AcceptSync(a) => SpecPsgMsg::AcceptSync(a@),
            PsgMsg::FirstAccept(f) => SpecPsgMsg::FirstAccept(f@),
            PsgMsg::AcceptDecide(a) => SpecPsgMsg::AcceptDecide(a@),
            PsgMsg::Accepted(a) => SpecPsgMsg::Accepted(*a),
            PsgMsg::Decide(d) => SpecPsgMsg::Decide(*d),
            PsgMsg::Proposalforward(p) => SpecPsgMsg::Proposalforward(p@),
            PsgMsg::Compaction(c) => SpecPsgMsg::Compaction(*c),
            PsgMsg::ForwardCompaction(c) => SpecPsgMsg::ForwardCompaction(*c),
            PsgMsg::AcceptStopSign(a) => SpecPsgMsg::AcceptStopSign(a@),
            PsgMsg::AcceptedStopSign(a) => SpecPsgMsg::AcceptedStopSign(*a),
            PsgMsg::DecideSsSign(d) => SpecPsgMsg::DecideSsSign(*d),
        }
    }
}

/// A sequence-paxos message on the wire.
#[derive(Debug, PartialEq, Eq)]
pub struct Psg {
    pub from: u64,
    pub to: u64,
    pub msg: Option<PsgMsg>,
}

/// Mathematical value of a `Psg`.
pub struct SpecPsg {
    pub from: u64,
    pub to: u64,
    pub msg: Option<SpecPsgMsg>,
}

impl View for Psg {
    type V = SpecPsg;

    open spec fn view(&self) -> SpecPsg {
        SpecPsg {
            from: self.from,
            to: self.to,
            msg: match &self.msg {
                Some(m) => Some(m@),
                None => None,
            },
        }
    }
}

/// A heartbeat request on the wire.
#[derive(Clone, Copy, PartialEq, Eq, Structural, Debug)]
pub struct HeartbeatRequestObj {
    pub round: u32,
}

/// A heartbeat reply on the wire.
#[derive(Clone, Copy, PartialEq, Eq, Structural, Debug)]
pub struct HeartbeatReplyObj {
    pub round: u32,
    pub ballot: Option<BallotObj>,
    pub majority_connected: bool,
}

/// The alternatives of a leader-election message on the wire.
#[derive(Clone, Copy, PartialEq, Eq, Structural, Debug)]
pub enum BleMsg {
    Heartbeatreq(HeartbeatRequestObj),
    Heartbeatrep(HeartbeatReplyObj),
}

/// A leader-election message on the wire.
#[derive(Clone, Copy, PartialEq, Eq, Structural, Debug)]
pub struct BleMessageObj {
    pub from: u64,
    pub to: u64,
    pub msg: Option<BleMsg>,
}

} // verus!
