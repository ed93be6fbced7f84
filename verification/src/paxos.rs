//! The messages that the consensus layer exchanges, held as plain values.
//!
//! Each type that holds a vector or a string has a view: a type of the same
//! shape in which vectors are sequences and strings are sequences of chars.
//! Types made of plain values only are their own mathematical value.
use vstd::prelude::*;

verus! {

/// A command of the replicated store: an SQL statement with its identifier.
#[derive(Clone, Debug, PartialEq, Eq)]
pub struct StoreCommand {
    pub id: usize,
    pub sql: String,
}

/// Mathematical value of a `StoreCommand`.
pub struct SpecStoreCommand {
    pub id: usize,
    pub sql: Seq<char>,
}

impl View for StoreCommand {
    type V = SpecStoreCommand;

    open spec fn view(&self) -> SpecStoreCommand {
        SpecStoreCommand { id: self.id, sql: self.sql@ }
    }
}

/// The view of a vector of commands.
pub open spec fn commands_view(v: Seq<StoreCommand>) -> Seq<SpecStoreCommand> {
    v.map_values(|c: StoreCommand| c@)
}

/// A ballot: round number, priority and the proposer's id.
#[derive(Clone, Copy, PartialEq, Eq, Structural, Debug)]
pub struct Ballot {
    pub n: u32,
    pub priority: u64,
    pub pid: u64,
}

/// `Prepare`: sent by a new leader.
#[derive(Clone, Copy, PartialEq, Eq, Structural, Debug)]
pub struct Prepare {
    pub n: Ballot,
    pub ld: u64,
    pub n_accepted: Ballot,
    pub la: u64,
}

/// The kind of a snapshot that a sync item carries.
#[derive(Clone, Copy, PartialEq, Eq, Structural, Debug)]
pub enum SnapshotType {
    Complete,
    Delta,
    Phantom,
}

/// What a follower or leader hands over to bring another log up to date.
#[derive(Debug, PartialEq, Eq)]
pub enum SyncItem {
    Entries(Vec<StoreCommand>),
    Snapshot(SnapshotType),
    Empty,
}

/// Mathematical value of a `SyncItem`.
pub enum SpecSyncItem {
    Entries(Seq<SpecStoreCommand>),
    Snapshot(SnapshotType),
    Empty,
}

impl View for SyncItem {
    type V = SpecSyncItem;

    open spec fn view(&self) -> SpecSyncItem {
        match self {
            SyncItem::Entries(v) => SpecSyncItem::Entries(commands_view(v@)),
            SyncItem::Snapshot(s) => SpecSyncItem::Snapshot(*s),
            SyncItem::Empty => SpecSyncItem::Empty,
        }
    }
}

/// A stop sign: the end of a configuration and the nodes of the next one.
#[derive(Debug, PartialEq, Eq)]
pub struct StopSign {
    pub config_id: u32,
    pub nodes: Vec<u64>,
    pub metadata: Option<Vec<u8>>,
}

/// Mathematical value of a `StopSign`.
pub struct SpecStopSign {
    pub config_id: u32,
    pub nodes: Seq<u64>,
    pub metadata: Option<Seq<u8>>,
}

impl View for StopSign {
    type V = SpecStopSign;

    open spec fn view(&self) -> SpecStopSign {
        SpecStopSign {
            config_id: self.config_id,
            nodes: self.nodes@,
            metadata: match &self.metadata {
                Some(m) => Some(m@),
                None => None,
            },
        }
    }
}

/// The view of an optional stop sign.
pub open spec fn opt_stop_sign_view(s: Option<StopSign>) -> Option<SpecStopSign> {
    match s {
        Some(ss) => Some(ss@),
        None => None,
    }
}

/// `Promise`: a follower's answer to `Prepare`.
#[derive(Debug, PartialEq, Eq)]
pub struct Promise {
    pub n: Ballot,
    pub n_accepted: Ballot,
    pub sync_item: Option<SyncItem>,
    pub ld: u64,
    pub la: u64,
    pub stopsign: Option<StopSign>,
}

/// Mathematical value of a `Promise`.
pub struct SpecPromise {
    pub n: Ballot,
    pub n_accepted: Ballot,
    pub sync_item: Option<SpecSyncItem>,
    pub ld: u64,
    pub la: u64,
    pub stopsign: Option<SpecStopSign>,
}

impl View for Promise {
    type V = SpecPromise;

    open spec fn view(&self) -> SpecPromise {
        SpecPromise {
            n: self.n,
            n_accepted: self.n_accepted,
            sync_item: match &self.sync_item {
                Some(s) => Some(s@),
                None => None,
            },
            ld: self.ld,
            la: self.la,
            stopsign: opt_stop_sign_view(self.stopsign),
        }
    }
}

/// `AcceptSync`: the leader's synchronisation of a follower's log.
#[derive(Debug, PartialEq, Eq)]
pub struct AcceptSync {
    pub n: Ballot,
    pub sync_item: SyncItem,
    pub sync_idx: u64,
    pub decide_idx: Option<u64>,
    pub stopsign: Option<StopSign>,
}

/// Mathematical value of an `AcceptSync`.
pub struct SpecAcceptSync {
    pub n: Ballot,
    pub sync_item: SpecSyncItem,
    pub sync_idx: u64,
    pub decide_idx: Option<u64>,
    pub stopsign: Option<SpecStopSign>,
}

impl View for AcceptSync {
    type V = SpecAcceptSync;

    open spec fn view(&self) -> SpecAcceptSync {
        SpecAcceptSync {
            n: self.n,
            sync_item: self.sync_item@,
            sync_idx: self.sync_idx,
            decide_idx: self.decide_idx,
            stopsign: opt_stop_sign_view(self.stopsign),
        }
    }
}

/// `FirstAccept`: the first entries a leader sends after synchronisation.
#[derive(Debug, PartialEq, Eq)]
pub struct FirstAccept {
    pub n: Ballot,
    pub entries: Vec<StoreCommand>,
}

/// Mathematical value of a `FirstAccept`.
pub struct SpecFirstAccept {
    pub n: Ballot,
    pub entries: Seq<SpecStoreCommand>,
}

impl View for FirstAccept {
    type V = SpecFirstAccept;

    open spec fn view(&self) -> SpecFirstAccept {
        SpecFirstAccept { n: self.n, entries: commands_view(self.entries@) }
    }
}

/// `AcceptDecide`: entries to accept together with the decided index.
#[derive(Debug, PartialEq, Eq)]
pub struct AcceptDecide {
    pub n: Ballot,
    pub ld: u64,
    pub entries: Vec<StoreCommand>,
}

/// Mathematical value of an `AcceptDecide`.
pub struct SpecAcceptDecide {
    pub n: Ballot,
    pub ld: u64,
    pub entries: Seq<SpecStoreCommand>,
}

impl View for AcceptDecide {
    type V = SpecAcceptDecide;

    open spec fn view(&self) -> SpecAcceptDecide {
        SpecAcceptDecide { n: self.n, ld: self.ld, entries: commands_view(self.entries@) }
    }
}

/// `Accepted`: a follower acknowledges entries up to `la`.
#[derive(Clone, Copy, PartialEq, Eq, Structural, Debug)]
pub struct Accepted {
    pub n: Ballot,
    pub la: u64,
}

/// `Decide`: entries up to `ld` are decided.
#[derive(Clone, Copy, PartialEq, Eq, Structural, Debug)]
pub struct Decide {
    pub n: Ballot,
    pub ld: u64,
}

/// A request to compact the log.
#[derive(Clone, Copy, PartialEq, Eq, Structural, Debug)]
pub enum Compaction {
    Trim(Option<u64>),
    Snapshot(u64),
}

/// `AcceptStopSign`: the leader proposes a stop sign.
#[derive(Debug, PartialEq, Eq)]
pub struct AcceptStopSign {
    pub n: Ballot,
    pub ss: StopSign,
}

/// Mathematical value of an `AcceptStopSign`.
pub struct SpecAcceptStopSign {
    pub n: Ballot,
    pub ss: SpecStopSign,
}

impl View for AcceptStopSign {
    type V = SpecAcceptStopSign;

    open spec fn view(&self) -> SpecAcceptStopSign {
        SpecAcceptStopSign { n: self.n, ss: self.ss@ }
    }
}

/// `AcceptedStopSign`: a follower accepted the stop sign.
#[derive(Clone, Copy, PartialEq, Eq, Structural, Debug)]
pub struct AcceptedStopSign {
    pub n: Ballot,
}

/// `DecideStopSign`: the stop sign is decided.
#[derive(Clone, Copy, PartialEq, Eq, Structural, Debug)]
pub struct DecideStopSign {
    pub n: Ballot,
}

/// The sequence-paxos messages.
#[derive(Debug, PartialEq, Eq)]
pub enum PaxosMsg {
    PrepareReq,
    Prepare(Prepare),
    Promise(Promise),
    AcceptSync(AcceptSync),
    FirstAccept(FirstAccept),
    AcceptDecide(AcceptDecide),
    Accepted(Accepted),
    Decide(Decide),
    ProposalForward(Vec<StoreCommand>),
    Compaction(Compaction),
    ForwardCompaction(Compaction),
    AcceptStopSign(AcceptStopSign),
    AcceptedStopSign(AcceptedStopSign),
    DecideStopSign(DecideStopSign),
}

/// Mathematical value of a `PaxosMsg`.
pub enum SpecPaxosMsg {
    PrepareReq,
    Prepare(Prepare),
    Promise(SpecPromise),
    AcceptSync(SpecAcceptSync),
    FirstAccept(SpecFirstAccept),
    AcceptDecide(SpecAcceptDecide),
    Accepted(Accepted),
    Decide(Decide),
    ProposalForward(Seq<SpecStoreCommand>),
    Compaction(Compaction),
    ForwardCompaction(Compaction),
    AcceptStopSign(SpecAcceptStopSign),
    AcceptedStopSign(AcceptedStopSign),
    DecideStopSign(DecideStopSign),
}

impl View for PaxosMsg {
    type V = SpecPaxosMsg;

    open spec fn view(&self) -> SpecPaxosMsg {
        match self {
            PaxosMsg::PrepareReq => SpecPaxosMsg::PrepareReq,
            PaxosMsg::Prepare(p) => SpecPaxosMsg::Prepare(*p),
            PaxosMsg::Promise(p) => SpecPaxosMsg::Promise(p@),
            PaxosMsg::AcceptSync(a) => SpecPaxosMsg::AcceptSync(a@),
            PaxosMsg::FirstAccept(f) => SpecPaxosMsg::FirstAccept(f@),
            PaxosMsg::AcceptDecide(a) => SpecPaxosMsg::AcceptDecide(a@),
            PaxosMsg::Accepted(a) => SpecPaxosMsg::Accepted(*a),
            PaxosMsg::Decide(d) => SpecPaxosMsg::Decide(*d),
            PaxosMsg::ProposalForward(v) => SpecPaxosMsg::ProposalForward(commands_view(v@)),
            PaxosMsg::Compaction(c) => SpecPaxosMsg::Compaction(*c),
            PaxosMsg::ForwardCompaction(c) => SpecPaxosMsg::ForwardCompaction(*c),
            PaxosMsg::AcceptStopSign(a) => SpecPaxosMsg::AcceptStopSign(a@),
            PaxosMsg::AcceptedStopSign(a) => SpecPaxosMsg::AcceptedStopSign(*a),
            PaxosMsg::DecideStopSign(d) => SpecPaxosMsg::DecideStopSign(*d),
        }
    }
}

/// A sequence-paxos message with its sender and receiver.
#[derive(Debug, PartialEq, Eq)]
pub struct Message {
    pub from: u64,
    pub to: u64,
    pub msg: PaxosMsg,
}

/// Mathematical value of a `Message`.
pub struct SpecMessage {
    pub from: u64,
    pub to: u64,
    pub msg: SpecPaxosMsg,
}

impl View for Message {
    type V = SpecMessage;

    open spec fn view(&self) -> SpecMessage {
        SpecMessage { from: self.from, to: self.to, msg: self.msg@ }
    }
}

/// A heartbeat request of the ballot leader election.
#[derive(Clone, Copy, PartialEq, Eq, Structural, Debug)]
pub struct HeartbeatRequest {
    pub round: u32,
}

/// A heartbeat reply of the ballot leader election.
#[derive(Clone, Copy, PartialEq, Eq, Structural, Debug)]
pub struct HeartbeatReply {
    pub round: u32,
    pub ballot: Ballot,
    pub majority_connected: bool,
}

/// The heartbeat messages.
#[derive(Clone, Copy, PartialEq, Eq, Structural, Debug)]
pub enum HeartbeatMsg {
    Request(HeartbeatRequest),
    Reply(HeartbeatReply),
}

/// A ballot-leader-election message with its sender and receiver.
#[derive(Clone, Copy, PartialEq, Eq, Structural, Debug)]
pub struct BLEMessage {
    pub from: u64,
    pub to: u64,
    pub msg: HeartbeatMsg,
}

} // verus!
