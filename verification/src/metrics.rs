//! The telemetry the worker asks for: counters, gauges and notices for the
//! log. The worker only names them; recording them is the driver's work.

use vstd::prelude::*;
use crate::command::{AdminCmdType, ConfChangeType};
use crate::meta::{Peer, RegionEpoch};

verus! {

/// A request to the director that is counted.
#[derive(Clone, Copy, Debug, PartialEq, Eq, Structural)]
pub enum PdRequest {
    AskSplit,
    Heartbeat,
    ReportSplit,
    GetRegion,
}

/// Whether a request is counted on submission or on success.
#[derive(Clone, Copy, Debug, PartialEq, Eq, Structural)]
pub enum Outcome {
    All,
    Success,
}

/// The kind of a directive.
#[derive(Clone, Copy, Debug, PartialEq, Eq, Structural)]
pub enum DirectiveKind {
    ChangePeer,
    TransferLeader,
}

/// How the validation of a peer ended.
#[derive(Clone, Copy, Debug, PartialEq, Eq, Structural)]
pub enum Verdict {
    RegionEpochError,
    PeerStale,
    PeerValid,
}

/// One labelled counter.
#[derive(Clone, Copy, Debug, PartialEq, Eq, Structural)]
pub enum Counter {
    /// `pd_request_total{op, outcome}`
    PdRequest(PdRequest, Outcome),
    /// `pd_heartbeat_total{kind}`
    PdHeartbeat(DirectiveKind),
    /// `pd_validate_peer_total{verdict}`
    PdValidatePeer(Verdict),
}

/// One label of the gauge `store_size_bytes{kind}`.
#[derive(Clone, Copy, Debug, PartialEq, Eq, Structural)]
pub enum StoreSize {
    Capacity,
    Available,
}

/// Severity of a notice.
#[derive(Clone, Copy, Debug, PartialEq, Eq, Structural)]
pub enum Level {
    Debug,
    Info,
    Warn,
    Error,
}

/// Something worth a line in the log.
#[derive(Clone, Copy, Debug, PartialEq, Eq, Structural)]
pub enum Notice {
    /// The director granted a split and named the new region.
    SplitGranted { region_id: u64, new_region_id: u64 },
    /// The director could not be asked for a split.
    AskSplitFailed { region_id: u64 },
    /// A region heartbeat could not be sent.
    HeartbeatFailed { region_id: u64 },
    /// The filesystem under the engine could not be read.
    DiskStatFailed,
    /// The store has used up its capacity.
    NoAvailableSpace,
    /// A store heartbeat could not be sent.
    StoreHeartbeatFailed,
    /// A split could not be reported.
    ReportSplitFailed,
    /// The local epoch is ahead of the one the director knows.
    EpochAhead { region_id: u64, peer_id: u64, local_epoch: RegionEpoch, pd_epoch: RegionEpoch },
    /// The peer is no member of its region any more and will be destroyed.
    PeerObsolete { region_id: u64, peer_id: u64 },
    /// The peer is still a member of its region.
    PeerValid { region_id: u64, peer_id: u64 },
    /// The director could not be asked for a region.
    GetRegionFailed,
    /// The director wants the membership of a region changed.
    ChangePeer { region_id: u64, change_type: ConfChangeType, peer: Peer },
    /// The director wants the leadership of a region moved.
    TransferLeader { region_id: u64, from: Peer, to: Peer },
    /// The stream of heartbeat responses ended in good order.
    ReceiverExit { store_id: u64 },
    /// The channel did not take an admin command.
    SendAdminFailed { region_id: u64, cmd_type: AdminCmdType },
    /// The channel did not take a tombstone.
    SendDestroyFailed { region_id: u64 },
}

impl PdRequest {
    pub open spec fn label_text(self) -> Seq<char> {
        match self {
            PdRequest::AskSplit => "ask split"@,
            PdRequest::Heartbeat => "heartbeat"@,
            PdRequest::ReportSplit => "report split"@,
            PdRequest::GetRegion => "get region"@,
        }
    }

    /// The value of the label `op`.
    pub fn label(&self) -> (text: &'static str)
        ensures
            text@ == self.label_text(),
    {
        match self {
            PdRequest::AskSplit => "ask split",
            PdRequest::Heartbeat => "heartbeat",
            PdRequest::ReportSplit => "report split",
            PdRequest::GetRegion => "get region",
        }
    }
}

impl Outcome {
    pub open spec fn label_text(self) -> Seq<char> {
        match self {
            Outcome::All => "all"@,
            Outcome::Success => "success"@,
        }
    }

    /// The value of the label `outcome`.
    pub fn label(&self) -> (text: &'static str)
        ensures
            text@ == self.label_text(),
    {
        match self {
            Outcome::All => "all",
            Outcome::Success => "success",
        }
    }
}

impl DirectiveKind {
    pub open spec fn label_text(self) -> Seq<char> {
        match self {
            DirectiveKind::ChangePeer => "change peer"@,
            DirectiveKind::TransferLeader => "transfer leader"@,
        }
    }

    /// The value of the label `kind`.
    pub fn label(&self) -> (text: &'static str)
        ensures
            text@ == self.label_text(),
    {
        match self {
            DirectiveKind::ChangePeer => "change peer",
            DirectiveKind::TransferLeader => "transfer leader",
        }
    }
}

impl Verdict {
    pub open spec fn label_text(self) -> Seq<char> {
        match self {
            Verdict::RegionEpochError => "region epoch error"@,
            Verdict::PeerStale => "peer stale"@,
            Verdict::PeerValid => "peer valid"@,
        }
    }

    /// The value of the label `verdict`.
    pub fn label(&self) -> (text: &'static str)
        ensures
            text@ == self.label_text(),
    {
        match self {
            Verdict::RegionEpochError => "region epoch error",
            Verdict::PeerStale => "peer stale",
            Verdict::PeerValid => "peer valid",
        }
    }
}

impl StoreSize {
    pub open spec fn label_text(self) -> Seq<char> {
        match self {
            StoreSize::Capacity => "capacity"@,
            StoreSize::Available => "available"@,
        }
    }

    /// The value of the label `kind`.
    pub fn label(&self) -> (text: &'static str)
        ensures
            text@ == self.label_text(),
    {
        match self {
            StoreSize::Capacity => "capacity",
            StoreSize::Available => "available",
        }
    }
}

impl Counter {
    pub open spec fn family_text(self) -> Seq<char> {
        match self {
            Counter::PdRequest(..) => "pd_request_total"@,
            Counter::PdHeartbeat(..) => "pd_heartbeat_total"@,
            Counter::PdValidatePeer(..) => "pd_validate_peer_total"@,
        }
    }

    /// The name of the counter family.
    pub fn family(&self) -> (text: &'static str)
        ensures
            text@ == self.family_text(),
    {
        match self {
            Counter::PdRequest(..) => "pd_request_total",
            Counter::PdHeartbeat(..) => "pd_heartbeat_total",
            Counter::PdValidatePeer(..) => "pd_validate_peer_total",
        }
    }
}

impl Notice {
    /// The severity a notice is logged at. A failure that the next round
    /// repairs is worth a debug line; one that loses a report or a command,
    /// or that shows the cluster in a state it should not be in, is an error.
    pub open spec fn severity(self) -> Level {
        match self {
            Notice::AskSplitFailed { .. } | Notice::HeartbeatFailed { .. } => Level::Debug,
            Notice::SplitGranted { .. }
            | Notice::PeerObsolete { .. }
            | Notice::PeerValid { .. }
            | Notice::ChangePeer { .. }
            | Notice::TransferLeader { .. }
            | Notice::ReceiverExit { .. } => Level::Info,
            Notice::NoAvailableSpace => Level::Warn,
            Notice::DiskStatFailed
            | Notice::StoreHeartbeatFailed
            | Notice::ReportSplitFailed
            | Notice::EpochAhead { .. }
            | Notice::GetRegionFailed
            | Notice::SendAdminFailed { .. }
            | Notice::SendDestroyFailed { .. } => Level::Error,
        }
    }

    /// The severity to log the notice at.
    pub fn level(&self) -> (level: Level)
        ensures
            level == self.severity(),
    {
        match self {
            Notice::AskSplitFailed { .. } | Notice::HeartbeatFailed { .. } => Level::Debug,
            Notice::SplitGranted { .. }
            | Notice::PeerObsolete { .. }
            | Notice::PeerValid { .. }
            | Notice::ChangePeer { .. }
            | Notice::TransferLeader { .. }
            | Notice::ReceiverExit { .. } => Level::Info,
            Notice::NoAvailableSpace => Level::Warn,
            Notice::DiskStatFailed
            | Notice::StoreHeartbeatFailed
            | Notice::ReportSplitFailed
            | Notice::EpochAhead { .. }
            | Notice::GetRegionFailed
            | Notice::SendAdminFailed { .. }
            | Notice::SendDestroyFailed { .. } => Level::Error,
        }
    }
}

} // verus!
