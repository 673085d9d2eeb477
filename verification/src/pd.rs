//! What travels between the worker and the director.

use vstd::prelude::*;
use crate::command::ConfChangeType;
use crate::meta::{Peer, PeerStats, Region, RegionEpoch, RegionView};

verus! {

/// Telemetry of one region heartbeat.
#[derive(Clone, Debug, PartialEq, Eq)]
pub struct RegionStat {
    pub down_peers: Vec<PeerStats>,
    pub pending_peers: Vec<Peer>,
    pub written_bytes: u64,
    pub written_keys: u64,
    pub read_bytes: u64,
    pub read_keys: u64,
    pub approximate_size: u64,
}

/// What a `RegionStat` stands for.
pub struct RegionStatView {
    pub down_peers: Seq<PeerStats>,
    pub pending_peers: Seq<Peer>,
    pub written_bytes: u64,
    pub written_keys: u64,
    pub read_bytes: u64,
    pub read_keys: u64,
    pub approximate_size: u64,
}

impl View for RegionStat {
    type V = RegionStatView;

    open spec fn view(&self) -> RegionStatView {
        RegionStatView {
            down_peers: self.down_peers@,
            pending_peers: self.pending_peers@,
            written_bytes: self.written_bytes,
            written_keys: self.written_keys,
            read_bytes: self.read_bytes,
            read_keys: self.read_keys,
            approximate_size: self.approximate_size,
        }
    }
}

impl RegionStat {
    pub fn new(
        down_peers: Vec<PeerStats>,
        pending_peers: Vec<Peer>,
        written_bytes: u64,
        written_keys: u64,
        read_bytes: u64,
        read_keys: u64,
        approximate_size: u64,
    ) -> (stat: RegionStat)
        ensures
            stat@ == (RegionStatView {
                down_peers: down_peers@,
                pending_peers: pending_peers@,
                written_bytes,
                written_keys,
                read_bytes,
                read_keys,
                approximate_size,
            }),
    {
        RegionStat {
            down_peers,
            pending_peers,
            written_bytes,
            written_keys,
            read_bytes,
            read_keys,
            approximate_size,
        }
    }
}

/// The director's grant of a split: the id of the new region and one peer
/// id for each of its members.
#[derive(Clone, Debug, PartialEq, Eq)]
pub struct AskSplitResponse {
    pub new_region_id: u64,
    pub new_peer_ids: Vec<u64>,
}

/// What an `AskSplitResponse` stands for.
pub struct AskSplitResponseView {
    pub new_region_id: u64,
    pub new_peer_ids: Seq<u64>,
}

impl View for AskSplitResponse {
    type V = AskSplitResponseView;

    open spec fn view(&self) -> AskSplitResponseView {
        AskSplitResponseView { new_region_id: self.new_region_id, new_peer_ids: self.new_peer_ids@ }
    }
}

/// The director's wish to change the membership of a region.
#[derive(Clone, Copy, Debug, PartialEq, Eq, Structural)]
pub struct ChangePeer {
    pub change_type: ConfChangeType,
    pub peer: Peer,
}

/// The director's wish to move the leadership of a region.
#[derive(Clone, Copy, Debug, PartialEq, Eq, Structural)]
pub struct TransferLeader {
    pub peer: Peer,
}

/// One message of the director's stream of heartbeat responses. It
/// addresses `target_peer` of the region and may hold a directive.
#[derive(Clone, Copy, Debug, PartialEq, Eq, Structural)]
pub struct RegionHeartbeatResponse {
    pub region_id: u64,
    pub region_epoch: RegionEpoch,
    pub target_peer: Peer,
    pub change_peer: Option<ChangePeer>,
    pub transfer_leader: Option<TransferLeader>,
}

/// How the director answered when asked for a region by its id.
#[derive(Clone, Debug, PartialEq, Eq)]
pub enum RegionLookup {
    /// The director knows the region. `local_is_fresher` is the Raft layer's
    /// word on the two epochs: whether the director's epoch is stale
    /// against the local one.
    Found { region: Region, local_is_fresher: bool },
    /// The director does not know the region.
    Missing,
    /// The director could not be asked.
    Failed,
}

/// What a `RegionLookup` stands for.
pub enum RegionLookupView {
    Found { region: RegionView, local_is_fresher: bool },
    Missing,
    Failed,
}

impl View for RegionLookup {
    type V = RegionLookupView;

    open spec fn view(&self) -> RegionLookupView {
        match *self {
            RegionLookup::Found { region, local_is_fresher } => RegionLookupView::Found {
                region: region@,
                local_is_fresher,
            },
            RegionLookup::Missing => RegionLookupView::Missing,
            RegionLookup::Failed => RegionLookupView::Failed,
        }
    }
}

} // verus!
