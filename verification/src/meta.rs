//! Region metadata: epochs, peers and region descriptors.

use vstd::prelude::*;

verus! {

/// Revision of a region: `conf_ver` counts membership changes, `version`
/// counts changes of the key range.
#[derive(Clone, Copy, Debug, PartialEq, Eq, Structural)]
pub struct RegionEpoch {
    pub conf_ver: u64,
    pub version: u64,
}

/// One Raft member of a region.
#[derive(Clone, Copy, Debug, PartialEq, Eq, Structural)]
pub struct Peer {
    pub id: u64,
    pub store_id: u64,
    pub is_learner: bool,
}

/// A peer that its leader has not heard from, with the length of the silence.
#[derive(Clone, Copy, Debug, PartialEq, Eq, Structural)]
pub struct PeerStats {
    pub peer: Peer,
    pub down_seconds: u64,
}

/// Identity and membership of a region.
#[derive(Clone, Debug, PartialEq, Eq)]
pub struct Region {
    pub id: u64,
    pub start_key: Vec<u8>,
    pub end_key: Vec<u8>,
    pub region_epoch: RegionEpoch,
    pub peers: Vec<Peer>,
}

/// What a `Region` stands for.
pub struct RegionView {
    pub id: u64,
    pub start_key: Seq<u8>,
    pub end_key: Seq<u8>,
    pub region_epoch: RegionEpoch,
    pub peers: Seq<Peer>,
}

impl View for Region {
    type V = RegionView;

    open spec fn view(&self) -> RegionView {
        RegionView {
            id: self.id,
            start_key: self.start_key@,
            end_key: self.end_key@,
            region_epoch: self.region_epoch,
            peers: self.peers@,
        }
    }
}

impl Region {
    /// Whether `peer` is one of the region's members.
    pub fn has_peer(&self, peer: &Peer) -> (found: bool)
        ensures
            found == self@.peers.contains(*peer),
    {
        let mut i: usize = 0;
        while i < self.peers.len()
            invariant
                i <= self.peers.len(),
                forall|j: int| 0 <= j < i ==> self.peers@[j] != *peer,
            decreases self.peers.len() - i,
        {
            if self.peers[i] == *peer {
                return true;
            }
            i += 1;
        }
        false
    }
}

} // verus!
