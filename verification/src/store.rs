//! Capacity accounting for the store heartbeat.

use vstd::prelude::*;

verus! {

/// Capacity context of the local store: a handle to its engine and the
/// capacity it was configured with, 0 standing for "no limit".
#[derive(Clone, Debug, PartialEq, Eq)]
pub struct StoreInfo<E> {
    pub engine: E,
    pub capacity: u64,
}

/// Telemetry of one store heartbeat. The worker fills in `capacity`,
/// `used_size` and `available`; the other fields travel unchanged.
#[derive(Clone, Copy, Debug, PartialEq, Eq, Structural)]
pub struct StoreStats {
    pub store_id: u64,
    pub capacity: u64,
    pub available: u64,
    pub used_size: u64,
    pub region_count: u32,
    pub sending_snap_count: u32,
    pub receiving_snap_count: u32,
    pub applying_snap_count: u32,
    pub start_time: u32,
    pub is_busy: bool,
    pub bytes_written: u64,
    pub keys_written: u64,
}

/// What the probes of the filesystem and of the engine read.
#[derive(Clone, Copy, Debug, PartialEq, Eq, Structural)]
pub struct StoreProbe {
    /// Size of the filesystem that holds the engine, in bytes.
    pub disk_total: u64,
    /// Bytes that the filesystem has free.
    pub disk_free: u64,
    /// Bytes that the engine occupies.
    pub engine_used: u64,
}

/// The capacity a store reports: the configured capacity where one is set
/// and the disk can hold it, the size of the disk otherwise.
pub open spec fn store_capacity(configured: u64, disk_total: u64) -> u64 {
    if configured != 0 && configured <= disk_total {
        configured
    } else {
        disk_total
    }
}

/// The space a store reports as available: what the capacity leaves after
/// `used`, never below zero and never above what the filesystem has free.
pub open spec fn store_available(capacity: u64, used: int, disk_free: u64) -> int {
    let left: int = if capacity > used { capacity - used } else { 0 };
    if left < disk_free { left } else { disk_free as int }
}

/// Whether the capacity leaves nothing after `used`.
pub open spec fn store_is_full(capacity: u64, used: int) -> bool {
    capacity <= used
}

/// The stats that go to the director: `stats` with the three sizes filled in
/// from the configured capacity and the probe.
pub open spec fn completed_stats(stats: StoreStats, configured: u64, probe: StoreProbe) -> StoreStats {
    let capacity = store_capacity(configured, probe.disk_total);
    let used = stats.used_size + probe.engine_used;
    StoreStats {
        capacity,
        used_size: used as u64,
        available: store_available(capacity, used, probe.disk_free) as u64,
        ..stats
    }
}

/// Computes the reported capacity.
pub fn capacity_of(configured: u64, disk_total: u64) -> (capacity: u64)
    ensures
        capacity == store_capacity(configured, disk_total),
{
    if configured == 0 || disk_total < configured {
        disk_total
    } else {
        configured
    }
}

/// Computes the reported available space.
pub fn available_of(capacity: u64, used: u64, disk_free: u64) -> (available: u64)
    ensures
        available == store_available(capacity, used as int, disk_free),
{
    let mut available: u64 = if capacity > used { capacity - used } else { 0 };
    if available > disk_free {
        available = disk_free;
    }
    available
}

impl StoreStats {
    /// Fills in capacity, used size and available space. The used size is
    /// what the stats already count plus what the engine occupies.
    pub fn complete(self, configured: u64, probe: StoreProbe) -> (stats: StoreStats)
        requires
            self.used_size + probe.engine_used <= u64::MAX,
        ensures
            stats == completed_stats(self, configured, probe),
    {
        let capacity = capacity_of(configured, probe.disk_total);
        let used_size = self.used_size + probe.engine_used;
        let available = available_of(capacity, used_size, probe.disk_free);
        StoreStats { capacity, used_size, available, ..self }
    }
}

} // verus!
