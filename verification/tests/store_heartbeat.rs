use pd_worker::metrics::{Level, Notice, StoreSize};
use pd_worker::runner::Runner;
use pd_worker::store::{available_of, capacity_of, StoreInfo, StoreProbe, StoreStats};
use pd_worker::task::Action;

type Step = Action<&'static str, ()>;

fn stats(used_size: u64) -> StoreStats {
    StoreStats {
        store_id: 9,
        capacity: 0,
        available: 0,
        used_size,
        region_count: 12,
        sending_snap_count: 1,
        receiving_snap_count: 2,
        applying_snap_count: 3,
        start_time: 1_500_000_000,
        is_busy: true,
        bytes_written: 4096,
        keys_written: 77,
    }
}

fn info(capacity: u64) -> StoreInfo<&'static str> {
    StoreInfo { engine: "/var/lib/store/db", capacity }
}

fn probe(disk_total: u64, disk_free: u64, engine_used: u64) -> Option<StoreProbe> {
    Some(StoreProbe { disk_total, disk_free, engine_used })
}

fn sent_stats(steps: &[Step]) -> StoreStats {
    match steps.last() {
        Some(Action::StoreHeartbeat { stats }) => *stats,
        other => panic!("no store heartbeat at the end: {:?}", other),
    }
}

#[test]
fn store_heartbeat_capacity_cap() {
    let runner = Runner::new(9);
    let steps: Vec<Step> = runner.handle_store_heartbeat(stats(10), info(100), probe(200, 80, 30));
    let done = sent_stats(&steps);
    assert_eq!(done.capacity, 100);
    assert_eq!(done.used_size, 40);
    assert_eq!(done.available, 60);
    assert_eq!(
        steps,
        vec![
            Action::SetGauge { kind: StoreSize::Capacity, value: 100 },
            Action::SetGauge { kind: StoreSize::Available, value: 60 },
            Action::StoreHeartbeat {
                stats: StoreStats { capacity: 100, used_size: 40, available: 60, ..stats(10) },
            },
        ]
    );
}

#[test]
fn store_heartbeat_unbounded() {
    let runner = Runner::new(9);
    let steps: Vec<Step> = runner.handle_store_heartbeat(stats(0), info(0), probe(50, 5, 49));
    let done = sent_stats(&steps);
    assert_eq!(done.capacity, 50);
    assert_eq!(done.used_size, 49);
    assert_eq!(done.available, 1);
    assert_eq!(steps.len(), 3);
}

#[test]
fn store_heartbeat_over_used() {
    let runner = Runner::new(9);
    let steps: Vec<Step> = runner.handle_store_heartbeat(stats(0), info(100), probe(200, 10, 150));
    let done = sent_stats(&steps);
    assert_eq!(done.capacity, 100);
    assert_eq!(done.used_size, 150);
    assert_eq!(done.available, 0);
    assert_eq!(steps[0], Action::Log(Notice::NoAvailableSpace));
    assert_eq!(Notice::NoAvailableSpace.level(), Level::Warn);
    assert_eq!(
        &steps[1..3],
        &[
            Action::SetGauge { kind: StoreSize::Capacity, value: 100 },
            Action::SetGauge { kind: StoreSize::Available, value: 0 },
        ]
    );
}

#[test]
fn store_heartbeat_exactly_full_warns() {
    let runner = Runner::new(9);
    let steps: Vec<Step> = runner.handle_store_heartbeat(stats(60), info(100), probe(200, 10, 40));
    assert_eq!(steps[0], Action::Log(Notice::NoAvailableSpace));
    assert_eq!(sent_stats(&steps).available, 0);
}

#[test]
fn store_heartbeat_disk_smaller_than_configured() {
    let runner = Runner::new(9);
    let steps: Vec<Step> = runner.handle_store_heartbeat(stats(5), info(500), probe(300, 290, 5));
    let done = sent_stats(&steps);
    assert_eq!(done.capacity, 300);
    assert_eq!(done.used_size, 10);
    assert_eq!(done.available, 290);
}

#[test]
fn store_heartbeat_free_space_binds() {
    let runner = Runner::new(9);
    let steps: Vec<Step> = runner.handle_store_heartbeat(stats(0), info(0), probe(1000, 7, 100));
    assert_eq!(sent_stats(&steps).available, 7);
}

#[test]
fn store_heartbeat_keeps_the_other_fields() {
    let runner = Runner::new(9);
    let steps: Vec<Step> = runner.handle_store_heartbeat(stats(10), info(100), probe(200, 80, 30));
    let done = sent_stats(&steps);
    assert_eq!(done, StoreStats { capacity: 100, used_size: 40, available: 60, ..stats(10) });
    assert_eq!(done.store_id, 9);
    assert_eq!(done.region_count, 12);
    assert!(done.is_busy);
    assert_eq!(done.keys_written, 77);
}

#[test]
fn store_heartbeat_without_disk_reading_sends_nothing() {
    let runner = Runner::new(9);
    let steps: Vec<Step> = runner.handle_store_heartbeat(stats(10), info(100), None);
    assert_eq!(steps, vec![Action::Log(Notice::DiskStatFailed)]);
    assert_eq!(Notice::DiskStatFailed.level(), Level::Error);
}

#[test]
fn store_heartbeat_result() {
    let runner = Runner::new(9);
    let sent: Vec<Step> = runner.on_store_heartbeat_result(true);
    assert!(sent.is_empty());
    let failed: Vec<Step> = runner.on_store_heartbeat_result(false);
    assert_eq!(failed, vec![Action::Log(Notice::StoreHeartbeatFailed)]);
    assert_eq!(Notice::StoreHeartbeatFailed.level(), Level::Error);
}

#[test]
fn capacity_formula() {
    assert_eq!(capacity_of(0, 200), 200);
    assert_eq!(capacity_of(100, 200), 100);
    assert_eq!(capacity_of(200, 200), 200);
    assert_eq!(capacity_of(201, 200), 200);
    assert_eq!(capacity_of(0, 0), 0);
    assert_eq!(capacity_of(u64::MAX, u64::MAX), u64::MAX);
}

#[test]
fn available_formula() {
    assert_eq!(available_of(100, 40, 80), 60);
    assert_eq!(available_of(100, 40, 50), 50);
    assert_eq!(available_of(100, 100, 50), 0);
    assert_eq!(available_of(100, 101, 50), 0);
    assert_eq!(available_of(100, 0, 0), 0);
    assert_eq!(available_of(u64::MAX, 0, u64::MAX), u64::MAX);
}

#[test]
fn available_never_exceeds_its_two_ceilings() {
    let cases: [(u64, u64, u64, u64, u64); 6] = [
        (100, 200, 80, 10, 30),
        (0, 50, 5, 0, 49),
        (100, 200, 10, 0, 150),
        (7, 3, 3, 1, 1),
        (0, 0, 0, 0, 0),
        (u64::MAX, u64::MAX, u64::MAX, 1, 2),
    ];
    for (configured, total, free, used, engine) in cases {
        let done = stats(used).complete(configured, StoreProbe {
            disk_total: total,
            disk_free: free,
            engine_used: engine,
        });
        assert!(done.available <= free);
        assert!(done.available <= done.capacity.saturating_sub(done.used_size));
        if configured == 0 {
            assert_eq!(done.capacity, total);
        } else {
            assert_eq!(done.capacity, configured.min(total));
        }
    }
}
