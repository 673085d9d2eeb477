use pd_worker::meta::{Peer, PeerStats, Region, RegionEpoch};
use pd_worker::metrics::{
    Counter, DirectiveKind, Level, Notice, Outcome, PdRequest, StoreSize, Verdict,
};
use pd_worker::pd::RegionStat;
use pd_worker::runner::Runner;
use pd_worker::store::{StoreInfo, StoreStats};
use pd_worker::task::{Action, Task};

type Job = Task<&'static str, u32>;
type Step = Action<&'static str, u32>;

fn peer(id: u64) -> Peer {
    Peer { id, store_id: id + 100, is_learner: false }
}

fn region(id: u64) -> Region {
    Region {
        id,
        start_key: b"a".to_vec(),
        end_key: b"m".to_vec(),
        region_epoch: RegionEpoch { conf_ver: 1, version: 1 },
        peers: vec![peer(1), peer(2)],
    }
}

fn stats() -> StoreStats {
    StoreStats {
        store_id: 5,
        capacity: 0,
        available: 0,
        used_size: 0,
        region_count: 0,
        sending_snap_count: 0,
        receiving_snap_count: 0,
        applying_snap_count: 0,
        start_time: 0,
        is_busy: false,
        bytes_written: 0,
        keys_written: 0,
    }
}

fn subscriptions(steps: &[Step]) -> usize {
    steps.iter().filter(|step| matches!(step, Action::ScheduleHeartbeatReceiver { .. })).count()
}

#[test]
fn new_runner_has_not_subscribed() {
    let runner = Runner::new(5);
    assert_eq!(runner.store_id(), 5);
    assert!(!runner.is_hb_receiver_scheduled());
}

#[test]
fn first_task_subscribes() {
    let mut runner = Runner::new(5);
    let steps: Vec<Step> = runner.run(Task::ReportSplit { left: region(1), right: region(2) });
    assert_eq!(
        steps,
        vec![
            Action::ScheduleHeartbeatReceiver { store_id: 5 },
            Action::Count(Counter::PdRequest(PdRequest::ReportSplit, Outcome::All)),
            Action::ReportSplit { left: region(1), right: region(2) },
        ]
    );
    assert!(runner.is_hb_receiver_scheduled());
}

#[test]
fn subscription_is_made_once() {
    let mut runner = Runner::new(5);
    let tasks: Vec<Job> = vec![
        Task::ValidatePeer { region: region(1), peer: peer(1) },
        Task::ReportSplit { left: region(1), right: region(2) },
        Task::StoreHeartbeat { stats: stats(), store_info: StoreInfo { engine: "db", capacity: 0 } },
        Task::AskSplit {
            region: region(1),
            split_key: b"c".to_vec(),
            peer: peer(1),
            right_derive: false,
            callback: None,
        },
        Task::Heartbeat {
            region: region(1),
            peer: peer(1),
            down_peers: vec![],
            pending_peers: vec![],
            written_bytes: 0,
            written_keys: 0,
            read_bytes: 0,
            read_keys: 0,
        },
    ];
    let mut total = 0;
    for (i, task) in tasks.into_iter().enumerate() {
        let steps = runner.run(task);
        let here = subscriptions(&steps);
        assert_eq!(here, if i == 0 { 1 } else { 0 });
        total += here;
    }
    assert_eq!(total, 1);
}

#[test]
fn schedule_heartbeat_receiver_sets_the_gate() {
    let mut runner = Runner::new(5);
    let step: Step = runner.schedule_heartbeat_receiver();
    assert_eq!(step, Action::ScheduleHeartbeatReceiver { store_id: 5 });
    assert!(runner.is_hb_receiver_scheduled());
    let steps: Vec<Step> = runner.run(Task::ValidatePeer { region: region(1), peer: peer(1) });
    assert_eq!(subscriptions(&steps), 0);
}

#[test]
fn run_ask_split() {
    let mut runner = Runner::new(5);
    let _: Vec<Step> = runner.run(Task::ReportSplit { left: region(1), right: region(2) });
    let steps: Vec<Step> = runner.run(Task::AskSplit {
        region: region(1),
        split_key: b"c".to_vec(),
        peer: peer(1),
        right_derive: true,
        callback: Some(7),
    });
    assert_eq!(
        steps,
        vec![
            Action::Count(Counter::PdRequest(PdRequest::AskSplit, Outcome::All)),
            Action::AskSplit {
                region: region(1),
                split_key: b"c".to_vec(),
                peer: peer(1),
                right_derive: true,
                callback: Some(7),
            },
        ]
    );
}

#[test]
fn run_heartbeat_measures_first() {
    let mut runner = Runner::new(5);
    let _: Vec<Step> = runner.run(Task::ReportSplit { left: region(1), right: region(2) });
    let down = vec![PeerStats { peer: peer(2), down_seconds: 30 }];
    let steps: Vec<Step> = runner.run(Task::Heartbeat {
        region: region(1),
        peer: peer(1),
        down_peers: down.clone(),
        pending_peers: vec![peer(3)],
        written_bytes: 1,
        written_keys: 2,
        read_bytes: 3,
        read_keys: 4,
    });
    assert_eq!(
        steps,
        vec![Action::MeasureRegion {
            region: region(1),
            peer: peer(1),
            down_peers: down,
            pending_peers: vec![peer(3)],
            written_bytes: 1,
            written_keys: 2,
            read_bytes: 3,
            read_keys: 4,
        }]
    );
}

#[test]
fn heartbeat_takes_the_measured_size() {
    let runner = Runner::new(5);
    let down = vec![PeerStats { peer: peer(2), down_seconds: 30 }];
    let steps: Vec<Step> = runner.on_region_size(
        region(1),
        peer(1),
        down.clone(),
        vec![peer(3)],
        1,
        2,
        3,
        4,
        Some(4096),
    );
    assert_eq!(
        steps,
        vec![
            Action::Count(Counter::PdRequest(PdRequest::Heartbeat, Outcome::All)),
            Action::RegionHeartbeat {
                region: region(1),
                peer: peer(1),
                region_stat: RegionStat {
                    down_peers: down,
                    pending_peers: vec![peer(3)],
                    written_bytes: 1,
                    written_keys: 2,
                    read_bytes: 3,
                    read_keys: 4,
                    approximate_size: 4096,
                },
            },
        ]
    );
}

#[test]
fn heartbeat_without_a_size_reports_zero() {
    let runner = Runner::new(5);
    let steps: Vec<Step> =
        runner.on_region_size(region(1), peer(1), vec![], vec![], 1, 2, 3, 4, None);
    match &steps[1] {
        Action::RegionHeartbeat { region_stat, .. } => {
            assert_eq!(region_stat.approximate_size, 0);
            assert_eq!(region_stat.read_keys, 4);
        },
        other => panic!("expected a region heartbeat, got {:?}", other),
    }
}

#[test]
fn handle_heartbeat_sends_the_stat_as_given() {
    let runner = Runner::new(5);
    let stat = RegionStat::new(vec![], vec![peer(2)], 10, 20, 30, 40, 50);
    let steps: Vec<Step> = runner.handle_heartbeat(region(1), peer(1), stat.clone());
    assert_eq!(
        steps,
        vec![
            Action::Count(Counter::PdRequest(PdRequest::Heartbeat, Outcome::All)),
            Action::RegionHeartbeat { region: region(1), peer: peer(1), region_stat: stat },
        ]
    );
}

#[test]
fn heartbeat_result() {
    let runner = Runner::new(5);
    let sent: Vec<Step> = runner.on_heartbeat_result(1, true);
    assert!(sent.is_empty());
    let failed: Vec<Step> = runner.on_heartbeat_result(1, false);
    assert_eq!(failed, vec![Action::Log(Notice::HeartbeatFailed { region_id: 1 })]);
    assert_eq!(Notice::HeartbeatFailed { region_id: 1 }.level(), Level::Debug);
}

#[test]
fn run_store_heartbeat_probes_first() {
    let mut runner = Runner::new(5);
    let _: Vec<Step> = runner.run(Task::ReportSplit { left: region(1), right: region(2) });
    let info = StoreInfo { engine: "db", capacity: 100 };
    let steps: Vec<Step> = runner.run(Task::StoreHeartbeat { stats: stats(), store_info: info.clone() });
    assert_eq!(steps, vec![Action::ProbeStore { stats: stats(), store_info: info }]);
}

#[test]
fn report_split_result() {
    let runner = Runner::new(5);
    let reported: Vec<Step> = runner.on_report_split_result(true);
    assert_eq!(
        reported,
        vec![Action::Count(Counter::PdRequest(PdRequest::ReportSplit, Outcome::Success))]
    );
    let failed: Vec<Step> = runner.on_report_split_result(false);
    assert_eq!(failed, vec![Action::Log(Notice::ReportSplitFailed)]);
    assert_eq!(Notice::ReportSplitFailed.level(), Level::Error);
}

#[test]
fn receiver_end() {
    let runner = Runner::new(5);
    let failed: Vec<Step> = runner.on_receiver_closed(true);
    assert_eq!(failed, vec![Action::Abort]);
    let ended: Vec<Step> = runner.on_receiver_closed(false);
    assert_eq!(ended, vec![Action::Log(Notice::ReceiverExit { store_id: 5 })]);
    assert_eq!(Notice::ReceiverExit { store_id: 5 }.level(), Level::Info);
}

#[test]
fn labels() {
    assert_eq!(PdRequest::AskSplit.label(), "ask split");
    assert_eq!(PdRequest::Heartbeat.label(), "heartbeat");
    assert_eq!(PdRequest::ReportSplit.label(), "report split");
    assert_eq!(PdRequest::GetRegion.label(), "get region");
    assert_eq!(Outcome::All.label(), "all");
    assert_eq!(Outcome::Success.label(), "success");
    assert_eq!(DirectiveKind::ChangePeer.label(), "change peer");
    assert_eq!(DirectiveKind::TransferLeader.label(), "transfer leader");
    assert_eq!(Verdict::RegionEpochError.label(), "region epoch error");
    assert_eq!(Verdict::PeerStale.label(), "peer stale");
    assert_eq!(Verdict::PeerValid.label(), "peer valid");
    assert_eq!(StoreSize::Capacity.label(), "capacity");
    assert_eq!(StoreSize::Available.label(), "available");
    assert_eq!(
        Counter::PdRequest(PdRequest::AskSplit, Outcome::All).family(),
        "pd_request_total"
    );
    assert_eq!(Counter::PdHeartbeat(DirectiveKind::ChangePeer).family(), "pd_heartbeat_total");
    assert_eq!(Counter::PdValidatePeer(Verdict::PeerValid).family(), "pd_validate_peer_total");
}

#[test]
fn levels() {
    assert_eq!(Notice::SplitGranted { region_id: 1, new_region_id: 2 }.level(), Level::Info);
    assert_eq!(Notice::PeerObsolete { region_id: 1, peer_id: 2 }.level(), Level::Info);
    assert_eq!(Notice::PeerValid { region_id: 1, peer_id: 2 }.level(), Level::Info);
    assert_eq!(Notice::SendDestroyFailed { region_id: 1 }.level(), Level::Error);
}
