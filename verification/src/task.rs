//! The work the Raft layer hands to the worker, and the steps the worker
//! asks its driver to take.

use vstd::prelude::*;
use crate::command::{Msg, MsgView};
use crate::meta::{Peer, PeerStats, Region, RegionView};
use crate::metrics::{Counter, Notice, StoreSize};
use crate::pd::{RegionStat, RegionStatView};
use crate::store::{StoreInfo, StoreStats};

verus! {

/// One unit of work for the worker. `E` is the handle to the storage
/// engine, `C` the completion callback of a split.
#[derive(Clone, Debug, PartialEq, Eq)]
pub enum Task<E, C> {
    AskSplit {
        region: Region,
        split_key: Vec<u8>,
        peer: Peer,
        /// If true, the right region keeps the id of the region that is split.
        right_derive: bool,
        callback: Option<C>,
    },
    Heartbeat {
        region: Region,
        peer: Peer,
        down_peers: Vec<PeerStats>,
        pending_peers: Vec<Peer>,
        written_bytes: u64,
        written_keys: u64,
        read_bytes: u64,
        read_keys: u64,
    },
    StoreHeartbeat { stats: StoreStats, store_info: StoreInfo<E> },
    ReportSplit { left: Region, right: Region },
    ValidatePeer { region: Region, peer: Peer },
}

/// What a `Task` stands for.
pub enum TaskView<E, C> {
    AskSplit {
        region: RegionView,
        split_key: Seq<u8>,
        peer: Peer,
        right_derive: bool,
        callback: Option<C>,
    },
    Heartbeat {
        region: RegionView,
        peer: Peer,
        down_peers: Seq<PeerStats>,
        pending_peers: Seq<Peer>,
        written_bytes: u64,
        written_keys: u64,
        read_bytes: u64,
        read_keys: u64,
    },
    StoreHeartbeat { stats: StoreStats, store_info: StoreInfo<E> },
    ReportSplit { left: RegionView, right: RegionView },
    ValidatePeer { region: RegionView, peer: Peer },
}

impl<E, C> View for Task<E, C> {
    type V = TaskView<E, C>;

    open spec fn view(&self) -> TaskView<E, C> {
        match *self {
            Task::AskSplit { region, split_key, peer, right_derive, callback } => {
                TaskView::AskSplit {
                    region: region@,
                    split_key: split_key@,
                    peer,
                    right_derive,
                    callback,
                }
            },
            Task::Heartbeat {
                region,
                peer,
                down_peers,
                pending_peers,
                written_bytes,
                written_keys,
                read_bytes,
                read_keys,
            } => TaskView::Heartbeat {
                region: region@,
                peer,
                down_peers: down_peers@,
                pending_peers: pending_peers@,
                written_bytes,
                written_keys,
                read_bytes,
                read_keys,
            },
            Task::StoreHeartbeat { stats, store_info } => TaskView::StoreHeartbeat {
                stats,
                store_info,
            },
            Task::ReportSplit { left, right } => TaskView::ReportSplit { left: left@, right: right@ },
            Task::ValidatePeer { region, peer } => TaskView::ValidatePeer { region: region@, peer },
        }
    }
}

/// One step for the driver. The steps of a list are taken in order. A step
/// that waits for an answer names the function of the worker that takes the
/// answer; the driver hands it the step's fields with what came back.
#[derive(Clone, Debug, PartialEq, Eq)]
pub enum Action<E, C> {
    /// Subscribe to the director's stream of heartbeat responses. Each
    /// response goes to `Runner::on_heartbeat_response`, the end of the
    /// stream to `Runner::on_receiver_closed`.
    ScheduleHeartbeatReceiver { store_id: u64 },
    /// Ask the director to authorize a split of `region`. The answer goes
    /// to `Runner::on_ask_split_response`.
    AskSplit {
        region: Region,
        split_key: Vec<u8>,
        peer: Peer,
        right_derive: bool,
        callback: Option<C>,
    },
    /// Read the approximate size of `region` from the engine. The reading
    /// goes to `Runner::on_region_size`.
    MeasureRegion {
        region: Region,
        peer: Peer,
        down_peers: Vec<PeerStats>,
        pending_peers: Vec<Peer>,
        written_bytes: u64,
        written_keys: u64,
        read_bytes: u64,
        read_keys: u64,
    },
    /// Send a region heartbeat. A failure goes to
    /// `Runner::on_heartbeat_result`.
    RegionHeartbeat { region: Region, peer: Peer, region_stat: RegionStat },
    /// Read the filesystem under the engine and the size of the engine.
    /// The readings go to `Runner::handle_store_heartbeat`.
    ProbeStore { stats: StoreStats, store_info: StoreInfo<E> },
    /// Send a store heartbeat. The outcome goes to
    /// `Runner::on_store_heartbeat_result`.
    StoreHeartbeat { stats: StoreStats },
    /// Tell the director that a split was applied. The outcome goes to
    /// `Runner::on_report_split_result`.
    ReportSplit { left: Region, right: Region },
    /// Ask the director for the region with the id of `region`. The answer
    /// goes to `Runner::on_region_lookup`.
    GetRegionById { region: Region, peer: Peer },
    /// Put a message on the channel to the Raft state machine, without
    /// waiting. Where the channel refuses it, `rejection_notice` says what
    /// to log.
    Send(Msg<C>),
    /// Increment a counter by one.
    Count(Counter),
    /// Set a label of the store size gauge.
    SetGauge { kind: StoreSize, value: u64 },
    /// Write a line to the log.
    Log(Notice),
    /// Stop the process: the worker cannot go on.
    Abort,
}

/// What an `Action` stands for.
pub enum ActionView<E, C> {
    ScheduleHeartbeatReceiver { store_id: u64 },
    AskSplit {
        region: RegionView,
        split_key: Seq<u8>,
        peer: Peer,
        right_derive: bool,
        callback: Option<C>,
    },
    MeasureRegion {
        region: RegionView,
        peer: Peer,
        down_peers: Seq<PeerStats>,
        pending_peers: Seq<Peer>,
        written_bytes: u64,
        written_keys: u64,
        read_bytes: u64,
        read_keys: u64,
    },
    RegionHeartbeat { region: RegionView, peer: Peer, region_stat: RegionStatView },
    ProbeStore { stats: StoreStats, store_info: StoreInfo<E> },
    StoreHeartbeat { stats: StoreStats },
    ReportSplit { left: RegionView, right: RegionView },
    GetRegionById { region: RegionView, peer: Peer },
    Send(MsgView<C>),
    Count(Counter),
    SetGauge { kind: StoreSize, value: u64 },
    Log(Notice),
    Abort,
}

impl<E, C> View for Action<E, C> {
    type V = ActionView<E, C>;

    open spec fn view(&self) -> ActionView<E, C> {
        match *self {
            Action::ScheduleHeartbeatReceiver { store_id } => {
                ActionView::ScheduleHeartbeatReceiver { store_id }
            },
            Action::AskSplit { region, split_key, peer, right_derive, callback } => {
                ActionView::AskSplit {
                    region: region@,
                    split_key: split_key@,
                    peer,
                    right_derive,
                    callback,
                }
            },
            Action::MeasureRegion {
                region,
                peer,
                down_peers,
                pending_peers,
                written_bytes,
                written_keys,
                read_bytes,
                read_keys,
            } => ActionView::MeasureRegion {
                region: region@,
                peer,
                down_peers: down_peers@,
                pending_peers: pending_peers@,
                written_bytes,
                written_keys,
                read_bytes,
                read_keys,
            },
            Action::RegionHeartbeat { region, peer, region_stat } => ActionView::RegionHeartbeat {
                region: region@,
                peer,
                region_stat: region_stat@,
            },
            Action::ProbeStore { stats, store_info } => ActionView::ProbeStore { stats, store_info },
            Action::StoreHeartbeat { stats } => ActionView::StoreHeartbeat { stats },
            Action::ReportSplit { left, right } => ActionView::ReportSplit {
                left: left@,
                right: right@,
            },
            Action::GetRegionById { region, peer } => ActionView::GetRegionById {
                region: region@,
                peer,
            },
            Action::Send(msg) => ActionView::Send(msg@),
            Action::Count(counter) => ActionView::Count(counter),
            Action::SetGauge { kind, value } => ActionView::SetGauge { kind, value },
            Action::Log(notice) => ActionView::Log(notice),
            Action::Abort => ActionView::Abort,
        }
    }
}

/// What a list of actions stands for.
pub open spec fn views<E, C>(actions: Seq<Action<E, C>>) -> Seq<ActionView<E, C>> {
    actions.map_values(|a: Action<E, C>| a@)
}

/// The messages that a list of steps puts on the channel, in order.
pub open spec fn sent<E, C>(actions: Seq<ActionView<E, C>>) -> Seq<MsgView<C>>
    decreases actions.len(),
{
    if actions.len() == 0 {
        Seq::empty()
    } else {
        let rest = sent(actions.drop_last());
        match actions.last() {
            ActionView::Send(msg) => rest.push(msg),
            _ => rest,
        }
    }
}

/// How often a list of steps subscribes to the stream of heartbeat
/// responses.
pub open spec fn subscriptions<E, C>(actions: Seq<ActionView<E, C>>) -> nat
    decreases actions.len(),
{
    if actions.len() == 0 {
        0
    } else {
        let rest = subscriptions(actions.drop_last());
        match actions.last() {
            ActionView::ScheduleHeartbeatReceiver { .. } => rest + 1,
            _ => rest,
        }
    }
}

} // verus!
