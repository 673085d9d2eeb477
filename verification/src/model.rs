//! What the worker decides, stated over the views of its data: for each
//! event the steps that answer it.

use vstd::prelude::*;
use crate::command::{admin_msg, tombstone, AdminRequestView, MsgView};
use crate::meta::{Peer, PeerStats, RegionView};
use crate::metrics::{Counter, DirectiveKind, Notice, Outcome, PdRequest, StoreSize, Verdict};
use crate::pd::{AskSplitResponseView, RegionHeartbeatResponse, RegionLookupView, RegionStatView};
use crate::store::{completed_stats, store_is_full, StoreProbe, StoreStats};
use crate::task::{ActionView, TaskView};

verus! {

/// A split is asked for: the request is counted and sent.
pub open spec fn ask_split_steps<E, C>(
    region: RegionView,
    split_key: Seq<u8>,
    peer: Peer,
    right_derive: bool,
    callback: Option<C>,
) -> Seq<ActionView<E, C>> {
    seq![
        ActionView::Count(Counter::PdRequest(PdRequest::AskSplit, Outcome::All)),
        ActionView::AskSplit { region, split_key, peer, right_derive, callback },
    ]
}

/// The director answered a request for a split. A grant becomes a split
/// command for the region, at the region's epoch, addressed to the peer
/// that asked, with the callback of the task. Without a grant the callback
/// is dropped.
pub open spec fn split_answer_steps<E, C>(
    region: RegionView,
    split_key: Seq<u8>,
    peer: Peer,
    right_derive: bool,
    callback: Option<C>,
    response: Option<AskSplitResponseView>,
) -> Seq<ActionView<E, C>> {
    match response {
        Some(granted) => seq![
            ActionView::Log(
                Notice::SplitGranted { region_id: region.id, new_region_id: granted.new_region_id },
            ),
            ActionView::Count(Counter::PdRequest(PdRequest::AskSplit, Outcome::Success)),
            ActionView::Send(
                admin_msg(
                    region.id,
                    region.region_epoch,
                    peer,
                    AdminRequestView::Split {
                        split_key,
                        new_region_id: granted.new_region_id,
                        new_peer_ids: granted.new_peer_ids,
                        right_derive,
                    },
                    callback,
                ),
            ),
        ],
        None => seq![ActionView::Log(Notice::AskSplitFailed { region_id: region.id })],
    }
}

/// A region heartbeat is due: the request is counted and sent.
pub open spec fn heartbeat_steps<E, C>(
    region: RegionView,
    peer: Peer,
    region_stat: RegionStatView,
) -> Seq<ActionView<E, C>> {
    seq![
        ActionView::Count(Counter::PdRequest(PdRequest::Heartbeat, Outcome::All)),
        ActionView::RegionHeartbeat { region, peer, region_stat },
    ]
}

/// The stat of a region heartbeat: what the task counted, with the size
/// that the engine read, 0 where it read none.
pub open spec fn measured_stat(
    down_peers: Seq<PeerStats>,
    pending_peers: Seq<Peer>,
    written_bytes: u64,
    written_keys: u64,
    read_bytes: u64,
    read_keys: u64,
    approximate_size: Option<u64>,
) -> RegionStatView {
    RegionStatView {
        down_peers,
        pending_peers,
        written_bytes,
        written_keys,
        read_bytes,
        read_keys,
        approximate_size: match approximate_size {
            Some(size) => size,
            None => 0,
        },
    }
}

/// A region heartbeat was sent or not. Nothing awaits the director's
/// answer here: directives come by the stream.
pub open spec fn heartbeat_result_steps<E, C>(region_id: u64, sent: bool) -> Seq<ActionView<E, C>> {
    if sent {
        Seq::empty()
    } else {
        seq![ActionView::Log(Notice::HeartbeatFailed { region_id })]
    }
}

/// The probes for a store heartbeat came back. Without a reading of the
/// filesystem nothing is sent. With one the stats are completed, the two
/// gauges set and the stats sent.
pub open spec fn store_heartbeat_steps<E, C>(
    stats: StoreStats,
    configured: u64,
    probe: Option<StoreProbe>,
) -> Seq<ActionView<E, C>> {
    match probe {
        None => seq![ActionView::Log(Notice::DiskStatFailed)],
        Some(probe) => {
            let done = completed_stats(stats, configured, probe);
            let warning: Seq<ActionView<E, C>> = if store_is_full(
                done.capacity,
                stats.used_size + probe.engine_used,
            ) {
                seq![ActionView::Log(Notice::NoAvailableSpace)]
            } else {
                Seq::empty()
            };
            warning + seq![
                ActionView::SetGauge { kind: StoreSize::Capacity, value: done.capacity },
                ActionView::SetGauge { kind: StoreSize::Available, value: done.available },
                ActionView::StoreHeartbeat { stats: done },
            ]
        },
    }
}

/// A store heartbeat was sent or not.
pub open spec fn store_heartbeat_result_steps<E, C>(sent: bool) -> Seq<ActionView<E, C>> {
    if sent {
        Seq::empty()
    } else {
        seq![ActionView::Log(Notice::StoreHeartbeatFailed)]
    }
}

/// A split was applied: the report is counted and sent.
pub open spec fn report_split_steps<E, C>(left: RegionView, right: RegionView) -> Seq<
    ActionView<E, C>,
> {
    seq![
        ActionView::Count(Counter::PdRequest(PdRequest::ReportSplit, Outcome::All)),
        ActionView::ReportSplit { left, right },
    ]
}

/// The report of a split reached the director or not.
pub open spec fn report_split_result_steps<E, C>(reported: bool) -> Seq<ActionView<E, C>> {
    if reported {
        seq![ActionView::Count(Counter::PdRequest(PdRequest::ReportSplit, Outcome::Success))]
    } else {
        seq![ActionView::Log(Notice::ReportSplitFailed)]
    }
}

/// A peer is to be validated: the lookup of its region is counted and sent.
pub open spec fn validate_peer_steps<E, C>(region: RegionView, peer: Peer) -> Seq<
    ActionView<E, C>,
> {
    seq![
        ActionView::Count(Counter::PdRequest(PdRequest::GetRegion, Outcome::All)),
        ActionView::GetRegionById { region, peer },
    ]
}

/// Whether the validation of `peer` ends in its destruction: the director
/// knows the region, its epoch is not behind the local one, and the region
/// it knows does not hold the peer.
pub open spec fn is_obsolete(peer: Peer, lookup: RegionLookupView) -> bool {
    lookup matches RegionLookupView::Found { region, local_is_fresher } && !local_is_fresher
        && !region.peers.contains(peer)
}

/// The director answered the lookup of a region.
pub open spec fn region_lookup_steps<E, C>(
    local_region: RegionView,
    peer: Peer,
    lookup: RegionLookupView,
) -> Seq<ActionView<E, C>> {
    match lookup {
        RegionLookupView::Found { region, local_is_fresher } => {
            let counted = ActionView::Count(
                Counter::PdRequest(PdRequest::GetRegion, Outcome::Success),
            );
            if local_is_fresher {
                seq![
                    counted,
                    ActionView::Log(
                        Notice::EpochAhead {
                            region_id: local_region.id,
                            peer_id: peer.id,
                            local_epoch: local_region.region_epoch,
                            pd_epoch: region.region_epoch,
                        },
                    ),
                    ActionView::Count(Counter::PdValidatePeer(Verdict::RegionEpochError)),
                ]
            } else if !region.peers.contains(peer) {
                seq![
                    counted,
                    ActionView::Log(
                        Notice::PeerObsolete { region_id: local_region.id, peer_id: peer.id },
                    ),
                    ActionView::Count(Counter::PdValidatePeer(Verdict::PeerStale)),
                    ActionView::Send(
                        MsgView::RaftMessage(tombstone(local_region.id, peer, region.region_epoch)),
                    ),
                ]
            } else {
                seq![
                    counted,
                    ActionView::Log(
                        Notice::PeerValid { region_id: local_region.id, peer_id: peer.id },
                    ),
                    ActionView::Count(Counter::PdValidatePeer(Verdict::PeerValid)),
                ]
            }
        },
        RegionLookupView::Missing => Seq::empty(),
        RegionLookupView::Failed => seq![ActionView::Log(Notice::GetRegionFailed)],
    }
}

/// The command that a heartbeat response asks for, if it asks for one. A
/// change of membership goes before a transfer of leadership.
pub open spec fn directive_command(response: RegionHeartbeatResponse) -> Option<AdminRequestView> {
    match response.change_peer {
        Some(change) => Some(
            AdminRequestView::ChangePeer { change_type: change.change_type, peer: change.peer },
        ),
        None => match response.transfer_leader {
            Some(transfer) => Some(AdminRequestView::TransferLeader { peer: transfer.peer }),
            None => None,
        },
    }
}

/// A heartbeat response came by the stream. It is counted; a directive in it
/// is counted by its kind and becomes one command for the region, at the
/// epoch and for the peer that the response names, without a callback.
pub open spec fn directive_steps<E, C>(response: RegionHeartbeatResponse) -> Seq<ActionView<E, C>> {
    let counted = ActionView::Count(Counter::PdRequest(PdRequest::Heartbeat, Outcome::Success));
    match response.change_peer {
        Some(change) => seq![
            counted,
            ActionView::Count(Counter::PdHeartbeat(DirectiveKind::ChangePeer)),
            ActionView::Log(
                Notice::ChangePeer {
                    region_id: response.region_id,
                    change_type: change.change_type,
                    peer: change.peer,
                },
            ),
            ActionView::Send(
                admin_msg(
                    response.region_id,
                    response.region_epoch,
                    response.target_peer,
                    AdminRequestView::ChangePeer {
                        change_type: change.change_type,
                        peer: change.peer,
                    },
                    None,
                ),
            ),
        ],
        None => match response.transfer_leader {
            Some(transfer) => seq![
                counted,
                ActionView::Count(Counter::PdHeartbeat(DirectiveKind::TransferLeader)),
                ActionView::Log(
                    Notice::TransferLeader {
                        region_id: response.region_id,
                        from: response.target_peer,
                        to: transfer.peer,
                    },
                ),
                ActionView::Send(
                    admin_msg(
                        response.region_id,
                        response.region_epoch,
                        response.target_peer,
                        AdminRequestView::TransferLeader { peer: transfer.peer },
                        None,
                    ),
                ),
            ],
            None => seq![counted],
        },
    }
}

/// The stream of heartbeat responses ended. An error on it is fatal.
pub open spec fn receiver_closed_steps<E, C>(store_id: u64, failed: bool) -> Seq<ActionView<E, C>> {
    if failed {
        seq![ActionView::Abort]
    } else {
        seq![ActionView::Log(Notice::ReceiverExit { store_id })]
    }
}

/// What to log when the channel refuses `msg`.
pub open spec fn rejection<C>(msg: MsgView<C>) -> Notice {
    match msg {
        MsgView::RaftCmd { request, .. } => Notice::SendAdminFailed {
            region_id: request.header.region_id,
            cmd_type: request.admin_request.cmd_type(),
        },
        MsgView::RaftMessage(message) => Notice::SendDestroyFailed { region_id: message.region_id },
    }
}

/// The first steps for a task, by its kind.
pub open spec fn task_steps<E, C>(task: TaskView<E, C>) -> Seq<ActionView<E, C>> {
    match task {
        TaskView::AskSplit { region, split_key, peer, right_derive, callback } => ask_split_steps(
            region,
            split_key,
            peer,
            right_derive,
            callback,
        ),
        TaskView::Heartbeat {
            region,
            peer,
            down_peers,
            pending_peers,
            written_bytes,
            written_keys,
            read_bytes,
            read_keys,
        } => seq![
            ActionView::MeasureRegion {
                region,
                peer,
                down_peers,
                pending_peers,
                written_bytes,
                written_keys,
                read_bytes,
                read_keys,
            },
        ],
        TaskView::StoreHeartbeat { stats, store_info } => seq![
            ActionView::ProbeStore { stats, store_info },
        ],
        TaskView::ReportSplit { left, right } => report_split_steps(left, right),
        TaskView::ValidatePeer { region, peer } => validate_peer_steps(region, peer),
    }
}

/// The subscription to the stream of heartbeat responses, where it is
/// still due.
pub open spec fn schedule_steps<E, C>(scheduled: bool, store_id: u64) -> Seq<ActionView<E, C>> {
    if scheduled {
        Seq::empty()
    } else {
        seq![ActionView::ScheduleHeartbeatReceiver { store_id }]
    }
}

/// The steps for a task: the subscription where it is due, then the task's
/// own.
pub open spec fn run_steps<E, C>(scheduled: bool, store_id: u64, task: TaskView<E, C>) -> Seq<
    ActionView<E, C>,
> {
    schedule_steps(scheduled, store_id) + task_steps(task)
}

} // verus!
