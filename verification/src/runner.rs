//! The worker: it takes tasks and answers, and says what to do next.

use vstd::prelude::*;
use crate::command::{
    new_admin_msg, new_change_peer_request, new_destroy_peer_msg, new_split_region_request,
    new_transfer_leader_request, Msg,
};
use crate::meta::{Peer, PeerStats, Region};
use crate::metrics::{Counter, DirectiveKind, Notice, Outcome, PdRequest, StoreSize, Verdict};
use crate::model::{
    ask_split_steps, directive_steps, heartbeat_result_steps, heartbeat_steps, measured_stat,
    receiver_closed_steps, region_lookup_steps, rejection, report_split_result_steps,
    report_split_steps, run_steps, schedule_steps, split_answer_steps,
    store_heartbeat_result_steps, store_heartbeat_steps, validate_peer_steps,
};
use crate::pd::{AskSplitResponse, AskSplitResponseView, RegionHeartbeatResponse, RegionLookup, RegionStat};
use crate::store::{StoreInfo, StoreProbe, StoreStats};
use crate::task::{views, Action, ActionView, Task};

verus! {

/// The worker's own state: the store it works for, and whether it has
/// subscribed to the director's stream of heartbeat responses.
#[derive(Clone, Copy, Debug)]
pub struct Runner {
    store_id: u64,
    is_hb_receiver_scheduled: bool,
}

/// What an answer to a request for a split stands for.
pub open spec fn split_response_view(response: Option<AskSplitResponse>) -> Option<
    AskSplitResponseView,
> {
    match response {
        Some(granted) => Some(granted@),
        None => None,
    }
}

/// What to log when the channel refuses `msg`. The driver asks before it
/// sends, as the channel keeps what it is handed.
pub fn rejection_notice<C>(msg: &Msg<C>) -> (notice: Notice)
    ensures
        notice == rejection(msg@),
{
    match msg {
        Msg::RaftCmd { request, .. } => Notice::SendAdminFailed {
            region_id: request.header.region_id,
            cmd_type: request.admin_request.get_cmd_type(),
        },
        Msg::RaftMessage(message) => Notice::SendDestroyFailed { region_id: message.region_id },
    }
}

impl Runner {
    /// The store the worker works for.
    pub closed spec fn store(&self) -> u64 {
        self.store_id
    }

    /// Whether the worker has subscribed to the stream of heartbeat
    /// responses.
    pub closed spec fn scheduled(&self) -> bool {
        self.is_hb_receiver_scheduled
    }

    /// A worker for the store `store_id` that has not subscribed yet.
    pub fn new(store_id: u64) -> (runner: Runner)
        ensures
            runner.store() == store_id,
            !runner.scheduled(),
    {
        Runner { store_id, is_hb_receiver_scheduled: false }
    }

    pub fn store_id(&self) -> (id: u64)
        ensures
            id == self.store(),
    {
        self.store_id
    }

    pub fn is_hb_receiver_scheduled(&self) -> (scheduled: bool)
        ensures
            scheduled == self.scheduled(),
    {
        self.is_hb_receiver_scheduled
    }

    /// Takes one task. The first task of a worker's life also starts the
    /// subscription to the stream of heartbeat responses.
    pub fn run<E, C>(&mut self, task: Task<E, C>) -> (actions: Vec<Action<E, C>>)
        ensures
            views(actions@) == run_steps(old(self).scheduled(), old(self).store(), task@),
            final(self).store() == old(self).store(),
            final(self).scheduled(),
    {
        let ghost before = *self;
        let mut actions: Vec<Action<E, C>> = Vec::new();
        if !self.is_hb_receiver_scheduled {
            let first = self.schedule_heartbeat_receiver();
            actions.push(first);
        }
        assert(views(actions@) =~= schedule_steps::<E, C>(before.scheduled(), before.store()));
        let ghost head = actions@;
        let mut rest = match task {
            Task::AskSplit { region, split_key, peer, right_derive, callback } => {
                self.handle_ask_split(region, split_key, peer, right_derive, callback)
            },
            Task::Heartbeat {
                region,
                peer,
                down_peers,
                pending_peers,
                written_bytes,
                written_keys,
                read_bytes,
                read_keys,
            } => {
                let measure = Action::MeasureRegion {
                    region,
                    peer,
                    down_peers,
                    pending_peers,
                    written_bytes,
                    written_keys,
                    read_bytes,
                    read_keys,
                };
                let steps = vec![measure];
                assert(views(steps@) =~= seq![measure@]);
                steps
            },
            Task::StoreHeartbeat { stats, store_info } => {
                let probe = Action::ProbeStore { stats, store_info };
                let steps = vec![probe];
                assert(views(steps@) =~= seq![probe@]);
                steps
            },
            Task::ReportSplit { left, right } => self.handle_report_split(left, right),
            Task::ValidatePeer { region, peer } => self.handle_validate_peer(region, peer),
        };
        let ghost tail = rest@;
        actions.append(&mut rest);
        assert(views(actions@) =~= views(head) + views(tail));
        actions
    }

    /// Marks the subscription as made and asks the driver to make it.
    pub fn schedule_heartbeat_receiver<E, C>(&mut self) -> (action: Action<E, C>)
        ensures
            action@ == (ActionView::<E, C>::ScheduleHeartbeatReceiver { store_id: old(self).store() }),
            final(self).store() == old(self).store(),
            final(self).scheduled(),
    {
        self.is_hb_receiver_scheduled = true;
        Action::ScheduleHeartbeatReceiver { store_id: self.store_id }
    }

    /// Asks the director to authorize a split.
    pub fn handle_ask_split<E, C>(
        &self,
        region: Region,
        split_key: Vec<u8>,
        peer: Peer,
        right_derive: bool,
        callback: Option<C>,
    ) -> (actions: Vec<Action<E, C>>)
        ensures
            views(actions@) == ask_split_steps::<E, C>(
                region@,
                split_key@,
                peer,
                right_derive,
                callback,
            ),
    {
        let count = Action::Count(Counter::PdRequest(PdRequest::AskSplit, Outcome::All));
        let ask = Action::AskSplit { region, split_key, peer, right_derive, callback };
        let actions = vec![count, ask];
        assert(views(actions@) =~= seq![count@, ask@]);
        actions
    }

    /// Takes the director's answer to a request for a split; `None` where
    /// the request failed.
    pub fn on_ask_split_response<E, C>(
        &self,
        region: Region,
        split_key: Vec<u8>,
        peer: Peer,
        right_derive: bool,
        callback: Option<C>,
        response: Option<AskSplitResponse>,
    ) -> (actions: Vec<Action<E, C>>)
        ensures
            views(actions@) == split_answer_steps::<E, C>(
                region@,
                split_key@,
                peer,
                right_derive,
                callback,
                split_response_view(response),
            ),
    {
        match response {
            Some(granted) => {
                let log = Action::Log(
                    Notice::SplitGranted {
                        region_id: region.id,
                        new_region_id: granted.new_region_id,
                    },
                );
                let count = Action::Count(
                    Counter::PdRequest(PdRequest::AskSplit, Outcome::Success),
                );
                let req = new_split_region_request(
                    split_key,
                    granted.new_region_id,
                    granted.new_peer_ids,
                    right_derive,
                );
                let send = Action::Send(
                    new_admin_msg(region.id, region.region_epoch, peer, req, callback),
                );
                let actions = vec![log, count, send];
                assert(views(actions@) =~= seq![log@, count@, send@]);
                actions
            },
            None => {
                let log = Action::Log(Notice::AskSplitFailed { region_id: region.id });
                let actions = vec![log];
                assert(views(actions@) =~= seq![log@]);
                actions
            },
        }
    }

    /// Takes the engine's reading of a region's size, `None` where it read
    /// none, and sends the region heartbeat.
    pub fn on_region_size<E, C>(
        &self,
        region: Region,
        peer: Peer,
        down_peers: Vec<PeerStats>,
        pending_peers: Vec<Peer>,
        written_bytes: u64,
        written_keys: u64,
        read_bytes: u64,
        read_keys: u64,
        approximate_size: Option<u64>,
    ) -> (actions: Vec<Action<E, C>>)
        ensures
            views(actions@) == heartbeat_steps::<E, C>(
                region@,
                peer,
                measured_stat(
                    down_peers@,
                    pending_peers@,
                    written_bytes,
                    written_keys,
                    read_bytes,
                    read_keys,
                    approximate_size,
                ),
            ),
    {
        let size = match approximate_size {
            Some(size) => size,
            None => 0,
        };
        let region_stat = RegionStat::new(
            down_peers,
            pending_peers,
            written_bytes,
            written_keys,
            read_bytes,
            read_keys,
            size,
        );
        self.handle_heartbeat(region, peer, region_stat)
    }

    /// Sends a region heartbeat.
    pub fn handle_heartbeat<E, C>(&self, region: Region, peer: Peer, region_stat: RegionStat) -> (actions:
        Vec<Action<E, C>>)
        ensures
            views(actions@) == heartbeat_steps::<E, C>(region@, peer, region_stat@),
    {
        let count = Action::Count(Counter::PdRequest(PdRequest::Heartbeat, Outcome::All));
        let beat = Action::RegionHeartbeat { region, peer, region_stat };
        let actions = vec![count, beat];
        assert(views(actions@) =~= seq![count@, beat@]);
        actions
    }

    /// Takes the outcome of sending a region heartbeat.
    pub fn on_heartbeat_result<E, C>(&self, region_id: u64, sent: bool) -> (actions: Vec<
        Action<E, C>,
    >)
        ensures
            views(actions@) == heartbeat_result_steps::<E, C>(region_id, sent),
    {
        let mut actions: Vec<Action<E, C>> = Vec::new();
        if !sent {
            actions.push(Action::Log(Notice::HeartbeatFailed { region_id }));
        }
        assert(views(actions@) =~= heartbeat_result_steps::<E, C>(region_id, sent));
        actions
    }

    /// Takes the readings for a store heartbeat, `None` where the
    /// filesystem could not be read, and sends the heartbeat.
    pub fn handle_store_heartbeat<E, C>(
        &self,
        stats: StoreStats,
        store_info: StoreInfo<E>,
        probe: Option<StoreProbe>,
    ) -> (actions: Vec<Action<E, C>>)
        requires
            probe matches Some(read) ==> stats.used_size + read.engine_used <= u64::MAX,
        ensures
            views(actions@) == store_heartbeat_steps::<E, C>(stats, store_info.capacity, probe),
    {
        let mut actions: Vec<Action<E, C>> = Vec::new();
        match probe {
            None => {
                actions.push(Action::Log(Notice::DiskStatFailed));
            },
            Some(read) => {
                let done = stats.complete(store_info.capacity, read);
                if done.capacity <= done.used_size {
                    actions.push(Action::Log(Notice::NoAvailableSpace));
                }
                actions.push(Action::SetGauge { kind: StoreSize::Capacity, value: done.capacity });
                actions.push(
                    Action::SetGauge { kind: StoreSize::Available, value: done.available },
                );
                actions.push(Action::StoreHeartbeat { stats: done });
            },
        }
        assert(views(actions@) =~= store_heartbeat_steps::<E, C>(
            stats,
            store_info.capacity,
            probe,
        ));
        actions
    }

    /// Takes the outcome of sending a store heartbeat.
    pub fn on_store_heartbeat_result<E, C>(&self, sent: bool) -> (actions: Vec<Action<E, C>>)
        ensures
            views(actions@) == store_heartbeat_result_steps::<E, C>(sent),
    {
        let mut actions: Vec<Action<E, C>> = Vec::new();
        if !sent {
            actions.push(Action::Log(Notice::StoreHeartbeatFailed));
        }
        assert(views(actions@) =~= store_heartbeat_result_steps::<E, C>(sent));
        actions
    }

    /// Tells the director that a split was applied.
    pub fn handle_report_split<E, C>(&self, left: Region, right: Region) -> (actions: Vec<
        Action<E, C>,
    >)
        ensures
            views(actions@) == report_split_steps::<E, C>(left@, right@),
    {
        let count = Action::Count(Counter::PdRequest(PdRequest::ReportSplit, Outcome::All));
        let report = Action::ReportSplit { left, right };
        let actions = vec![count, report];
        assert(views(actions@) =~= seq![count@, report@]);
        actions
    }

    /// Takes the outcome of reporting a split.
    pub fn on_report_split_result<E, C>(&self, reported: bool) -> (actions: Vec<Action<E, C>>)
        ensures
            views(actions@) == report_split_result_steps::<E, C>(reported),
    {
        let action = if reported {
            Action::Count(Counter::PdRequest(PdRequest::ReportSplit, Outcome::Success))
        } else {
            Action::Log(Notice::ReportSplitFailed)
        };
        let actions = vec![action];
        assert(views(actions@) =~= seq![action@]);
        actions
    }

    /// Asks the director whether `peer` still belongs to its region.
    pub fn handle_validate_peer<E, C>(&self, local_region: Region, peer: Peer) -> (actions: Vec<
        Action<E, C>,
    >)
        ensures
            views(actions@) == validate_peer_steps::<E, C>(local_region@, peer),
    {
        let count = Action::Count(Counter::PdRequest(PdRequest::GetRegion, Outcome::All));
        let get = Action::GetRegionById { region: local_region, peer };
        let actions = vec![count, get];
        assert(views(actions@) =~= seq![count@, get@]);
        actions
    }

    /// Takes the director's answer to the lookup of a region.
    pub fn on_region_lookup<E, C>(&self, local_region: Region, peer: Peer, lookup: RegionLookup) -> (actions:
        Vec<Action<E, C>>)
        ensures
            views(actions@) == region_lookup_steps::<E, C>(local_region@, peer, lookup@),
    {
        let mut actions: Vec<Action<E, C>> = Vec::new();
        match lookup {
            RegionLookup::Found { region: pd_region, local_is_fresher } => {
                actions.push(
                    Action::Count(Counter::PdRequest(PdRequest::GetRegion, Outcome::Success)),
                );
                if local_is_fresher {
                    actions.push(
                        Action::Log(
                            Notice::EpochAhead {
                                region_id: local_region.id,
                                peer_id: peer.id,
                                local_epoch: local_region.region_epoch,
                                pd_epoch: pd_region.region_epoch,
                            },
                        ),
                    );
                    actions.push(Action::Count(Counter::PdValidatePeer(Verdict::RegionEpochError)));
                } else if !pd_region.has_peer(&peer) {
                    actions.push(
                        Action::Log(
                            Notice::PeerObsolete { region_id: local_region.id, peer_id: peer.id },
                        ),
                    );
                    actions.push(Action::Count(Counter::PdValidatePeer(Verdict::PeerStale)));
                    actions.push(Action::Send(new_destroy_peer_msg(&local_region, peer, &pd_region)));
                } else {
                    actions.push(
                        Action::Log(
                            Notice::PeerValid { region_id: local_region.id, peer_id: peer.id },
                        ),
                    );
                    actions.push(Action::Count(Counter::PdValidatePeer(Verdict::PeerValid)));
                }
            },
            RegionLookup::Missing => {},
            RegionLookup::Failed => {
                actions.push(Action::Log(Notice::GetRegionFailed));
            },
        }
        assert(views(actions@) =~= region_lookup_steps::<E, C>(local_region@, peer, lookup@));
        actions
    }

    /// Takes one message of the stream of heartbeat responses.
    pub fn on_heartbeat_response<E, C>(&self, response: RegionHeartbeatResponse) -> (actions: Vec<
        Action<E, C>,
    >)
        ensures
            views(actions@) == directive_steps::<E, C>(response),
    {
        let mut actions: Vec<Action<E, C>> = Vec::new();
        actions.push(Action::Count(Counter::PdRequest(PdRequest::Heartbeat, Outcome::Success)));
        let region_id = response.region_id;
        let epoch = response.region_epoch;
        let peer = response.target_peer;
        match response.change_peer {
            Some(change) => {
                actions.push(Action::Count(Counter::PdHeartbeat(DirectiveKind::ChangePeer)));
                actions.push(
                    Action::Log(
                        Notice::ChangePeer {
                            region_id,
                            change_type: change.change_type,
                            peer: change.peer,
                        },
                    ),
                );
                let req = new_change_peer_request(change.change_type, change.peer);
                actions.push(Action::Send(new_admin_msg(region_id, epoch, peer, req, None)));
            },
            None => match response.transfer_leader {
                Some(transfer) => {
                    actions.push(
                        Action::Count(Counter::PdHeartbeat(DirectiveKind::TransferLeader)),
                    );
                    actions.push(
                        Action::Log(
                            Notice::TransferLeader { region_id, from: peer, to: transfer.peer },
                        ),
                    );
                    let req = new_transfer_leader_request(transfer.peer);
                    actions.push(Action::Send(new_admin_msg(region_id, epoch, peer, req, None)));
                },
                None => {},
            },
        }
        assert(views(actions@) =~= directive_steps::<E, C>(response));
        actions
    }

    /// Takes the end of the stream of heartbeat responses.
    pub fn on_receiver_closed<E, C>(&self, failed: bool) -> (actions: Vec<Action<E, C>>)
        ensures
            views(actions@) == receiver_closed_steps::<E, C>(self.store(), failed),
    {
        let action = if failed {
            Action::Abort
        } else {
            Action::Log(Notice::ReceiverExit { store_id: self.store_id })
        };
        let actions = vec![action];
        assert(views(actions@) =~= seq![action@]);
        actions
    }
}

} // verus!
