//! What holds of the worker's decisions on every input.

use vstd::prelude::*;
use crate::command::{admin_msg, tombstone, AdminRequestView, MsgView};
use crate::meta::{Peer, RegionView};
use crate::model::{
    directive_steps, is_obsolete, region_lookup_steps, run_steps, schedule_steps,
    split_answer_steps, task_steps,
};
use crate::pd::{AskSplitResponseView, ChangePeer, RegionHeartbeatResponse, RegionLookupView, TransferLeader};
use crate::store::{completed_stats, StoreProbe, StoreStats};
use crate::task::{sent, subscriptions, ActionView, TaskView};

verus! {

/// The steps for a run of tasks, taken one after the other by a worker for
/// `store_id` that starts out subscribed or not, as `scheduled` says.
/// After its first task a worker is subscribed.
pub open spec fn dispatched<E, C>(scheduled: bool, store_id: u64, tasks: Seq<TaskView<E, C>>) -> Seq<
    ActionView<E, C>,
>
    decreases tasks.len(),
{
    if tasks.len() == 0 {
        Seq::empty()
    } else {
        let earlier = tasks.drop_last();
        dispatched(scheduled, store_id, earlier) + run_steps(
            scheduled || earlier.len() > 0,
            store_id,
            tasks.last(),
        )
    }
}

/// One more step adds its message, if it sends one.
pub proof fn lemma_sent_push<E, C>(actions: Seq<ActionView<E, C>>, next: ActionView<E, C>)
    ensures
        sent(actions.push(next)) == match next {
            ActionView::Send(msg) => sent(actions).push(msg),
            _ => sent(actions),
        },
{
    assert(actions.push(next).drop_last() =~= actions);
}

/// One more step adds a subscription, if it is one.
pub proof fn lemma_subscriptions_push<E, C>(actions: Seq<ActionView<E, C>>, next: ActionView<E, C>)
    ensures
        subscriptions(actions.push(next)) == match next {
            ActionView::ScheduleHeartbeatReceiver { .. } => subscriptions(actions) + 1,
            _ => subscriptions(actions),
        },
{
    assert(actions.push(next).drop_last() =~= actions);
}

/// The subscriptions of two lists of steps add up.
pub proof fn lemma_subscriptions_concat<E, C>(
    first: Seq<ActionView<E, C>>,
    second: Seq<ActionView<E, C>>,
)
    ensures
        subscriptions(first + second) == subscriptions(first) + subscriptions(second),
    decreases second.len(),
{
    if second.len() == 0 {
        assert(first + second =~= first);
    } else {
        lemma_subscriptions_concat(first, second.drop_last());
        assert((first + second).drop_last() =~= first + second.drop_last());
        assert((first + second).last() == second.last());
    }
}

/// No task subscribes by itself.
pub proof fn lemma_task_never_subscribes<E, C>(task: TaskView<E, C>)
    ensures
        subscriptions(task_steps(task)) == 0,
{
    let steps = task_steps(task);
    let none = Seq::<ActionView<E, C>>::empty();
    if steps.len() == 1 {
        assert(steps =~= none.push(steps[0]));
        lemma_subscriptions_push(none, steps[0]);
    } else {
        assert(steps =~= none.push(steps[0]).push(steps[1]));
        lemma_subscriptions_push(none, steps[0]);
        lemma_subscriptions_push(none.push(steps[0]), steps[1]);
    }
}

/// One task subscribes exactly when the worker has not done so before.
pub proof fn lemma_run_subscribes_when_due<E, C>(scheduled: bool, store_id: u64, task: TaskView<E, C>)
    ensures
        subscriptions(run_steps(scheduled, store_id, task)) == if scheduled {
            0nat
        } else {
            1nat
        },
{
    let head = schedule_steps::<E, C>(scheduled, store_id);
    let none = Seq::<ActionView<E, C>>::empty();
    if !scheduled {
        assert(head =~= none.push(head[0]));
        lemma_subscriptions_push(none, head[0]);
    }
    lemma_task_never_subscribes(task);
    lemma_subscriptions_concat(head, task_steps(task));
}

/// Over any run of tasks a worker subscribes to the stream of heartbeat
/// responses exactly once if it starts out unsubscribed and has a task to
/// take, and never otherwise.
pub proof fn lemma_subscribed_exactly_once<E, C>(
    scheduled: bool,
    store_id: u64,
    tasks: Seq<TaskView<E, C>>,
)
    ensures
        subscriptions(dispatched(scheduled, store_id, tasks)) == if !scheduled && tasks.len() > 0 {
            1nat
        } else {
            0nat
        },
    decreases tasks.len(),
{
    if tasks.len() > 0 {
        let earlier = tasks.drop_last();
        lemma_subscribed_exactly_once(scheduled, store_id, earlier);
        lemma_run_subscribes_when_due(scheduled || earlier.len() > 0, store_id, tasks.last());
        lemma_subscriptions_concat(
            dispatched(scheduled, store_id, earlier),
            run_steps(scheduled || earlier.len() > 0, store_id, tasks.last()),
        );
    }
}

/// The available space that a store heartbeat reports is never above what
/// the filesystem has free, nor above what the reported capacity leaves
/// after the reported used size.
pub proof fn lemma_available_is_bounded(stats: StoreStats, configured: u64, probe: StoreProbe)
    requires
        stats.used_size + probe.engine_used <= u64::MAX,
    ensures
        ({
            let done = completed_stats(stats, configured, probe);
            &&& done.available <= probe.disk_free
            &&& done.available <= if done.capacity > done.used_size {
                done.capacity - done.used_size
            } else {
                0
            }
        }),
{
}

/// A store without a configured capacity reports the size of its disk.
pub proof fn lemma_unbounded_capacity_is_disk(stats: StoreStats, configured: u64, probe: StoreProbe)
    requires
        configured == 0,
    ensures
        completed_stats(stats, configured, probe).capacity == probe.disk_total,
{
}

/// A store with a configured capacity reports the smaller of it and the
/// size of its disk.
pub proof fn lemma_bounded_capacity_is_min(stats: StoreStats, configured: u64, probe: StoreProbe)
    requires
        configured > 0,
    ensures
        completed_stats(stats, configured, probe).capacity == if configured <= probe.disk_total {
            configured
        } else {
            probe.disk_total
        },
{
}

/// The fields of the stats that the worker does not compute reach the
/// director as the caller set them.
pub proof fn lemma_other_stats_pass_through(stats: StoreStats, configured: u64, probe: StoreProbe)
    ensures
        ({
            let done = completed_stats(stats, configured, probe);
            done == StoreStats {
                capacity: done.capacity,
                used_size: done.used_size,
                available: done.available,
                ..stats
            }
        }),
{
}

/// A granted split puts exactly one command on the channel: the split at
/// the task's key with the ids that the director named, for the region at
/// its epoch, addressed to the peer that asked, with the task's callback.
pub proof fn lemma_granted_split_sends_one_command<E, C>(
    region: RegionView,
    split_key: Seq<u8>,
    peer: Peer,
    right_derive: bool,
    callback: Option<C>,
    granted: AskSplitResponseView,
)
    ensures
        sent(
            split_answer_steps::<E, C>(region, split_key, peer, right_derive, callback, Some(granted)),
        ) == seq![
            admin_msg(
                region.id,
                region.region_epoch,
                peer,
                AdminRequestView::Split {
                    split_key,
                    new_region_id: granted.new_region_id,
                    new_peer_ids: granted.new_peer_ids,
                    right_derive,
                },
                callback,
            ),
        ],
{
    let steps = split_answer_steps::<E, C>(
        region,
        split_key,
        peer,
        right_derive,
        callback,
        Some(granted),
    );
    let none = Seq::<ActionView<E, C>>::empty();
    assert(steps =~= none.push(steps[0]).push(steps[1]).push(steps[2]));
    lemma_sent_push(none, steps[0]);
    lemma_sent_push(none.push(steps[0]), steps[1]);
    lemma_sent_push(none.push(steps[0]).push(steps[1]), steps[2]);
}

/// A request for a split that failed puts nothing on the channel.
pub proof fn lemma_refused_split_sends_nothing<E, C>(
    region: RegionView,
    split_key: Seq<u8>,
    peer: Peer,
    right_derive: bool,
    callback: Option<C>,
)
    ensures
        sent(split_answer_steps::<E, C>(region, split_key, peer, right_derive, callback, None))
            == Seq::<MsgView<C>>::empty(),
{
    let steps = split_answer_steps::<E, C>(region, split_key, peer, right_derive, callback, None);
    let none = Seq::<ActionView<E, C>>::empty();
    assert(steps =~= none.push(steps[0]));
    lemma_sent_push(none, steps[0]);
}

/// A directive to change membership puts exactly one command on the
/// channel: the change it names, for the region, epoch and peer it names.
pub proof fn lemma_change_peer_sends_one_command<E, C>(
    response: RegionHeartbeatResponse,
    change: ChangePeer,
)
    requires
        response.change_peer == Some(change),
    ensures
        sent(directive_steps::<E, C>(response)) == seq![
            admin_msg::<C>(
                response.region_id,
                response.region_epoch,
                response.target_peer,
                AdminRequestView::ChangePeer { change_type: change.change_type, peer: change.peer },
                None,
            ),
        ],
{
    let steps = directive_steps::<E, C>(response);
    let none = Seq::<ActionView<E, C>>::empty();
    assert(steps =~= none.push(steps[0]).push(steps[1]).push(steps[2]).push(steps[3]));
    lemma_sent_push(none, steps[0]);
    lemma_sent_push(none.push(steps[0]), steps[1]);
    lemma_sent_push(none.push(steps[0]).push(steps[1]), steps[2]);
    lemma_sent_push(none.push(steps[0]).push(steps[1]).push(steps[2]), steps[3]);
}

/// A directive to move leadership puts exactly one command on the channel:
/// the transfer to the peer it names, for the region, epoch and peer it
/// addresses.
pub proof fn lemma_transfer_leader_sends_one_command<E, C>(
    response: RegionHeartbeatResponse,
    transfer: TransferLeader,
)
    requires
        response.change_peer is None,
        response.transfer_leader == Some(transfer),
    ensures
        sent(directive_steps::<E, C>(response)) == seq![
            admin_msg::<C>(
                response.region_id,
                response.region_epoch,
                response.target_peer,
                AdminRequestView::TransferLeader { peer: transfer.peer },
                None,
            ),
        ],
{
    let steps = directive_steps::<E, C>(response);
    let none = Seq::<ActionView<E, C>>::empty();
    assert(steps =~= none.push(steps[0]).push(steps[1]).push(steps[2]).push(steps[3]));
    lemma_sent_push(none, steps[0]);
    lemma_sent_push(none.push(steps[0]), steps[1]);
    lemma_sent_push(none.push(steps[0]).push(steps[1]), steps[2]);
    lemma_sent_push(none.push(steps[0]).push(steps[1]).push(steps[2]), steps[3]);
}

/// A heartbeat response without a directive puts nothing on the channel.
pub proof fn lemma_plain_response_sends_nothing<E, C>(response: RegionHeartbeatResponse)
    requires
        response.change_peer is None,
        response.transfer_leader is None,
    ensures
        sent(directive_steps::<E, C>(response)) == Seq::<MsgView<C>>::empty(),
{
    let steps = directive_steps::<E, C>(response);
    let none = Seq::<ActionView<E, C>>::empty();
    assert(steps =~= none.push(steps[0]));
    lemma_sent_push(none, steps[0]);
}

/// The validation of a peer puts a tombstone on the channel exactly when
/// the director knows the region, its epoch is not behind the local one and
/// the peer is none of the region's members. The tombstone is then all that
/// is sent; in every other case, and so where the director does not know
/// the region, nothing is.
pub proof fn lemma_tombstone_iff_obsolete<E, C>(
    local_region: RegionView,
    peer: Peer,
    lookup: RegionLookupView,
)
    ensures
        sent(region_lookup_steps::<E, C>(local_region, peer, lookup)) == if is_obsolete(
            peer,
            lookup,
        ) {
            seq![
                MsgView::<C>::RaftMessage(
                    tombstone(local_region.id, peer, lookup->region.region_epoch),
                ),
            ]
        } else {
            Seq::<MsgView<C>>::empty()
        },
        lookup is Missing ==> !is_obsolete(peer, lookup),
{
    let steps = region_lookup_steps::<E, C>(local_region, peer, lookup);
    let none = Seq::<ActionView<E, C>>::empty();
    if steps.len() == 1 {
        assert(steps =~= none.push(steps[0]));
        lemma_sent_push(none, steps[0]);
    } else if steps.len() == 3 {
        assert(steps =~= none.push(steps[0]).push(steps[1]).push(steps[2]));
        lemma_sent_push(none, steps[0]);
        lemma_sent_push(none.push(steps[0]), steps[1]);
        lemma_sent_push(none.push(steps[0]).push(steps[1]), steps[2]);
    } else if steps.len() == 4 {
        assert(steps =~= none.push(steps[0]).push(steps[1]).push(steps[2]).push(steps[3]));
        lemma_sent_push(none, steps[0]);
        lemma_sent_push(none.push(steps[0]), steps[1]);
        lemma_sent_push(none.push(steps[0]).push(steps[1]), steps[2]);
        lemma_sent_push(none.push(steps[0]).push(steps[1]).push(steps[2]), steps[3]);
    }
}

} // verus!
