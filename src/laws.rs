//! Properties that hold across operations: subscribing, polling, stopping,
//! unsubscribing and restarting.
use vstd::prelude::*;
use crate::control::accepts_subscribe;
use crate::json::{str_field, JsonMap};
use crate::poll::{poll_record, polled, PollOutcome};
use crate::registry::{resubscribed, stopped};
use crate::subscribe::{
    restore_error, restored, snapshot, status_named, subscribe_error, subscribed, target_named,
    task_key, EventView, SubscribeStatus, TaskView,
};

verus! {

/// `e` after `n` successful polls.
pub open spec fn after_successes(e: EventView, n: nat) -> EventView
    decreases n,
{
    if n == 0 {
        e
    } else {
        polled(after_successes(e, (n - 1) as nat), PollOutcome::Success)
    }
}

/// `e` after polls that come to the outcomes `os`, in order.
pub open spec fn poll_all(e: EventView, os: Seq<PollOutcome>) -> EventView
    decreases os.len(),
{
    if os.len() == 0 {
        e
    } else {
        polled(poll_all(e, os.drop_last()), os.last())
    }
}

/// The keys of `store` that start with `prefix`, as a task listing scans
/// them.
pub open spec fn listed(store: Map<Seq<char>, TaskView>, prefix: Seq<char>) -> Set<Seq<char>> {
    store.dom().filter(|k: Seq<char>| prefix.is_prefix_of(k))
}

/// A subscription that is accepted takes the key
/// `task:<chain>:<target>:<sub_id>`, and the snapshot that subscribing stores
/// under it reads `working` at the start height.
pub proof fn lemma_subscribe_key(chain: Seq<char>, params: JsonMap, store: Map<Seq<char>, TaskView>)
    requires
        subscribe_error(params) is None,
    ensures
        ({
            let e = subscribed(chain, params);
            let s = store.insert(e.task_id, snapshot(e, Seq::empty()));
            &&& e.task_id == task_key(
                chain,
                str_field(params, "target"@)->Ok_0,
                str_field(params, "sub_id"@)->Ok_0,
            )
            &&& s.contains_key(e.task_id)
            &&& s[e.task_id].status == "working"@
            &&& s[e.task_id].curr_height == s[e.task_id].start_height
            &&& s[e.task_id].start_height == e.start_height
        }),
{
}

/// A second subscribe with the same chain, target and subscriber id as one
/// that was stored is refused as a conflict, so the stored snapshot stays
/// as the first one wrote it.
pub proof fn lemma_duplicate_subscribe(
    chain: Seq<char>,
    first: JsonMap,
    second: JsonMap,
    store: Map<Seq<char>, TaskView>,
)
    requires
        subscribe_error(first) is None,
        str_field(second, "target"@) == str_field(first, "target"@),
        str_field(second, "sub_id"@) == str_field(first, "sub_id"@),
    ensures
        ({
            let e = subscribed(chain, first);
            let s = store.insert(e.task_id, snapshot(e, Seq::empty()));
            &&& subscribe_error(second) is None ==> subscribed(chain, second).task_id == e.task_id
            &&& !accepts_subscribe(second, s.contains_key(e.task_id))
            &&& s[e.task_id] == snapshot(e, Seq::empty())
        }),
{
}

/// `n` successful polls of a working subscription raise its height by `n`
/// and keep its node.
pub proof fn lemma_successes_advance(e: EventView, n: nat)
    requires
        e.wf(),
        e.is_workable(),
        e.curr_height + n <= u64::MAX,
    ensures
        after_successes(e, n).curr_height == e.curr_height + n,
        after_successes(e, n).node_idx == e.node_idx,
        after_successes(e, n).is_workable(),
        after_successes(e, n).wf(),
    decreases n,
{
    if n > 0 {
        lemma_successes_advance(e, (n - 1) as nat);
    }
}

/// With two nodes, a failed fetch moves a fresh subscription to the second
/// node; a second failure puts it in the `Error` state and persists a
/// snapshot that records the failure.
pub proof fn lemma_two_node_failover(e: EventView, first: PollOutcome, second: PollOutcome)
    requires
        e.wf(),
        e.is_workable(),
        e.nodes.len() == 2,
        e.node_idx == 0,
        first is Transport,
        second matches PollOutcome::Transport(m) && m@.len() > 0,
    ensures
        ({
            let e1 = polled(e, first);
            let e2 = polled(e1, second);
            &&& e1.node_idx == 1
            &&& e1.is_workable()
            &&& e1.curr_height == e.curr_height
            &&& poll_record(e, first) is None
            &&& e2.status == SubscribeStatus::Error
            &&& poll_record(e1, second) matches Some(t) && t.err_msg == second->Transport_0@
                && t.err_msg.len() > 0 && t.status == "error"@
        }),
{
}

/// Once stopped, a subscription is left as it is by any polls; resubscribing
/// puts it back to work at the height it had reached, on its first node, and
/// the next success advances from there.
pub proof fn lemma_stop_then_resubscribe(e: EventView, os: Seq<PollOutcome>)
    requires
        e.wf(),
        e.curr_height < u64::MAX,
    ensures
        poll_all(stopped(e), os) == stopped(e),
        poll_all(stopped(e), os).curr_height == e.curr_height,
        resubscribed(poll_all(stopped(e), os)).curr_height == e.curr_height,
        resubscribed(poll_all(stopped(e), os)).node_idx == 0,
        resubscribed(poll_all(stopped(e), os)).is_workable(),
        polled(resubscribed(poll_all(stopped(e), os)), PollOutcome::Success).curr_height == e.curr_height + 1,
    decreases os.len(),
{
    if os.len() > 0 {
        lemma_stop_then_resubscribe(e, os.drop_last());
    }
}

/// Unsubscribing deletes the key, so no listing shows it any more and a new
/// subscribe that takes the same key is accepted.
pub proof fn lemma_unsubscribe_frees_key(
    store: Map<Seq<char>, TaskView>,
    key: Seq<char>,
    prefix: Seq<char>,
    chain: Seq<char>,
    params: JsonMap,
)
    requires
        subscribe_error(params) is None,
        subscribed(chain, params).task_id == key,
    ensures
        !store.remove(key).contains_key(key),
        !listed(store.remove(key), prefix).contains(key),
        accepts_subscribe(params, store.remove(key).contains_key(key)),
{
}

/// A restart that reloads the stored snapshot of a subscription brings back
/// its height, its status and its nodes.
pub proof fn lemma_restart_restores(e: EventView, err_msg: Seq<char>)
    requires
        e.wf(),
    ensures
        restore_error(snapshot(e, err_msg)) is None,
        restored(snapshot(e, err_msg)) == (EventView { node_idx: 0, ..e }),
        restored(snapshot(e, err_msg)).curr_height == e.curr_height,
        restored(snapshot(e, err_msg)).status == e.status,
        restored(snapshot(e, err_msg)).nodes == e.nodes,
{
    reveal_strlit("block");
    reveal_strlit("tx");
    reveal_strlit("working");
    reveal_strlit("stopped");
    reveal_strlit("error");
    assert("block"@.len() != "tx"@.len());
    assert("working"@.len() != "error"@.len());
    assert("stopped"@.len() != "error"@.len());
    assert("working"@[0] != "stopped"@[0]);
    assert(target_named(e.target.spec_value()) == Some(e.target));
    assert(status_named(e.status.spec_value()) == Some(e.status));
}

} // verus!
