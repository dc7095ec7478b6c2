//! The in-memory registry of subscriptions, the commands that change it, and
//! the writes to the persistent store that mirror each change.
use vstd::prelude::*;
use crate::poll::{block_request_text, can_poll, poll_record, polled, PollOutcome};
use crate::subscribe::{
    restore_error, restored, snapshot, EventView, SubscribeEvent, SubscribeStatus,
    SubscribeTarget, SubscribeTask, TaskView,
};

verus! {

/// A change to the subscription registry, in the order it was requested.
#[derive(Debug)]
pub enum Command {
    /// Adds a new subscription.
    Subscribe(SubscribeEvent),
    /// Removes the subscription with this key.
    Unsubscribe(String),
    /// Makes the subscription with this key work again from its first node.
    Resubscribe(String),
    /// Stops polling the subscription with this key.
    Stop(String),
}

/// A write to the persistent store.
#[derive(Debug)]
pub enum StoreOp {
    /// Stores the snapshot under the key.
    Put(String, SubscribeTask),
    /// Deletes what the key holds.
    Delete(String),
}

/// The persistent store after `op`.
pub open spec fn apply_op(store: Map<Seq<char>, TaskView>, op: StoreOp) -> Map<Seq<char>, TaskView> {
    match op {
        StoreOp::Put(k, t) => store.insert(k@, t@),
        StoreOp::Delete(k) => store.remove(k@),
    }
}

/// `e` stopped.
pub open spec fn stopped(e: EventView) -> EventView {
    EventView { status: SubscribeStatus::Stopped, ..e }
}

/// `e` working again from its first node, at the height it had reached.
pub open spec fn resubscribed(e: EventView) -> EventView {
    EventView { node_idx: 0, status: SubscribeStatus::Working, ..e }
}

/// Whether some entry of `v` has key `k`.
pub open spec fn has_key(v: Seq<EventView>, k: Seq<char>) -> bool {
    exists|i: int| 0 <= i < v.len() && (#[trigger] v[i]).task_id == k
}

/// The position of the entry of `v` with key `k`.
pub open spec fn key_at(v: Seq<EventView>, k: Seq<char>) -> int {
    choose|i: int| 0 <= i < v.len() && (#[trigger] v[i]).task_id == k
}

/// Whether no two entries of `v` share a key.
pub open spec fn keys_unique(v: Seq<EventView>) -> bool {
    forall|i: int, j: int|
        0 <= i < v.len() && 0 <= j < v.len() && i != j ==> (#[trigger] v[i]).task_id != (#[trigger] v[j]).task_id
}

/// `v` with the entry of key `k` passed through `f`, where there is one.
pub open spec fn update_key(v: Seq<EventView>, k: Seq<char>, f: spec_fn(EventView) -> EventView) -> Seq<EventView> {
    if has_key(v, k) {
        v.update(key_at(v, k), f(v[key_at(v, k)]))
    } else {
        v
    }
}

/// What the next poll of a subscription asks for, and of which node.
#[derive(Debug)]
pub struct PollRequest {
    pub url: String,
    pub body: String,
    pub target: SubscribeTarget,
}

/// The subscriptions, one entry per key.
pub struct Registry {
    pub events: Vec<SubscribeEvent>,
}

impl Registry {
    /// The entries as views, in order.
    pub open spec fn entries(&self) -> Seq<EventView> {
        self.events@.map_values(|e: SubscribeEvent| e@)
    }

    pub open spec fn wf(&self) -> bool {
        &&& keys_unique(self.entries())
        &&& forall|i: int| 0 <= i < self.entries().len() ==> (#[trigger] self.entries()[i]).wf()
    }

    /// An empty registry.
    pub fn new() -> (r: Registry)
        ensures
            r.wf(),
            r.entries().len() == 0,
    {
        Registry { events: Vec::new() }
    }

    /// The number of subscriptions.
    pub fn len(&self) -> (r: usize)
        ensures
            r == self.entries().len(),
    {
        self.events.len()
    }

    /// The position of the subscription with key `task_id`.
    pub fn find(&self, task_id: &str) -> (r: Option<usize>)
        requires
            self.wf(),
        ensures
            r is Some <==> has_key(self.entries(), task_id@),
            r matches Some(i) ==> i == key_at(self.entries(), task_id@),
    {
        let k = String::from_str(task_id);
        let mut i: usize = 0;
        while i < self.events.len()
            invariant
                self.wf(),
                i <= self.events@.len(),
                k@ == task_id@,
                forall|j: int| 0 <= j < i ==> (#[trigger] self.entries()[j]).task_id != task_id@,
            decreases self.events@.len() - i,
        {
            if self.events[i].task_id == k {
                proof {
                    assert(self.entries()[i as int].task_id == task_id@);
                    let c = key_at(self.entries(), task_id@);
                    assert(self.entries()[c].task_id == task_id@);
                    assert(c == i);
                }
                return Some(i);
            }
            assert(self.entries()[i as int].task_id != task_id@);
            i = i + 1;
        }
        None
    }

    /// The subscription with key `task_id`.
    pub fn get(&self, task_id: &str) -> (r: Option<&SubscribeEvent>)
        requires
            self.wf(),
        ensures
            r is Some <==> has_key(self.entries(), task_id@),
            r matches Some(e) ==> e@ == self.entries()[key_at(self.entries(), task_id@)],
    {
        match self.find(task_id) {
            Some(i) => Some(&self.events[i]),
            None => None,
        }
    }

    /// Puts `e` in the registry, in place of the entry with its key if there
    /// is one.
    pub fn upsert(&mut self, e: SubscribeEvent)
        requires
            old(self).wf(),
            e.wf(),
        ensures
            final(self).wf(),
            has_key(old(self).entries(), e@.task_id) ==> final(self).entries() == old(self).entries().update(
                key_at(old(self).entries(), e@.task_id),
                e@,
            ),
            !has_key(old(self).entries(), e@.task_id) ==> final(self).entries() == old(self).entries().push(e@),
    {
        let ghost ev = e@;
        match self.find(e.task_id.as_str()) {
            Some(i) => {
                self.events.set(i, e);
                assert(self.entries() =~= old(self).entries().update(i as int, ev));
            },
            None => {
                self.events.push(e);
                assert(self.entries() =~= old(self).entries().push(ev));
            },
        }
    }

    /// Removes the subscription with key `task_id`, if there is one.
    pub fn remove(&mut self, task_id: &str) -> (r: Option<SubscribeEvent>)
        requires
            old(self).wf(),
        ensures
            final(self).wf(),
            r is Some <==> has_key(old(self).entries(), task_id@),
            has_key(old(self).entries(), task_id@) ==> final(self).entries() == old(self).entries().remove(
                key_at(old(self).entries(), task_id@),
            ),
            !has_key(old(self).entries(), task_id@) ==> final(self).entries() == old(self).entries(),
            !has_key(final(self).entries(), task_id@),
    {
        match self.find(task_id) {
            Some(i) => {
                let e = self.events.remove(i);
                assert(self.entries() =~= old(self).entries().remove(i as int));
                proof {
                    assert forall|j: int| 0 <= j < self.entries().len() implies (#[trigger] self.entries()[j]).task_id != task_id@ by {
                        if j < i {
                            assert(self.entries()[j] == old(self).entries()[j]);
                        } else {
                            assert(self.entries()[j] == old(self).entries()[j + 1]);
                        }
                    }
                }
                Some(e)
            },
            None => None,
        }
    }
}

impl Registry {
    /// Takes the subscription at `i` out, leaving a hole that `put_back` fills.
    fn take(&mut self, i: usize) -> (r: SubscribeEvent)
        requires
            i < old(self).events@.len(),
        ensures
            r == old(self).events@[i as int],
            final(self).events@ == old(self).events@.remove(i as int),
    {
        self.events.remove(i)
    }

    /// Puts `e` back at `i` in place of the entry that `take` took out there.
    fn put_back(&mut self, i: usize, e: SubscribeEvent, Ghost(before): Ghost<Registry>)
        requires
            before.wf(),
            i < before.events@.len(),
            old(self).events@ == before.events@.remove(i as int),
            e@.task_id == before.entries()[i as int].task_id,
            e.wf(),
        ensures
            final(self).wf(),
            final(self).entries() == before.entries().update(i as int, e@),
    {
        let ghost ev = e@;
        self.events.insert(i, e);
        assert(self.events@ =~= before.events@.update(i as int, self.events@[i as int]));
        assert(self.entries() =~= before.entries().update(i as int, ev));
        assert forall|a: int, b: int|
            0 <= a < self.entries().len() && 0 <= b < self.entries().len() && a != b
            implies (#[trigger] self.entries()[a]).task_id != (#[trigger] self.entries()[b]).task_id by {
            assert(self.entries()[a].task_id == before.entries()[a].task_id);
            assert(self.entries()[b].task_id == before.entries()[b].task_id);
        }
        assert forall|a: int| 0 <= a < self.entries().len() implies (#[trigger] self.entries()[a]).wf() by {
            if a != i {
                assert(self.entries()[a] == before.entries()[a]);
            }
        }
    }

    /// Applies one command and returns the write that mirrors it in the
    /// persistent store, if any. A command for a key the registry does not
    /// hold changes nothing; an unsubscribe still deletes the stored record.
    pub fn dispatch(&mut self, cmd: Command) -> (r: Option<StoreOp>)
        requires
            old(self).wf(),
            cmd matches Command::Subscribe(e) ==> e.wf(),
        ensures
            final(self).wf(),
            match cmd {
                Command::Subscribe(e) => {
                    &&& has_key(old(self).entries(), e@.task_id) ==> final(self).entries()
                        == old(self).entries().update(key_at(old(self).entries(), e@.task_id), e@)
                    &&& !has_key(old(self).entries(), e@.task_id) ==> final(self).entries()
                        == old(self).entries().push(e@)
                    &&& r matches Some(StoreOp::Put(k, t)) && k@ == e@.task_id && t@ == snapshot(e@, Seq::empty())
                },
                Command::Unsubscribe(k) => {
                    &&& has_key(old(self).entries(), k@) ==> final(self).entries() == old(self).entries().remove(
                        key_at(old(self).entries(), k@),
                    )
                    &&& !has_key(old(self).entries(), k@) ==> final(self).entries() == old(self).entries()
                    &&& r matches Some(StoreOp::Delete(d)) && d@ == k@
                },
                Command::Resubscribe(k) => {
                    &&& final(self).entries() == update_key(old(self).entries(), k@, |e: EventView| resubscribed(e))
                    &&& has_key(old(self).entries(), k@) ==> (r matches Some(StoreOp::Put(p, t)) && p@ == k@
                        && t@ == snapshot(final(self).entries()[key_at(old(self).entries(), k@)], Seq::empty()))
                    &&& !has_key(old(self).entries(), k@) ==> r is None
                },
                Command::Stop(k) => {
                    &&& final(self).entries() == update_key(old(self).entries(), k@, |e: EventView| stopped(e))
                    &&& has_key(old(self).entries(), k@) ==> (r matches Some(StoreOp::Put(p, t)) && p@ == k@
                        && t@ == snapshot(final(self).entries()[key_at(old(self).entries(), k@)], Seq::empty()))
                    &&& !has_key(old(self).entries(), k@) ==> r is None
                },
            },
    {
        match cmd {
            Command::Subscribe(e) => {
                let key = e.task_id.clone();
                let task = SubscribeTask::new(&e);
                self.upsert(e);
                Some(StoreOp::Put(key, task))
            },
            Command::Unsubscribe(k) => {
                let _ = self.remove(k.as_str());
                Some(StoreOp::Delete(k))
            },
            Command::Resubscribe(k) => match self.find(k.as_str()) {
                Some(i) => {
                    let ghost before = *self;
                    let mut e = self.take(i);
                    e.node_idx = 0;
                    e.status = SubscribeStatus::Working;
                    let task = SubscribeTask::new(&e);
                    self.put_back(i, e, Ghost(before));
                    Some(StoreOp::Put(k, task))
                },
                None => None,
            },
            Command::Stop(k) => match self.find(k.as_str()) {
                Some(i) => {
                    let ghost before = *self;
                    let mut e = self.take(i);
                    e.status = SubscribeStatus::Stopped;
                    let task = SubscribeTask::new(&e);
                    self.put_back(i, e, Ghost(before));
                    Some(StoreOp::Put(k, task))
                },
                None => None,
            },
        }
    }
}

impl Registry {
    /// What the next poll of the subscription at `i` asks for: nothing when
    /// it is not working or its height cannot grow further.
    pub fn poll_request(&self, i: usize) -> (r: Option<PollRequest>)
        requires
            self.wf(),
            i < self.entries().len(),
        ensures
            r is Some <==> (self.entries()[i as int].is_workable() && self.entries()[i as int].curr_height
                < u64::MAX),
            r matches Some(q) ==> {
                let e = self.entries()[i as int];
                &&& q.url@ == e.nodes[e.node_idx as int]
                &&& q.body@ == block_request_text(e.curr_height)
                &&& q.target == e.target
            },
    {
        let e = &self.events[i];
        assert(e@ == self.entries()[i as int]);
        if !e.is_workable() || e.curr_height == u64::MAX {
            return None;
        }
        Some(PollRequest { url: e.request_url().clone(), body: e.request_body(), target: e.target })
    }

    /// Applies the outcome of a poll of the subscription at `i` and returns
    /// the write that persists it, if any. Nothing changes when the outcome
    /// would take the height past `u64::MAX`.
    pub fn poll_at(&mut self, i: usize, outcome: PollOutcome) -> (r: Option<StoreOp>)
        requires
            old(self).wf(),
            i < old(self).entries().len(),
        ensures
            final(self).wf(),
            ({
                let e = old(self).entries()[i as int];
                if can_poll(e, outcome) {
                    &&& final(self).entries() == old(self).entries().update(i as int, polled(e, outcome))
                    &&& r is Some <==> poll_record(e, outcome) is Some
                    &&& r matches Some(op) ==> (op matches StoreOp::Put(k, t) && k@ == e.task_id
                        && poll_record(e, outcome) == Some(t@))
                } else {
                    final(self).entries() == old(self).entries() && r is None
                }
            }),
    {
        let ghost e0 = self.entries()[i as int];
        let ghost o = outcome;
        {
            let e = &self.events[i];
            assert(e@ == e0);
            let advancing = match outcome {
                PollOutcome::Success => true,
                PollOutcome::Malformed(_) => true,
                _ => false,
            };
            if e.is_workable() && advancing && e.curr_height == u64::MAX {
                return None;
            }
        }
        let ghost before = *self;
        let mut e = self.take(i);
        let saved = e.poll_step(outcome);
        let key = e.task_id.clone();
        self.put_back(i, e, Ghost(before));
        match saved {
            Some(t) => Some(StoreOp::Put(key, t)),
            None => None,
        }
    }

    /// Brings back the subscription that the stored snapshot `task` holds,
    /// in place of any entry with its key.
    pub fn restore(&mut self, task: &SubscribeTask) -> (r: Result<(), String>)
        requires
            old(self).wf(),
        ensures
            final(self).wf(),
            r is Ok <==> restore_error(task@) is None,
            r matches Err(m) ==> restore_error(task@) == Some(m@) && final(self).entries() == old(self).entries(),
            r is Ok ==> {
                let e = restored(task@);
                &&& has_key(old(self).entries(), e.task_id) ==> final(self).entries()
                    == old(self).entries().update(key_at(old(self).entries(), e.task_id), e)
                &&& !has_key(old(self).entries(), e.task_id) ==> final(self).entries()
                    == old(self).entries().push(e)
            },
    {
        match SubscribeEvent::from_task(task) {
            Ok(e) => {
                self.upsert(e);
                Ok(())
            },
            Err(m) => Err(m),
        }
    }
}

} // verus!
