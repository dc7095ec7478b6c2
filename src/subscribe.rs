//! Subscriptions: their kinds, their states, the events that poll a chain and
//! the snapshots that are persisted for them.
use vstd::prelude::*;
use crate::json::{
    get_str, get_string, get_string_vec, get_u64, str_field, str_list_field,
    u64_field, views, JsonMap,
};
use crate::text::{decimal, decimal_string};

verus! {

/// The largest number of nodes a subscription can hold: its node index is a
/// `u16`.
pub const MAX_NODES: usize = 65536;

/// Whether two strings hold the same text.
pub fn str_eq(a: &str, b: &str) -> (r: bool)
    ensures
        r == (a@ == b@),
{
    let x = String::from_str(a);
    let y = String::from_str(b);
    x == y
}

/// What each poll cycle fetches.
#[derive(Debug, Clone, Copy, PartialEq, Eq, Structural)]
pub enum SubscribeTarget {
    Block,
    Tx,
}

impl SubscribeTarget {
    pub open spec fn spec_value(self) -> Seq<char> {
        match self {
            SubscribeTarget::Block => "block"@,
            SubscribeTarget::Tx => "tx"@,
        }
    }

    /// The name of the target.
    pub fn value(&self) -> (r: String)
        ensures
            r@ == self.spec_value(),
    {
        match self {
            SubscribeTarget::Block => String::from_str("block"),
            SubscribeTarget::Tx => String::from_str("tx"),
        }
    }

    /// The target named `s`, if any.
    pub fn find(s: &str) -> (r: Option<SubscribeTarget>)
        ensures
            r == target_named(s@),
    {
        if str_eq(s, "block") {
            Some(SubscribeTarget::Block)
        } else if str_eq(s, "tx") {
            Some(SubscribeTarget::Tx)
        } else {
            None
        }
    }
}

/// The target whose name is `s`.
pub open spec fn target_named(s: Seq<char>) -> Option<SubscribeTarget> {
    if s == "block"@ {
        Some(SubscribeTarget::Block)
    } else if s == "tx"@ {
        Some(SubscribeTarget::Tx)
    } else {
        None
    }
}

/// The state of a subscription. Only a `Working` one is polled.
#[derive(Debug, Clone, Copy, PartialEq, Eq, Structural)]
pub enum SubscribeStatus {
    Working,
    Stopped,
    Error,
}

impl SubscribeStatus {
    pub open spec fn spec_value(self) -> Seq<char> {
        match self {
            SubscribeStatus::Working => "working"@,
            SubscribeStatus::Stopped => "stopped"@,
            SubscribeStatus::Error => "error"@,
        }
    }

    /// The name of the status.
    pub fn value(&self) -> (r: String)
        ensures
            r@ == self.spec_value(),
    {
        match self {
            SubscribeStatus::Working => String::from_str("working"),
            SubscribeStatus::Stopped => String::from_str("stopped"),
            SubscribeStatus::Error => String::from_str("error"),
        }
    }

    /// The status named `s`, if any.
    pub fn find(s: &str) -> (r: Option<SubscribeStatus>)
        ensures
            r == status_named(s@),
    {
        if str_eq(s, "working") {
            Some(SubscribeStatus::Working)
        } else if str_eq(s, "stopped") {
            Some(SubscribeStatus::Stopped)
        } else if str_eq(s, "error") {
            Some(SubscribeStatus::Error)
        } else {
            None
        }
    }
}

/// The status whose name is `s`.
pub open spec fn status_named(s: Seq<char>) -> Option<SubscribeStatus> {
    if s == "working"@ {
        Some(SubscribeStatus::Working)
    } else if s == "stopped"@ {
        Some(SubscribeStatus::Stopped)
    } else if s == "error"@ {
        Some(SubscribeStatus::Error)
    } else {
        None
    }
}

/// The key of a subscription: `task:<chain>:<target>:<sub_id>`.
pub open spec fn task_key(chain: Seq<char>, target: Seq<char>, sub_id: Seq<char>) -> Seq<char> {
    "task:"@ + chain + ":"@ + target + ":"@ + sub_id
}

/// Builds `task:<chain>:<target>:<sub_id>`.
pub fn make_task_id(chain: &str, target: &str, sub_id: &str) -> (r: String)
    ensures
        r@ == task_key(chain@, target@, sub_id@),
{
    let mut s = String::from_str("task:");
    s.append(chain);
    s.append(":");
    s.append(target);
    s.append(":");
    s.append(sub_id);
    s
}

/// A subscription as the poller holds it.
#[derive(Debug)]
pub struct SubscribeEvent {
    pub task_id: String,
    pub target: SubscribeTarget,
    pub chain: String,
    pub sub_id: String,
    pub start_height: u64,
    pub curr_height: u64,
    pub nodes: Vec<String>,
    pub node_idx: u16,
    pub status: SubscribeStatus,
}

/// The mathematical content of a `SubscribeEvent`.
pub struct EventView {
    pub task_id: Seq<char>,
    pub target: SubscribeTarget,
    pub chain: Seq<char>,
    pub sub_id: Seq<char>,
    pub start_height: u64,
    pub curr_height: u64,
    pub nodes: Seq<Seq<char>>,
    pub node_idx: u16,
    pub status: SubscribeStatus,
}

impl EventView {
    /// The node list is non-empty and fits the index type, the index points
    /// into it, and the height has not gone below the start.
    pub open spec fn wf(self) -> bool {
        &&& 0 < self.nodes.len() <= MAX_NODES
        &&& self.node_idx < self.nodes.len()
        &&& self.start_height <= self.curr_height
    }

    pub open spec fn is_workable(self) -> bool {
        self.status == SubscribeStatus::Working
    }

    /// Whether a node after the current one is left to fail over to.
    pub open spec fn has_fallback(self) -> bool {
        self.node_idx + 1 < self.nodes.len()
    }
}

impl View for SubscribeEvent {
    type V = EventView;

    open spec fn view(&self) -> EventView {
        EventView {
            task_id: self.task_id@,
            target: self.target,
            chain: self.chain@,
            sub_id: self.sub_id@,
            start_height: self.start_height,
            curr_height: self.curr_height,
            nodes: views(self.nodes@),
            node_idx: self.node_idx,
            status: self.status,
        }
    }
}

/// The message for a node list that is empty or too long.
pub open spec fn node_count_error(n: int) -> Option<Seq<char>> {
    if n == 0 {
        Some("nodes is empty"@)
    } else if n > MAX_NODES {
        Some("nodes has too many entries"@)
    } else {
        None
    }
}

/// Checks the number of nodes.
fn check_node_count(n: usize) -> (r: Result<(), String>)
    ensures
        r is Ok <==> node_count_error(n as int) is None,
        r matches Err(m) ==> node_count_error(n as int) == Some(m@),
{
    if n == 0 {
        Err(String::from_str("nodes is empty"))
    } else if n > MAX_NODES {
        Err(String::from_str("nodes has too many entries"))
    } else {
        Ok(())
    }
}

/// The message for a target name that names no target.
pub open spec fn bad_target_msg() -> Seq<char> {
    "target is not valid"@
}

/// The message for a status name that names no status.
pub open spec fn bad_status_msg() -> Seq<char> {
    "status is not valid"@
}

/// Why subscribing with `params` is refused, if it is: the first field, in
/// the order `sub_id`, `start_height`, `target`, `nodes`, that is missing or
/// unfit.
pub open spec fn subscribe_error(params: JsonMap) -> Option<Seq<char>> {
    if str_field(params, "sub_id"@) is Err {
        Some(str_field(params, "sub_id"@)->Err_0)
    } else if u64_field(params, "start_height"@) is Err {
        Some(u64_field(params, "start_height"@)->Err_0)
    } else if str_field(params, "target"@) is Err {
        Some(str_field(params, "target"@)->Err_0)
    } else if target_named(str_field(params, "target"@)->Ok_0) is None {
        Some(bad_target_msg())
    } else if str_list_field(params, "nodes"@) is Err {
        Some(str_list_field(params, "nodes"@)->Err_0)
    } else {
        node_count_error(str_list_field(params, "nodes"@)->Ok_0.len() as int)
    }
}

/// The subscription that `params` request on `chain`, where they are fit.
pub open spec fn subscribed(chain: Seq<char>, params: JsonMap) -> EventView {
    let sub_id = str_field(params, "sub_id"@)->Ok_0;
    let target = str_field(params, "target"@)->Ok_0;
    let start = u64_field(params, "start_height"@)->Ok_0;
    EventView {
        task_id: task_key(chain, target, sub_id),
        target: target_named(target)->Some_0,
        chain,
        sub_id,
        start_height: start,
        curr_height: start,
        nodes: str_list_field(params, "nodes"@)->Ok_0,
        node_idx: 0,
        status: SubscribeStatus::Working,
    }
}

/// The event key of a poll: `<chain>:<target>:<sub_id>:<height>`.
pub open spec fn event_key(e: EventView) -> Seq<char> {
    e.chain + ":"@ + e.target.spec_value() + ":"@ + e.sub_id + ":"@ + decimal(e.curr_height as nat)
}

impl SubscribeEvent {
    pub open spec fn wf(&self) -> bool {
        self@.wf()
    }

    /// A new working subscription on `chain` from the request fields
    /// `sub_id`, `start_height`, `target` and `nodes`.
    pub fn new(chain: String, params: &JsonMap) -> (r: Result<SubscribeEvent, String>)
        ensures
            r is Ok <==> subscribe_error(*params) is None,
            r matches Ok(e) ==> e@ == subscribed(chain@, *params) && e.wf(),
            r matches Err(m) ==> subscribe_error(*params) == Some(m@),
    {
        let sub_id = match get_string(params, "sub_id") {
            Ok(s) => s,
            Err(m) => { return Err(m); },
        };
        let start_height = match get_u64(params, "start_height") {
            Ok(n) => n,
            Err(m) => { return Err(m); },
        };
        let target_name = match get_str(params, "target") {
            Ok(s) => s,
            Err(m) => { return Err(m); },
        };
        let target = match SubscribeTarget::find(target_name) {
            Some(t) => t,
            None => { return Err(String::from_str("target is not valid")); },
        };
        let nodes = match get_string_vec(params, "nodes") {
            Ok(v) => v,
            Err(m) => { return Err(m); },
        };
        match check_node_count(nodes.len()) {
            Ok(()) => {},
            Err(m) => { return Err(m); },
        }
        let task_id = make_task_id(chain.as_str(), target_name, sub_id.as_str());
        Ok(SubscribeEvent {
            task_id,
            target,
            chain,
            sub_id,
            start_height,
            curr_height: start_height,
            nodes,
            node_idx: 0,
            status: SubscribeStatus::Working,
        })
    }

    /// Whether the poller works on this subscription.
    pub fn is_workable(&self) -> (r: bool)
        ensures
            r == self@.is_workable(),
    {
        match self.status {
            SubscribeStatus::Working => true,
            _ => false,
        }
    }

    /// The key of the poll at the current height.
    pub fn event_id(&self) -> (r: String)
        ensures
            r@ == event_key(self@),
    {
        let mut s = self.chain.clone();
        let t = self.target.value();
        s.append(":");
        s.append(t.as_str());
        s.append(":");
        s.append(self.sub_id.as_str());
        s.append(":");
        let h = decimal_string(self.curr_height);
        s.append(h.as_str());
        s
    }
}

/// Copies a list of strings.
pub fn clone_strings(v: &Vec<String>) -> (r: Vec<String>)
    ensures
        r@ == v@,
{
    let mut out: Vec<String> = Vec::new();
    let mut i: usize = 0;
    while i < v.len()
        invariant
            i <= v@.len(),
            out@ == v@.subrange(0, i as int),
        decreases v@.len() - i,
    {
        out.push(v[i].clone());
        i = i + 1;
        assert(out@ =~= v@.subrange(0, i as int));
    }
    assert(v@.subrange(0, i as int) =~= v@);
    out
}

/// The persisted snapshot of a subscription.
#[derive(Debug)]
pub struct SubscribeTask {
    pub task_id: String,
    pub target: String,
    pub chain: String,
    pub sub_id: String,
    pub start_height: u64,
    pub curr_height: u64,
    pub nodes: Vec<String>,
    pub status: String,
    pub err_msg: String,
}

/// The mathematical content of a `SubscribeTask`.
pub struct TaskView {
    pub task_id: Seq<char>,
    pub target: Seq<char>,
    pub chain: Seq<char>,
    pub sub_id: Seq<char>,
    pub start_height: u64,
    pub curr_height: u64,
    pub nodes: Seq<Seq<char>>,
    pub status: Seq<char>,
    pub err_msg: Seq<char>,
}

impl View for SubscribeTask {
    type V = TaskView;

    open spec fn view(&self) -> TaskView {
        TaskView {
            task_id: self.task_id@,
            target: self.target@,
            chain: self.chain@,
            sub_id: self.sub_id@,
            start_height: self.start_height,
            curr_height: self.curr_height,
            nodes: views(self.nodes@),
            status: self.status@,
            err_msg: self.err_msg@,
        }
    }
}

/// The snapshot of `e` with diagnostic `err_msg`.
pub open spec fn snapshot(e: EventView, err_msg: Seq<char>) -> TaskView {
    TaskView {
        task_id: e.task_id,
        target: e.target.spec_value(),
        chain: e.chain,
        sub_id: e.sub_id,
        start_height: e.start_height,
        curr_height: e.curr_height,
        nodes: e.nodes,
        status: e.status.spec_value(),
        err_msg,
    }
}

/// Why the snapshot `t` cannot be brought back as a subscription, if it
/// cannot.
pub open spec fn restore_error(t: TaskView) -> Option<Seq<char>> {
    if target_named(t.target) is None {
        Some(bad_target_msg())
    } else if status_named(t.status) is None {
        Some(bad_status_msg())
    } else if node_count_error(t.nodes.len() as int) is Some {
        node_count_error(t.nodes.len() as int)
    } else if t.curr_height < t.start_height {
        Some("curr_height is below start_height"@)
    } else {
        None
    }
}

/// The subscription that the snapshot `t` brings back, polling from its
/// first node.
pub open spec fn restored(t: TaskView) -> EventView {
    EventView {
        task_id: t.task_id,
        target: target_named(t.target)->Some_0,
        chain: t.chain,
        sub_id: t.sub_id,
        start_height: t.start_height,
        curr_height: t.curr_height,
        nodes: t.nodes,
        node_idx: 0,
        status: status_named(t.status)->Some_0,
    }
}

/// The snapshot that the stored fields `params` hold, or the message for the
/// first field that is missing or unfit.
pub open spec fn stored_task(params: JsonMap) -> Result<TaskView, Seq<char>> {
    if str_field(params, "task_id"@) is Err {
        Err(str_field(params, "task_id"@)->Err_0)
    } else if str_field(params, "target"@) is Err {
        Err(str_field(params, "target"@)->Err_0)
    } else if str_field(params, "chain"@) is Err {
        Err(str_field(params, "chain"@)->Err_0)
    } else if str_field(params, "sub_id"@) is Err {
        Err(str_field(params, "sub_id"@)->Err_0)
    } else if u64_field(params, "start_height"@) is Err {
        Err(u64_field(params, "start_height"@)->Err_0)
    } else if u64_field(params, "curr_height"@) is Err {
        Err(u64_field(params, "curr_height"@)->Err_0)
    } else if str_list_field(params, "nodes"@) is Err {
        Err(str_list_field(params, "nodes"@)->Err_0)
    } else if str_field(params, "status"@) is Err {
        Err(str_field(params, "status"@)->Err_0)
    } else {
        Ok(
            TaskView {
                task_id: str_field(params, "task_id"@)->Ok_0,
                target: str_field(params, "target"@)->Ok_0,
                chain: str_field(params, "chain"@)->Ok_0,
                sub_id: str_field(params, "sub_id"@)->Ok_0,
                start_height: u64_field(params, "start_height"@)->Ok_0,
                curr_height: u64_field(params, "curr_height"@)->Ok_0,
                nodes: str_list_field(params, "nodes"@)->Ok_0,
                status: str_field(params, "status"@)->Ok_0,
                err_msg: Seq::empty(),
            },
        )
    }
}

/// The key that subscribing with `params` on `chain` would take, or the
/// message for the first of `target`, `sub_id` that is missing or unfit.
pub open spec fn requested_key(chain: Seq<char>, params: JsonMap) -> Result<Seq<char>, Seq<char>> {
    if str_field(params, "target"@) is Err {
        Err(str_field(params, "target"@)->Err_0)
    } else if str_field(params, "sub_id"@) is Err {
        Err(str_field(params, "sub_id"@)->Err_0)
    } else {
        Ok(task_key(chain, str_field(params, "target"@)->Ok_0, str_field(params, "sub_id"@)->Ok_0))
    }
}

impl SubscribeTask {
    /// The snapshot of `sub_block` with diagnostic `err_msg`.
    pub fn from(sub_block: &SubscribeEvent, err_msg: String) -> (r: SubscribeTask)
        ensures
            r@ == snapshot(sub_block@, err_msg@),
    {
        SubscribeTask {
            task_id: sub_block.task_id.clone(),
            target: sub_block.target.value(),
            chain: sub_block.chain.clone(),
            sub_id: sub_block.sub_id.clone(),
            start_height: sub_block.start_height,
            curr_height: sub_block.curr_height,
            nodes: clone_strings(&sub_block.nodes),
            status: sub_block.status.value(),
            err_msg,
        }
    }

    /// The snapshot of `sub_block` with an empty diagnostic.
    pub fn new(sub_block: &SubscribeEvent) -> (r: SubscribeTask)
        ensures
            r@ == snapshot(sub_block@, Seq::empty()),
    {
        let empty = String::new();
        Self::from(sub_block, empty)
    }

    /// The key that subscribing with `params` on `chain` would take.
    pub fn task_id(chain: &str, params: &JsonMap) -> (r: Result<String, String>)
        ensures
            r matches Ok(k) ==> requested_key(chain@, *params) == Ok::<Seq<char>, Seq<char>>(k@),
            r matches Err(m) ==> requested_key(chain@, *params) == Err::<Seq<char>, Seq<char>>(m@),
    {
        let target = match get_str(params, "target") {
            Ok(s) => s,
            Err(m) => { return Err(m); },
        };
        let sub_id = match get_str(params, "sub_id") {
            Ok(s) => s,
            Err(m) => { return Err(m); },
        };
        Ok(make_task_id(chain, target, sub_id))
    }

    /// The snapshot held in the stored fields `params`.
    pub fn from_fields(params: &JsonMap) -> (r: Result<SubscribeTask, String>)
        ensures
            r matches Ok(t) ==> stored_task(*params) == Ok::<TaskView, Seq<char>>(t@),
            r matches Err(m) ==> stored_task(*params) == Err::<TaskView, Seq<char>>(m@),
    {
        let task_id = match get_string(params, "task_id") {
            Ok(s) => s,
            Err(m) => { return Err(m); },
        };
        let target = match get_string(params, "target") {
            Ok(s) => s,
            Err(m) => { return Err(m); },
        };
        let chain = match get_string(params, "chain") {
            Ok(s) => s,
            Err(m) => { return Err(m); },
        };
        let sub_id = match get_string(params, "sub_id") {
            Ok(s) => s,
            Err(m) => { return Err(m); },
        };
        let start_height = match get_u64(params, "start_height") {
            Ok(n) => n,
            Err(m) => { return Err(m); },
        };
        let curr_height = match get_u64(params, "curr_height") {
            Ok(n) => n,
            Err(m) => { return Err(m); },
        };
        let nodes = match get_string_vec(params, "nodes") {
            Ok(v) => v,
            Err(m) => { return Err(m); },
        };
        let status = match get_string(params, "status") {
            Ok(s) => s,
            Err(m) => { return Err(m); },
        };
        Ok(SubscribeTask {
            task_id,
            target,
            chain,
            sub_id,
            start_height,
            curr_height,
            nodes,
            status,
            err_msg: String::new(),
        })
    }
}

/// `e` after a fetch failure: the next node if one is left, else the
/// terminal `Error` state.
pub open spec fn failed_over(e: EventView) -> EventView {
    if e.has_fallback() {
        EventView { node_idx: (e.node_idx + 1) as u16, ..e }
    } else {
        EventView { status: SubscribeStatus::Error, ..e }
    }
}

impl SubscribeEvent {
    /// The subscription that the snapshot `task` brings back, polling from
    /// its first node.
    pub fn from_task(task: &SubscribeTask) -> (r: Result<SubscribeEvent, String>)
        ensures
            r is Ok <==> restore_error(task@) is None,
            r matches Ok(e) ==> e@ == restored(task@) && e.wf(),
            r matches Err(m) ==> restore_error(task@) == Some(m@),
    {
        let target = match SubscribeTarget::find(task.target.as_str()) {
            Some(t) => t,
            None => { return Err(String::from_str("target is not valid")); },
        };
        let status = match SubscribeStatus::find(task.status.as_str()) {
            Some(s) => s,
            None => { return Err(String::from_str("status is not valid")); },
        };
        match check_node_count(task.nodes.len()) {
            Ok(()) => {},
            Err(m) => { return Err(m); },
        }
        if task.curr_height < task.start_height {
            return Err(String::from_str("curr_height is below start_height"));
        }
        Ok(SubscribeEvent {
            task_id: task.task_id.clone(),
            target,
            chain: task.chain.clone(),
            sub_id: task.sub_id.clone(),
            start_height: task.start_height,
            curr_height: task.curr_height,
            nodes: clone_strings(&task.nodes),
            node_idx: 0,
            status,
        })
    }

    /// The subscription held in the stored fields `params`.
    pub fn from(params: &JsonMap) -> (r: Result<SubscribeEvent, String>)
        ensures
            r is Ok <==> (stored_task(*params) is Ok && restore_error(stored_task(*params)->Ok_0) is None),
            r matches Ok(e) ==> e@ == restored(stored_task(*params)->Ok_0) && e.wf(),
            r matches Err(m) ==> match stored_task(*params) {
                Ok(t) => restore_error(t) == Some(m@),
                Err(f) => f == m@,
            },
    {
        match SubscribeTask::from_fields(params) {
            Ok(t) => Self::from_task(&t),
            Err(m) => Err(m),
        }
    }

    /// Whether a node after the current one is left to fail over to.
    pub fn has_fallback(&self) -> (r: bool)
        ensures
            r == self@.has_fallback(),
    {
        (self.node_idx as usize) + 1 < self.nodes.len()
    }

    /// Puts the subscription in the terminal `Error` state and returns the
    /// snapshot to persist, which records `err_msg`.
    pub fn err(&mut self, err_msg: String) -> (r: SubscribeTask)
        ensures
            final(self)@ == (EventView { status: SubscribeStatus::Error, ..old(self)@ }),
            r@ == snapshot(final(self)@, err_msg@),
    {
        self.status = SubscribeStatus::Error;
        SubscribeTask::from(self, err_msg)
    }

    /// Handles a failed fetch: moves to the next node if one is left;
    /// otherwise enters the `Error` state and returns the snapshot to persist.
    pub fn handle_err(&mut self, err_msg: String) -> (r: Option<SubscribeTask>)
        requires
            old(self).wf(),
        ensures
            final(self)@ == failed_over(old(self)@),
            final(self).wf(),
            old(self)@.has_fallback() ==> r is None,
            !old(self)@.has_fallback() ==> (r matches Some(t) && t@ == snapshot(final(self)@, err_msg@)),
    {
        if self.has_fallback() {
            self.node_idx = self.node_idx + 1;
            None
        } else {
            Some(self.err(err_msg))
        }
    }
}

} // verus!
