//! The control operations: checking a request against the persistent store
//! and turning it into a command for the registry.
use vstd::prelude::*;
use crate::json::{get_str, str_field, JsonMap};
use crate::registry::Command;
use crate::subscribe::{subscribe_error, subscribed, SubscribeEvent};

verus! {

/// Why a control request was refused.
#[derive(Debug)]
pub enum ApiError {
    /// A field is missing or unfit.
    Invalid(String),
    /// The key is taken (subscribe) or unknown (the other operations).
    Conflict(String),
}

/// The control operations that name an existing subscription.
#[derive(Debug, Clone, Copy, PartialEq, Eq, Structural)]
pub enum TaskOp {
    Unsubscribe,
    Resubscribe,
    Stop,
}

/// The message for a subscribe whose key is taken.
pub open spec fn taken_msg(key: Seq<char>) -> Seq<char> {
    "already exist task! task_id="@ + key
}

/// The message for an operation on a key that nothing is stored under.
pub open spec fn unknown_msg(key: Seq<char>) -> Seq<char> {
    "task does not exist! task_id="@ + key
}

/// The prefix under which the stored snapshots of `chain` lie.
pub open spec fn chain_prefix(chain: Seq<char>) -> Seq<char> {
    "task:"@ + chain
}

/// Whether a subscribe with `params` is accepted, given whether a record is
/// stored under its key.
pub open spec fn accepts_subscribe(params: JsonMap, exists: bool) -> bool {
    subscribe_error(params) is None && !exists
}

/// Checks a subscribe request on `chain`. `exists` tells whether a record is
/// stored under the key the request takes. The fields are checked first.
pub fn accept_subscribe(chain: String, params: &JsonMap, exists: bool) -> (r: Result<Command, ApiError>)
    ensures
        r is Ok <==> accepts_subscribe(*params, exists),
        r matches Ok(c) ==> (c matches Command::Subscribe(e) && e@ == subscribed(chain@, *params) && e.wf()),
        r matches Err(ApiError::Invalid(m)) ==> subscribe_error(*params) == Some(m@),
        r matches Err(ApiError::Conflict(m)) ==> subscribe_error(*params) is None && exists && m@ == taken_msg(
            subscribed(chain@, *params).task_id,
        ),
{
    match SubscribeEvent::new(chain, params) {
        Err(m) => Err(ApiError::Invalid(m)),
        Ok(e) => if exists {
            let mut m = String::from_str("already exist task! task_id=");
            m.append(e.task_id.as_str());
            Err(ApiError::Conflict(m))
        } else {
            Ok(Command::Subscribe(e))
        },
    }
}

/// Checks an unsubscribe, resubscribe or stop request. `exists` tells
/// whether a record is stored under its `task_id`.
pub fn accept_task_op(op: TaskOp, params: &JsonMap, exists: bool) -> (r: Result<Command, ApiError>)
    ensures
        r is Ok <==> (str_field(*params, "task_id"@) is Ok && exists),
        r matches Ok(c) ==> {
            let k = str_field(*params, "task_id"@)->Ok_0;
            match op {
                TaskOp::Unsubscribe => c matches Command::Unsubscribe(x) && x@ == k,
                TaskOp::Resubscribe => c matches Command::Resubscribe(x) && x@ == k,
                TaskOp::Stop => c matches Command::Stop(x) && x@ == k,
            }
        },
        r matches Err(ApiError::Invalid(m)) ==> str_field(*params, "task_id"@) == Err::<Seq<char>, Seq<char>>(m@),
        r matches Err(ApiError::Conflict(m)) ==> str_field(*params, "task_id"@) is Ok && !exists && m@
            == unknown_msg(str_field(*params, "task_id"@)->Ok_0),
{
    let k = match get_str(params, "task_id") {
        Err(m) => { return Err(ApiError::Invalid(m)); },
        Ok(k) => k,
    };
    if !exists {
        let mut m = String::from_str("task does not exist! task_id=");
        m.append(k);
        return Err(ApiError::Conflict(m));
    }
    let key = String::from_str(k);
    match op {
        TaskOp::Unsubscribe => Ok(Command::Unsubscribe(key)),
        TaskOp::Resubscribe => Ok(Command::Resubscribe(key)),
        TaskOp::Stop => Ok(Command::Stop(key)),
    }
}

/// The key prefix that a task listing on `chain` scans: the given
/// `task_id`, or every snapshot of the chain when none is given.
pub fn tasks_prefix(chain: &str, params: &JsonMap) -> (r: Result<String, String>)
    ensures
        params.get_spec("task_id"@) is None ==> (r matches Ok(p) && p@ == chain_prefix(chain@)),
        params.get_spec("task_id"@) is Some ==> match r {
            Ok(p) => str_field(*params, "task_id"@) == Ok::<Seq<char>, Seq<char>>(p@),
            Err(m) => str_field(*params, "task_id"@) == Err::<Seq<char>, Seq<char>>(m@),
        },
{
    match params.get("task_id") {
        None => {
            let mut p = String::from_str("task:");
            p.append(chain);
            Ok(p)
        },
        Some(_) => match get_str(params, "task_id") {
            Ok(k) => Ok(String::from_str(k)),
            Err(m) => Err(m),
        },
    }
}

} // verus!
