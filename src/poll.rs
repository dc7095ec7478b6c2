//! One polling step of a subscription: the request it sends, how the reply is
//! classified, and how the outcome moves the subscription.
use vstd::prelude::*;
use crate::json::{get_array, JsonValue};
use crate::subscribe::{
    failed_over, snapshot, EventView, SubscribeEvent, SubscribeTarget,
    SubscribeTask, TaskView,
};
use crate::text::{hex_quantity, upper_hex};

verus! {

/// What one fetch of the block at the current height came to.
#[derive(Debug)]
pub enum PollOutcome {
    /// The block exists and is well formed.
    Success,
    /// The chain has not reached the height yet.
    NotYetProduced,
    /// A reply came but lacks what it should hold.
    Malformed(String),
    /// The fetch itself failed.
    Transport(String),
}

/// `e` after a poll that came to `o`. Only a working subscription moves.
pub open spec fn polled(e: EventView, o: PollOutcome) -> EventView {
    if !e.is_workable() {
        e
    } else {
        match o {
            PollOutcome::Success => EventView { curr_height: (e.curr_height + 1) as u64, ..e },
            PollOutcome::NotYetProduced => e,
            PollOutcome::Malformed(_) => EventView { curr_height: (e.curr_height + 1) as u64, ..e },
            PollOutcome::Transport(_) => failed_over(e),
        }
    }
}

/// The snapshot that a poll of `e` that came to `o` persists, if any: the
/// advanced state after a success, the state as it was before skipping a
/// malformed block, and the terminal state once every node has failed.
pub open spec fn poll_record(e: EventView, o: PollOutcome) -> Option<TaskView> {
    if !e.is_workable() {
        None
    } else {
        match o {
            PollOutcome::Success => Some(snapshot(polled(e, o), Seq::empty())),
            PollOutcome::NotYetProduced => None,
            PollOutcome::Malformed(_) => Some(snapshot(e, Seq::empty())),
            PollOutcome::Transport(m) => if e.has_fallback() {
                None
            } else {
                Some(snapshot(polled(e, o), m@))
            },
        }
    }
}

/// Whether the height of `e` can take the step that `o` asks for.
pub open spec fn can_poll(e: EventView, o: PollOutcome) -> bool {
    (e.is_workable() && (o is Success || o is Malformed)) ==> e.curr_height < u64::MAX
}

/// The block that a reply carries under `result`, if it is an object that
/// has one.
pub open spec fn reply_result(body: JsonValue) -> Option<JsonValue> {
    match body {
        JsonValue::Object(o) => o.get_spec("result"@),
        _ => None,
    }
}

/// Whether `block` is an object with an array under `transactions`.
pub open spec fn has_transactions(block: JsonValue) -> bool {
    match block {
        JsonValue::Object(o) => o.get_spec("transactions"@) matches Some(JsonValue::Array(_)),
        _ => false,
    }
}

/// The diagnostic recorded for a failed fetch whose error reads `m`; never
/// empty.
pub open spec fn fetch_error_text(m: Seq<char>) -> Seq<char> {
    if m.len() == 0 {
        "request failed"@
    } else {
        m
    }
}

/// Whether `o` is the outcome that the reply `reply` to a fetch for
/// `target` comes to.
pub open spec fn classified(target: SubscribeTarget, reply: Result<JsonValue, String>, o: PollOutcome) -> bool {
    match reply {
        Err(m) => o matches PollOutcome::Transport(x) && x@ == fetch_error_text(m@),
        Ok(body) => match reply_result(body) {
            None => o is Malformed,
            Some(JsonValue::Null) => o is NotYetProduced,
            Some(block) => if target == SubscribeTarget::Tx && !has_transactions(block) {
                o is Malformed
            } else {
                o is Success
            },
        },
    }
}

/// The JSON-RPC request body that asks for the block at `height` with its
/// transactions.
pub open spec fn block_request_text(height: u64) -> Seq<char> {
    "{\"id\":1,\"jsonrpc\":\"2.0\",\"method\":\"eth_getBlockByNumber\",\"params\":[\""@
        + "0x"@ + upper_hex(height as nat) + "\",true]}"@
}

/// Builds the request body that asks for the block at `height`.
pub fn block_request(height: u64) -> (r: String)
    ensures
        r@ == block_request_text(height),
{
    let mut s = String::from_str(
        "{\"id\":1,\"jsonrpc\":\"2.0\",\"method\":\"eth_getBlockByNumber\",\"params\":[\"",
    );
    let h = hex_quantity(height);
    proof {
        reveal_strlit("0x");
    }
    s.append(h.as_str());
    s.append("\",true]}");
    proof {
        assert(s@ =~= block_request_text(height));
    }
    s
}

/// Classifies the reply to a fetch of a block for `target`: a failed fetch,
/// no block yet (`result` is null), a block, or a reply that lacks `result`
/// or, for transactions, a `transactions` array.
pub fn classify_reply(target: SubscribeTarget, reply: &Result<JsonValue, String>) -> (r: PollOutcome)
    ensures
        classified(target, *reply, r),
        r matches PollOutcome::Transport(x) ==> x@.len() > 0,
{
    proof {
        reveal_strlit("request failed");
    }
    let body = match reply {
        Err(m) => {
            if m.as_str().unicode_len() == 0 {
                return PollOutcome::Transport(String::from_str("request failed"));
            }
            return PollOutcome::Transport(m.clone());
        },
        Ok(b) => b,
    };
    let obj = match body {
        JsonValue::Object(o) => o,
        _ => { return PollOutcome::Malformed(String::from_str("reply is not an object")); },
    };
    let block = match obj.get("result") {
        None => { return PollOutcome::Malformed(String::from_str("result does not exist")); },
        Some(b) => b,
    };
    match block {
        JsonValue::Null => PollOutcome::NotYetProduced,
        JsonValue::Object(fields) => match target {
            SubscribeTarget::Block => PollOutcome::Success,
            SubscribeTarget::Tx => match get_array(fields, "transactions") {
                Ok(_) => PollOutcome::Success,
                Err(m) => PollOutcome::Malformed(m),
            },
        },
        _ => match target {
            SubscribeTarget::Block => PollOutcome::Success,
            SubscribeTarget::Tx => PollOutcome::Malformed(String::from_str("block is not an object")),
        },
    }
}

impl SubscribeEvent {
    /// The node that the next poll asks.
    pub fn request_url(&self) -> (r: &String)
        requires
            self.wf(),
        ensures
            r@ == self@.nodes[self.node_idx as int],
    {
        &self.nodes[self.node_idx as usize]
    }

    /// The request body of the next poll.
    pub fn request_body(&self) -> (r: String)
        ensures
            r@ == block_request_text(self.curr_height),
    {
        block_request(self.curr_height)
    }

    /// Applies the outcome of one poll: a success or a malformed block
    /// advances the height, a block not yet produced changes nothing, a failed
    /// fetch fails over. Returns the snapshot to persist, if any. A
    /// subscription that is not working is left as it is.
    pub fn poll_step(&mut self, outcome: PollOutcome) -> (r: Option<SubscribeTask>)
        requires
            old(self).wf(),
            can_poll(old(self)@, outcome),
        ensures
            final(self)@ == polled(old(self)@, outcome),
            final(self).wf(),
            r is Some <==> poll_record(old(self)@, outcome) is Some,
            r matches Some(t) ==> poll_record(old(self)@, outcome) == Some(t@),
    {
        if !self.is_workable() {
            return None;
        }
        match outcome {
            PollOutcome::Success => {
                self.curr_height = self.curr_height + 1;
                Some(SubscribeTask::new(self))
            },
            PollOutcome::NotYetProduced => None,
            PollOutcome::Malformed(_) => {
                let t = SubscribeTask::new(self);
                self.curr_height = self.curr_height + 1;
                Some(t)
            },
            PollOutcome::Transport(m) => self.handle_err(m),
        }
    }
}

} // verus!
