//! A block-only subscription shape keyed by chain id, with its own three
//! states.
use vstd::prelude::*;
use crate::json::{get_string, get_string_vec, get_u64, str_field, str_list_field, u64_field, views, JsonMap};
use crate::text::{decimal, decimal_string};

verus! {

/// Renders a list of strings as Rust's `Debug` shows it.
pub uninterp spec fn debug_text(v: Seq<Seq<char>>) -> Seq<char>;

/// Relies on `<Vec<String> as Debug>::fmt` through `format!`: the text
/// depends on the strings alone.
#[verifier::external_body]
fn debug_strings(v: &Vec<String>) -> (r: String)
    ensures
        r@ == debug_text(views(v@)),
{
    format!("{:?}", v)
}

/// The state of a block subscription.
#[derive(Debug, Clone, Copy, PartialEq, Eq, Structural)]
pub enum SubscribeStatus {
    Requested,
    Working,
    Error,
}

/// A block subscription on one chain id.
#[derive(Debug)]
pub struct SubscribeBlock {
    pub chain: String,
    pub chain_id: String,
    pub start_height: u64,
    pub current_height: u64,
    pub nodes: Vec<String>,
    pub node_index: u16,
    pub status: SubscribeStatus,
}

/// The fields of a block subscription request, or the message for the first
/// of `nodes`, `start_height`, `chain_id` that is missing or unfit.
pub open spec fn block_request_error(params: JsonMap) -> Option<Seq<char>> {
    if str_list_field(params, "nodes"@) is Err {
        Some(str_list_field(params, "nodes"@)->Err_0)
    } else if u64_field(params, "start_height"@) is Err {
        Some(u64_field(params, "start_height"@)->Err_0)
    } else if str_field(params, "chain_id"@) is Err {
        Some(str_field(params, "chain_id"@)->Err_0)
    } else {
        None
    }
}

impl SubscribeBlock {
    /// A requested subscription on `chain` from the fields `nodes`,
    /// `start_height` and `chain_id`.
    pub fn new(chain: String, params: &JsonMap) -> (r: Result<SubscribeBlock, String>)
        ensures
            r is Ok <==> block_request_error(*params) is None,
            r matches Err(m) ==> block_request_error(*params) == Some(m@),
            r matches Ok(b) ==> {
                &&& b.chain@ == chain@
                &&& b.chain_id@ == str_field(*params, "chain_id"@)->Ok_0
                &&& b.start_height == u64_field(*params, "start_height"@)->Ok_0
                &&& b.current_height == b.start_height
                &&& views(b.nodes@) == str_list_field(*params, "nodes"@)->Ok_0
                &&& b.node_index == 0
                &&& b.status == SubscribeStatus::Requested
            },
    {
        let nodes = match get_string_vec(params, "nodes") {
            Ok(v) => v,
            Err(m) => { return Err(m); },
        };
        let start_height = match get_u64(params, "start_height") {
            Ok(n) => n,
            Err(m) => { return Err(m); },
        };
        let chain_id = match get_string(params, "chain_id") {
            Ok(s) => s,
            Err(m) => { return Err(m); },
        };
        Ok(SubscribeBlock {
            chain,
            chain_id,
            start_height,
            current_height: start_height,
            nodes,
            node_index: 0,
            status: SubscribeStatus::Requested,
        })
    }

    /// The current node followed by the current height.
    pub fn request_url(&self) -> (r: String)
        requires
            (self.node_index as int) < self.nodes@.len(),
        ensures
            r@ == self.nodes@[self.node_index as int]@ + decimal(self.current_height as nat),
    {
        let mut s = self.nodes[self.node_index as usize].clone();
        let h = decimal_string(self.current_height);
        s.append(h.as_str());
        s
    }

    /// Whether the subscription is requested or working.
    pub fn is_workable(&self) -> (r: bool)
        ensures
            r == (self.status == SubscribeStatus::Requested || self.status == SubscribeStatus::Working),
    {
        match self.status {
            SubscribeStatus::Requested => true,
            SubscribeStatus::Working => true,
            SubscribeStatus::Error => false,
        }
    }

    /// `<chain>:<chain_id>`.
    pub fn task_id(&self) -> (r: String)
        ensures
            r@ == self.chain@ + ":"@ + self.chain_id@,
    {
        let mut s = self.chain.clone();
        s.append(":");
        s.append(self.chain_id.as_str());
        s
    }

    /// `<chain>:<chain_id>:<current_height>`.
    pub fn block_id(&self) -> (r: String)
        ensures
            r@ == self.chain@ + ":"@ + self.chain_id@ + ":"@ + decimal(self.current_height as nat),
    {
        let mut s = self.task_id();
        s.append(":");
        let h = decimal_string(self.current_height);
        s.append(h.as_str());
        s
    }

    /// Whether a node after the current one is left.
    pub fn has_fallback(&self) -> (r: bool)
        ensures
            r == (self.node_index + 1 < self.nodes@.len()),
    {
        (self.node_index as usize) + 1 < self.nodes.len()
    }
}

/// The stored form of a block subscription.
#[derive(Debug)]
pub struct BlockTask {
    pub task_id: String,
    pub chain: String,
    pub chain_id: String,
    pub start_height: u64,
    pub nodes: Vec<String>,
}

/// The message for the first of `nodes`, `chain_id`, `start_height` that is
/// missing or unfit.
pub open spec fn block_task_error(params: JsonMap) -> Option<Seq<char>> {
    if str_list_field(params, "nodes"@) is Err {
        Some(str_list_field(params, "nodes"@)->Err_0)
    } else if str_field(params, "chain_id"@) is Err {
        Some(str_field(params, "chain_id"@)->Err_0)
    } else if u64_field(params, "start_height"@) is Err {
        Some(u64_field(params, "start_height"@)->Err_0)
    } else {
        None
    }
}

impl BlockTask {
    /// The stored form of a block subscription on `chain` from the fields
    /// `nodes`, `chain_id` and `start_height`.
    pub fn new(chain: String, params: &JsonMap) -> (r: Result<BlockTask, String>)
        ensures
            r is Ok <==> block_task_error(*params) is None,
            r matches Err(m) ==> block_task_error(*params) == Some(m@),
            r matches Ok(t) ==> {
                &&& t.task_id@ == chain@ + ":"@ + str_field(*params, "chain_id"@)->Ok_0
                &&& t.chain@ == chain@
                &&& t.chain_id@ == str_field(*params, "chain_id"@)->Ok_0
                &&& t.start_height == u64_field(*params, "start_height"@)->Ok_0
                &&& views(t.nodes@) == str_list_field(*params, "nodes"@)->Ok_0
            },
    {
        let nodes = match get_string_vec(params, "nodes") {
            Ok(v) => v,
            Err(m) => { return Err(m); },
        };
        let chain_id = match get_string(params, "chain_id") {
            Ok(s) => s,
            Err(m) => { return Err(m); },
        };
        let start_height = match get_u64(params, "start_height") {
            Ok(n) => n,
            Err(m) => { return Err(m); },
        };
        let mut task_id = chain.clone();
        task_id.append(":");
        task_id.append(chain_id.as_str());
        Ok(BlockTask { task_id, chain, chain_id, start_height, nodes })
    }

    /// The node list as Rust's `Debug` shows it.
    pub fn nodes_str(&self) -> (r: String)
        ensures
            r@ == debug_text(views(self.nodes@)),
    {
        debug_strings(&self.nodes)
    }
}

} // verus!
