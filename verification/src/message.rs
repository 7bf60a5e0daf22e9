//! LSP messages as they travel: a method, whether a reply is expected, and the
//! parameters.
use vstd::prelude::*;

use crate::json_rpc::{JsonRPC20, JsonRPCMessage, MessageId};
use crate::lsp_input::DidOpenContents;

verus! {

/// Whether a message expects a reply.
#[derive(Debug, Clone, Copy, PartialEq, Eq, Structural)]
pub enum MessageKind {
    Request,
    Notification,
}

/// How much the server traces (`TraceValue`).
#[derive(Debug, Clone, Copy, PartialEq, Eq, Structural)]
pub enum TraceValue {
    Off,
    Messages,
    Verbose,
}

/// A workspace folder: its URI and its name.
#[derive(Debug)]
pub struct WorkspaceFolder {
    pub uri: String,
    pub name: String,
}

/// The parameters of `initialize`: who the client is, the workspace root and
/// folders, the client's capabilities (as JSON) and the trace level. No
/// process id is sent.
#[derive(Debug)]
pub struct InitializeParams {
    pub client_name: String,
    pub client_version: String,
    pub root_uri: String,
    pub workspace_folders: Vec<WorkspaceFolder>,
    pub capabilities: serde_json::Value,
    pub trace: TraceValue,
}

/// The parameters of a message.
#[derive(Debug)]
pub enum Params {
    /// Parameters as JSON, as generated or as received.
    Json(serde_json::Value),
    /// `null`, the parameters of `shutdown` and `exit`.
    Null,
    /// `{}`, the parameters of `initialized`.
    EmptyObject,
    /// The parameters of `initialize`.
    Initialize(InitializeParams),
    /// The parameters of `textDocument/didOpen`: the document opened.
    DidOpen(DidOpenContents),
}

/// A Language Server Protocol message.
#[derive(Debug)]
pub struct LspMessage {
    pub method: String,
    pub kind: MessageKind,
    pub params: Params,
}

/// Number of requests in `msgs`.
pub open spec fn count_requests(msgs: Seq<LspMessage>) -> nat
    decreases msgs.len(),
{
    if msgs.len() == 0 {
        0
    } else {
        count_requests(msgs.drop_last()) + if msgs.last().kind is Request {
            1nat
        } else {
            0nat
        }
    }
}

pub proof fn lemma_count_requests_bound(msgs: Seq<LspMessage>)
    ensures
        count_requests(msgs) <= msgs.len(),
    decreases msgs.len(),
{
    if msgs.len() > 0 {
        lemma_count_requests_bound(msgs.drop_last());
    }
}

pub proof fn lemma_count_requests_step(msgs: Seq<LspMessage>, i: int)
    requires
        0 <= i < msgs.len(),
    ensures
        count_requests(msgs.take(i + 1)) == count_requests(msgs.take(i)) + if msgs[i].kind is Request {
            1nat
        } else {
            0nat
        },
{
    assert(msgs.take(i + 1).drop_last() =~= msgs.take(i));
}

/// The JSON-RPC form of `msg` when requests are numbered from `id`.
pub open spec fn spec_json_rpc(msg: LspMessage, id: usize) -> JsonRPCMessage {
    match msg.kind {
        MessageKind::Request => JsonRPCMessage::Request {
            jsonrpc: JsonRPC20,
            id: MessageId::Number(id),
            method: msg.method,
            params: msg.params,
        },
        MessageKind::Notification => JsonRPCMessage::Notification {
            jsonrpc: JsonRPC20,
            method: msg.method,
            params: msg.params,
        },
    }
}

impl LspMessage {
    pub fn request(method: String, params: Params) -> (r: Self)
        ensures
            r == (LspMessage { method, kind: MessageKind::Request, params }),
    {
        LspMessage { method, kind: MessageKind::Request, params }
    }

    pub fn notification(method: String, params: Params) -> (r: Self)
        ensures
            r == (LspMessage { method, kind: MessageKind::Notification, params }),
    {
        LspMessage { method, kind: MessageKind::Notification, params }
    }

    /// Returns the method name of the message.
    pub fn method(&self) -> (r: &String)
        ensures
            r == &self.method,
    {
        &self.method
    }

    /// Returns if the message is a request.
    pub fn is_request(&self) -> (r: bool)
        ensures
            r == (self.kind is Request),
    {
        match self.kind {
            MessageKind::Request => true,
            MessageKind::Notification => false,
        }
    }

    /// Returns if the message is a notification.
    pub fn is_notification(&self) -> (r: bool)
        ensures
            r == (self.kind is Notification),
    {
        match self.kind {
            MessageKind::Request => false,
            MessageKind::Notification => true,
        }
    }

    /// Turns the message into JSON-RPC. A request takes the id `*id`, which
    /// then moves on by one; a notification takes no id and leaves it.
    pub fn into_json_rpc(self, id: &mut usize) -> (r: JsonRPCMessage)
        requires
            self.kind is Request ==> *old(id) < usize::MAX,
        ensures
            r == spec_json_rpc(self, *old(id)),
            *final(id) == *old(id) + if self.kind is Request {
                1usize
            } else {
                0usize
            },
    {
        let is_request = self.is_request();
        if is_request {
            let current = *id;
            *id = current + 1;
            JsonRPCMessage::request(MessageId::Number(current), self.method, self.params)
        } else {
            JsonRPCMessage::notification(self.method, self.params)
        }
    }

    /// Reads a request or a notification that arrived over JSON-RPC; a response
    /// is not a message and gives `None`.
    pub fn from_json_rpc(message: JsonRPCMessage) -> (r: Option<LspMessage>)
        ensures
            r == (match message {
                JsonRPCMessage::Request { method, params, .. } => Some(
                    LspMessage { method, kind: MessageKind::Request, params },
                ),
                JsonRPCMessage::Notification { method, params, .. } => Some(
                    LspMessage { method, kind: MessageKind::Notification, params },
                ),
                JsonRPCMessage::Response { .. } => None,
            }),
    {
        match message {
            JsonRPCMessage::Request { method, params, .. } => Some(LspMessage::request(method, params)),
            JsonRPCMessage::Notification { method, params, .. } => Some(
                LspMessage::notification(method, params),
            ),
            JsonRPCMessage::Response { .. } => None,
        }
    }
}

/// The JSON-RPC form of a whole message list, requests numbered from `first_id` on.
pub open spec fn spec_json_rpc_all(msgs: Seq<LspMessage>, first_id: usize) -> Seq<JsonRPCMessage> {
    Seq::new(
        msgs.len(),
        |i: int| spec_json_rpc(msgs[i], (first_id + count_requests(msgs.take(i))) as usize),
    )
}

/// Turns a list of messages into JSON-RPC in order, numbering the requests
/// from `first_id` on; gives the messages and the next free id.
pub fn into_json_rpc_all(msgs: Vec<LspMessage>, first_id: usize) -> (r: (Vec<JsonRPCMessage>, usize))
    requires
        first_id + msgs.len() <= usize::MAX,
    ensures
        r.0@ == spec_json_rpc_all(msgs@, first_id),
        r.1 == first_id + count_requests(msgs@),
{
    let ghost all = msgs@;
    let mut out: Vec<JsonRPCMessage> = Vec::new();
    let mut id = first_id;
    let mut k: usize = 0;
    let n = msgs.len();
    for msg in it: msgs
        invariant
            n == all.len(),
            it.seq() == all,
            k == it.index(),
            k <= n,
            first_id + n <= usize::MAX,
            id == first_id + count_requests(all.take(k as int)),
            out@.len() == k,
            forall|j: int| 0 <= j < k ==> out@[j] == spec_json_rpc_all(all, first_id)[j],
    {
        proof {
            lemma_count_requests_step(all, k as int);
            lemma_count_requests_bound(all.take(k as int));
        }
        let m = msg;
        assert(m == all[k as int]);
        let j = m.into_json_rpc(&mut id);
        out.push(j);
        k = k + 1;
    }
    assert(all.take(n as int) =~= all);
    assert(out@ =~= spec_json_rpc_all(all, first_id));
    (out, id)
}

} // verus!
