//! Pairs what a language server sent back with the requests it answers.
use vstd::prelude::*;

use crate::json_rpc::{JsonRPCMessage, MessageId};
use crate::lsp_input::DidOpenContents;
use crate::message::{InitializeParams, LspMessage, MessageKind, Params};
use crate::text::str_eq;

verus! {

/// Whether `serde_json` finds two JSON values equal (`Value`'s `==`).
pub uninterp spec fn json_equal(a: serde_json::Value, b: serde_json::Value) -> bool;

/// `==` on `serde_json::Value`, which compares the values' contents; a value
/// is equal to itself (its numbers are never NaN).
#[verifier::external_body]
fn json_eq(a: &serde_json::Value, b: &serde_json::Value) -> (r: bool)
    ensures
        r == json_equal(*a, *b),
        *a == *b ==> r,
{
    a == b
}

/// Whether two JSON values are equal: the same value, or values `==` finds
/// equal.
pub open spec fn json_same(a: serde_json::Value, b: serde_json::Value) -> bool {
    a == b || json_equal(a, b)
}

/// Whether two `initialize` parameters are equal.
pub open spec fn initialize_equal(p: InitializeParams, q: InitializeParams) -> bool {
    &&& p.client_name@ == q.client_name@
    &&& p.client_version@ == q.client_version@
    &&& p.root_uri@ == q.root_uri@
    &&& p.workspace_folders@.len() == q.workspace_folders@.len()
    &&& forall|i: int|
        0 <= i < p.workspace_folders@.len() ==> (#[trigger] p.workspace_folders@[i]).uri@
            == q.workspace_folders@[i].uri@ && p.workspace_folders@[i].name@ == q.workspace_folders@[i].name@
    &&& json_same(p.capabilities, q.capabilities)
    &&& p.trace == q.trace
}

/// Whether two opened documents are equal.
pub open spec fn did_open_equal(c: DidOpenContents, d: DidOpenContents) -> bool {
    &&& c.uri@ == d.uri@
    &&& c.language_id@ == d.language_id@
    &&& c.version == d.version
    &&& c.text@ == d.text@
}

/// Whether two message parameters are equal: of the same form, with equal
/// contents.
pub open spec fn params_equal(a: Params, b: Params) -> bool {
    match (a, b) {
        (Params::Json(x), Params::Json(y)) => json_same(x, y),
        (Params::Null, Params::Null) => true,
        (Params::EmptyObject, Params::EmptyObject) => true,
        (Params::Initialize(p), Params::Initialize(q)) => initialize_equal(p, q),
        (Params::DidOpen(c), Params::DidOpen(d)) => did_open_equal(c, d),
        _ => false,
    }
}

/// Whether two messages are equal: the same method, kind and parameters.
pub open spec fn message_equal(a: LspMessage, b: LspMessage) -> bool {
    a.method@ == b.method@ && a.kind == b.kind && params_equal(a.params, b.params)
}

/// Every message is equal to itself.
pub proof fn lemma_message_equal_reflexive(m: LspMessage)
    ensures
        message_equal(m, m),
{
}

fn initialize_eq(p: &InitializeParams, q: &InitializeParams) -> (r: bool)
    ensures
        r == initialize_equal(*p, *q),
{
    if !str_eq(p.client_name.as_str(), q.client_name.as_str()) || !str_eq(
        p.client_version.as_str(),
        q.client_version.as_str(),
    ) || !str_eq(p.root_uri.as_str(), q.root_uri.as_str()) || p.workspace_folders.len()
        != q.workspace_folders.len() {
        return false;
    }
    let mut i: usize = 0;
    while i < p.workspace_folders.len()
        invariant
            i <= p.workspace_folders@.len(),
            p.workspace_folders@.len() == q.workspace_folders@.len(),
            forall|j: int|
                0 <= j < i ==> (#[trigger] p.workspace_folders@[j]).uri@ == q.workspace_folders@[j].uri@
                    && p.workspace_folders@[j].name@ == q.workspace_folders@[j].name@,
        decreases p.workspace_folders.len() - i,
    {
        if !str_eq(p.workspace_folders[i].uri.as_str(), q.workspace_folders[i].uri.as_str()) || !str_eq(
            p.workspace_folders[i].name.as_str(),
            q.workspace_folders[i].name.as_str(),
        ) {
            return false;
        }
        i = i + 1;
    }
    json_eq(&p.capabilities, &q.capabilities) && p.trace == q.trace
}

fn params_eq(a: &Params, b: &Params) -> (r: bool)
    ensures
        r == params_equal(*a, *b),
{
    match (a, b) {
        (Params::Json(x), Params::Json(y)) => json_eq(x, y),
        (Params::Null, Params::Null) => true,
        (Params::EmptyObject, Params::EmptyObject) => true,
        (Params::Initialize(p), Params::Initialize(q)) => initialize_eq(p, q),
        (Params::DidOpen(c), Params::DidOpen(d)) => str_eq(c.uri.as_str(), d.uri.as_str()) && str_eq(
            c.language_id.as_str(),
            d.language_id.as_str(),
        ) && c.version == d.version && str_eq(c.text.as_str(), d.text.as_str()),
        _ => false,
    }
}

/// Whether two messages are equal: the same method, kind and parameters.
pub fn message_eq(a: &LspMessage, b: &LspMessage) -> (r: bool)
    ensures
        r == message_equal(*a, *b),
{
    str_eq(a.method.as_str(), b.method.as_str()) && a.kind == b.kind && params_eq(&a.params, &b.params)
}

/// The indices of the requests among `sent`, in order.
pub open spec fn request_indices(sent: Seq<LspMessage>) -> Seq<int>
    decreases sent.len(),
{
    if sent.len() == 0 {
        Seq::empty()
    } else if sent.last().kind is Request {
        request_indices(sent.drop_last()).push(sent.len() - 1)
    } else {
        request_indices(sent.drop_last())
    }
}

proof fn lemma_request_indices_valid(sent: Seq<LspMessage>)
    ensures
        forall|k: int|
            0 <= k < request_indices(sent).len() ==> 0 <= #[trigger] request_indices(sent)[k]
                < sent.len() && sent[request_indices(sent)[k]].kind is Request,
        request_indices(sent).len() <= sent.len(),
    decreases sent.len(),
{
    if sent.len() > 0 {
        lemma_request_indices_valid(sent.drop_last());
        let prev = request_indices(sent.drop_last());
        assert forall|k: int| 0 <= k < prev.len() implies sent[prev[k]] == sent.drop_last()[prev[k]] by {}
    }
}

/// The sent request that a response with this id answers: the `k`-th request
/// sent carries the id `k + 2`.
pub open spec fn answered_request(indices: Seq<int>, id: Option<MessageId>) -> Option<int> {
    match id {
        Some(MessageId::Number(n)) => if 2 <= n && n - 2 < indices.len() {
            Some(indices[n - 2])
        } else {
            None
        },
        _ => None,
    }
}

/// The results matched to their requests, as (index of the request, result).
pub open spec fn spec_responses(indices: Seq<int>, received: Seq<JsonRPCMessage>) -> Seq<(usize, serde_json::Value)>
    decreases received.len(),
{
    if received.len() == 0 {
        Seq::empty()
    } else {
        let prev = spec_responses(indices, received.drop_last());
        match received.last() {
            JsonRPCMessage::Response { id, result: Some(v), .. } => match answered_request(indices, id) {
                Some(i) => prev.push((i as usize, v)),
                None => prev,
            },
            _ => prev,
        }
    }
}

/// The errors matched to their requests, as (index of the request, error).
pub open spec fn spec_errors(indices: Seq<int>, received: Seq<JsonRPCMessage>) -> Seq<(usize, serde_json::Value)>
    decreases received.len(),
{
    if received.len() == 0 {
        Seq::empty()
    } else {
        let prev = spec_errors(indices, received.drop_last());
        match received.last() {
            JsonRPCMessage::Response { id, result: None, error: Some(e), .. } => match answered_request(
                indices,
                id,
            ) {
                Some(i) => prev.push((i as usize, e)),
                None => prev,
            },
            _ => prev,
        }
    }
}

/// The notifications the server sent.
pub open spec fn spec_notifications(received: Seq<JsonRPCMessage>) -> Seq<LspMessage>
    decreases received.len(),
{
    if received.len() == 0 {
        Seq::empty()
    } else {
        let prev = spec_notifications(received.drop_last());
        match received.last() {
            JsonRPCMessage::Notification { method, params, .. } => prev.push(
                LspMessage { method, kind: MessageKind::Notification, params },
            ),
            _ => prev,
        }
    }
}

/// The requests the server sent to the client.
pub open spec fn spec_server_requests(received: Seq<JsonRPCMessage>) -> Seq<LspMessage>
    decreases received.len(),
{
    if received.len() == 0 {
        Seq::empty()
    } else {
        let prev = spec_server_requests(received.drop_last());
        match received.last() {
            JsonRPCMessage::Request { method, params, .. } => prev.push(
                LspMessage { method, kind: MessageKind::Request, params },
            ),
            _ => prev,
        }
    }
}

/// What a server sent back, sorted: results and errors paired with the sent
/// requests they answer, in the order they came, and the notifications and
/// requests the server sent on its own.
#[derive(Debug)]
pub struct RequestResponseMatching<'a> {
    pub responses: Vec<(&'a LspMessage, serde_json::Value)>,
    pub errors: Vec<(&'a LspMessage, serde_json::Value)>,
    pub notifications: Vec<LspMessage>,
    pub requests_from_server: Vec<LspMessage>,
}

/// The entries paired with sent requests: entry `k` pairs the request sent
/// at index `indexed[k].0` with `indexed[k].1`.
pub open spec fn pairs_sent(
    sent: Seq<LspMessage>,
    indexed: Seq<(usize, serde_json::Value)>,
    entries: Seq<(&LspMessage, serde_json::Value)>,
) -> bool {
    &&& entries.len() == indexed.len()
    &&& forall|k: int|
        0 <= k < entries.len() ==> *(#[trigger] entries[k]).0 == sent[indexed[k].0 as int] && entries[k].1
            == indexed[k].1
}

/// Index of the last entry whose request equals `request`.
pub open spec fn last_equal_entry(entries: Seq<(&LspMessage, serde_json::Value)>, request: LspMessage) -> Option<int>
    decreases entries.len(),
{
    if entries.len() == 0 {
        None
    } else if message_equal(*entries.last().0, request) {
        Some(entries.len() - 1)
    } else {
        last_equal_entry(entries.drop_last(), request)
    }
}

proof fn lemma_last_equal_entry_is(entries: Seq<(&LspMessage, serde_json::Value)>, request: LspMessage, k: int)
    requires
        0 <= k < entries.len(),
        message_equal(*entries[k].0, request),
        forall|j: int| k < j < entries.len() ==> !message_equal(*(#[trigger] entries[j]).0, request),
    ensures
        last_equal_entry(entries, request) == Some(k),
    decreases entries.len(),
{
    if k < entries.len() - 1 {
        assert(!message_equal(*entries[entries.len() - 1].0, request));
        let t = entries.drop_last();
        assert forall|j: int| k < j < t.len() implies !message_equal(*(#[trigger] t[j]).0, request) by {
            assert(t[j] == entries[j]);
        }
        lemma_last_equal_entry_is(t, request, k);
    }
}

/// The answer found for a request is the one that came last among the
/// results to sent requests equal to it: when the `k`-th matched result
/// answers a request equal to `request` and no later one does, the lookup
/// in the matching's entries gives the `k`-th.
pub proof fn lemma_last_answer_wins(
    sent: Seq<LspMessage>,
    received: Seq<JsonRPCMessage>,
    entries: Seq<(&LspMessage, serde_json::Value)>,
    request: LspMessage,
    k: int,
)
    requires
        pairs_sent(sent, spec_responses(request_indices(sent), received), entries),
        0 <= k < entries.len(),
        message_equal(sent[spec_responses(request_indices(sent), received)[k].0 as int], request),
        forall|j: int|
            k < j < entries.len() ==> !message_equal(
                sent[(#[trigger] spec_responses(request_indices(sent), received)[j]).0 as int],
                request,
            ),
    ensures
        last_equal_entry(entries, request) == Some(k),
{
    let rs = spec_responses(request_indices(sent), received);
    assert(*entries[k].0 == sent[rs[k].0 as int]);
    assert forall|j: int| k < j < entries.len() implies !message_equal(*(#[trigger] entries[j]).0, request) by {
        assert(*entries[j].0 == sent[rs[j].0 as int]);
    }
    lemma_last_equal_entry_is(entries, request, k);
}

impl<'a> RequestResponseMatching<'a> {
    /// Sorts the received messages. The `k`-th request of `sent` is the one
    /// sent with id `k + 2`; a response with a result pairs that result with
    /// it, a response with an error and no result pairs the error with it; a
    /// response with no such id is dropped.
    pub fn match_messages(sent: &'a [LspMessage], received: Vec<JsonRPCMessage>) -> (r: Self)
        ensures
            pairs_sent(sent@, spec_responses(request_indices(sent@), received@), r.responses@),
            pairs_sent(sent@, spec_errors(request_indices(sent@), received@), r.errors@),
            r.notifications@ == spec_notifications(received@),
            r.requests_from_server@ == spec_server_requests(received@),
    {
        let mut indices: Vec<usize> = Vec::new();
        let mut i: usize = 0;
        while i < sent.len()
            invariant
                i <= sent@.len(),
                indices@.len() == request_indices(sent@.take(i as int)).len(),
                forall|k: int|
                    0 <= k < indices@.len() ==> indices@[k] as int == request_indices(
                        sent@.take(i as int),
                    )[k],
            decreases sent.len() - i,
        {
            assert(sent@.take(i + 1).drop_last() =~= sent@.take(i as int));
            if sent[i].is_request() {
                indices.push(i);
            }
            i = i + 1;
        }
        assert(sent@.take(sent@.len() as int) =~= sent@);
        let ghost ri = request_indices(sent@);
        let mut responses: Vec<(&'a LspMessage, serde_json::Value)> = Vec::new();
        let mut errors: Vec<(&'a LspMessage, serde_json::Value)> = Vec::new();
        proof {
            lemma_request_indices_valid(sent@);
        }
        let mut notifications: Vec<LspMessage> = Vec::new();
        let mut requests_from_server: Vec<LspMessage> = Vec::new();
        let ghost all = received@;
        for msg in it: received
            invariant
                it.seq() == all,
                indices@.len() == ri.len(),
                forall|k: int| 0 <= k < indices@.len() ==> indices@[k] as int == ri[k],
                forall|k: int| 0 <= k < ri.len() ==> 0 <= #[trigger] ri[k] < sent@.len(),
                pairs_sent(sent@, spec_responses(ri, all.take(it.index() as int)), responses@),
                pairs_sent(sent@, spec_errors(ri, all.take(it.index() as int)), errors@),
                notifications@ == spec_notifications(all.take(it.index() as int)),
                requests_from_server@ == spec_server_requests(all.take(it.index() as int)),
        {
            let ghost k = it.index() as int;
            assert(all.take(k + 1).drop_last() =~= all.take(k));
            assert(all.take(k + 1).last() == all[k]);
            let ghost m = msg;
            match msg {
                JsonRPCMessage::Request { method, params, .. } => {
                    requests_from_server.push(LspMessage::request(method, params));
                },
                JsonRPCMessage::Notification { method, params, .. } => {
                    notifications.push(LspMessage::notification(method, params));
                },
                JsonRPCMessage::Response { id, result, error, .. } => {
                    let target = match id {
                        Some(MessageId::Number(n)) => if n >= 2 && n - 2 < indices.len() {
                            Some(indices[n - 2])
                        } else {
                            None
                        },
                        _ => None,
                    };
                    assert(match target {
                        Some(t) => answered_request(ri, id) == Some(t as int),
                        None => answered_request(ri, id) is None,
                    });
                    match target {
                        Some(t) => match result {
                            Some(v) => {
                                responses.push((&sent[t], v));
                            },
                            None => match error {
                                Some(e) => {
                                    errors.push((&sent[t], e));
                                },
                                None => {},
                            },
                        },
                        None => {},
                    }
                },
            }
        }
        assert(all.take(all.len() as int) =~= all);
        RequestResponseMatching { responses, errors, notifications, requests_from_server }
    }

    /// The result that answered a sent request equal to `request`; when
    /// several did, the one that came last.
    pub fn find_response_of(&self, request: &LspMessage) -> (r: Option<&serde_json::Value>)
        ensures
            r == (match last_equal_entry(self.responses@, *request) {
                Some(k) => Some(&self.responses@[k].1),
                None => None,
            }),
    {
        let mut k = self.responses.len();
        assert(self.responses@.take(k as int) =~= self.responses@);
        while k > 0
            invariant
                k <= self.responses@.len(),
                last_equal_entry(self.responses@, *request) == last_equal_entry(
                    self.responses@.take(k as int),
                    *request,
                ),
            decreases k,
        {
            let ghost pre = self.responses@.take(k as int);
            assert(pre.drop_last() =~= self.responses@.take(k - 1));
            if message_eq(self.responses[k - 1].0, request) {
                return Some(&self.responses[k - 1].1);
            }
            k = k - 1;
        }
        assert(self.responses@.take(0) =~= Seq::<(&LspMessage, serde_json::Value)>::empty());
        None
    }

    /// The notifications of the given method, in the order they came.
    pub fn find_notifications(&self, method: &str) -> (r: Vec<&LspMessage>)
        ensures
            r@.len() == self.notifications@.filter(has_method(method@)).len(),
            forall|k: int|
                0 <= k < r@.len() ==> *r@[k] == self.notifications@.filter(has_method(method@))[k]
                    && r@[k].method@ == method@,
    {
        let mut out: Vec<&LspMessage> = Vec::new();
        let mut i: usize = 0;
        let ghost pred = has_method(method@);
        while i < self.notifications.len()
            invariant
                pred == has_method(method@),
                i <= self.notifications@.len(),
                out@.len() == self.notifications@.take(i as int).filter(pred).len(),
                forall|k: int|
                    0 <= k < out@.len() ==> *out@[k] == self.notifications@.take(i as int).filter(
                        pred,
                    )[k],
            decreases self.notifications.len() - i,
        {
            let ghost pre = self.notifications@.take(i + 1);
            assert(pre.drop_last() =~= self.notifications@.take(i as int));
            reveal_with_fuel(Seq::<_>::filter, 1);
            let ghost f0 = self.notifications@.take(i as int).filter(pred);
            let ghost last = self.notifications@[i as int];
            assert(pre.last() == last);
            assert(pre.filter(pred) == if pred(last) {
                f0.push(last)
            } else {
                f0
            });
            if str_eq(self.notifications[i].method.as_str(), method) {
                out.push(&self.notifications[i]);
            }
            i = i + 1;
        }
        assert(self.notifications@.take(self.notifications@.len() as int) =~= self.notifications@);
        proof {
            assert forall|k: int| 0 <= k < out@.len() implies out@[k].method@ == method@ by {
                self.notifications@.lemma_filter_pred(pred, k);
            }
        }
        out
    }
}

/// Whether a message has the given method.
pub open spec fn has_method(method: Seq<char>) -> spec_fn(LspMessage) -> bool {
    |n: LspMessage| n.method@ == method
}

/// Every entry names a sent request.
pub open spec fn entries_name_requests(sent: Seq<LspMessage>, entries: Seq<(usize, serde_json::Value)>) -> bool {
    forall|k: int|
        0 <= k < entries.len() ==> 0 <= (#[trigger] entries[k]).0 < sent.len() && sent[entries[k].0 as int].kind is Request
}

/// A result is only ever paired with a request: every entry of `responses`
/// and of `errors` names a sent message that is a request.
pub proof fn lemma_matched_entries_are_requests(sent: Seq<LspMessage>, received: Seq<JsonRPCMessage>)
    requires
        sent.len() <= usize::MAX,
    ensures
        entries_name_requests(sent, spec_responses(request_indices(sent), received)),
        entries_name_requests(sent, spec_errors(request_indices(sent), received)),
    decreases received.len(),
{
    lemma_request_indices_valid(sent);
    if received.len() > 0 {
        let ri = request_indices(sent);
        let dl = received.drop_last();
        lemma_matched_entries_are_requests(sent, dl);
        let p1 = spec_responses(ri, dl);
        let c1 = spec_responses(ri, received);
        let p2 = spec_errors(ri, dl);
        let c2 = spec_errors(ri, received);
        match received.last() {
            JsonRPCMessage::Response { id, .. } => {
                match id {
                    Some(MessageId::Number(n)) => {
                        if 2 <= n && n - 2 < ri.len() {
                            assert(0 <= ri[n - 2] < sent.len());
                        }
                    },
                    _ => {},
                }
            },
            _ => {},
        }
        assert forall|k: int| 0 <= k < c1.len() implies 0 <= (#[trigger] c1[k]).0 < sent.len()
            && sent[c1[k].0 as int].kind is Request by {
            if k < p1.len() {
                assert(c1[k] == p1[k]);
            } else {
                match received.last() {
                    JsonRPCMessage::Response { id: Some(MessageId::Number(n)), .. } => {
                        if 2 <= n && n - 2 < ri.len() {
                            assert(0 <= ri[n - 2] < sent.len());
                            assert(sent[ri[n - 2]].kind is Request);
                        }
                    },
                    _ => {},
                }
            }
        }
        assert forall|k: int| 0 <= k < c2.len() implies 0 <= (#[trigger] c2[k]).0 < sent.len()
            && sent[c2[k].0 as int].kind is Request by {
            if k < p2.len() {
                assert(c2[k] == p2[k]);
            } else {
                match received.last() {
                    JsonRPCMessage::Response { id: Some(MessageId::Number(n)), .. } => {
                        if 2 <= n && n - 2 < ri.len() {
                            assert(0 <= ri[n - 2] < sent.len());
                            assert(sent[ri[n - 2]].kind is Request);
                        }
                    },
                    _ => {},
                }
            }
        }
    }
}

/// The response that carries the id `k + 2` is paired with the `k`-th request
/// sent, whatever came before it.
pub proof fn lemma_response_pairs_with_kth_request(
    sent: Seq<LspMessage>,
    received: Seq<JsonRPCMessage>,
    k: int,
    result: serde_json::Value,
    error: Option<serde_json::Value>,
)
    requires
        0 <= k < request_indices(sent).len(),
        k + 2 <= usize::MAX,
    ensures
        ({
            let last = JsonRPCMessage::Response {
                jsonrpc: crate::json_rpc::JsonRPC20,
                id: Some(MessageId::Number((k + 2) as usize)),
                result: Some(result),
                error,
            };
            spec_responses(request_indices(sent), received.push(last)) == spec_responses(
                request_indices(sent),
                received,
            ).push((request_indices(sent)[k] as usize, result))
        }),
{
    let last = JsonRPCMessage::Response {
        jsonrpc: crate::json_rpc::JsonRPC20,
        id: Some(MessageId::Number((k + 2) as usize)),
        result: Some(result),
        error,
    };
    assert(received.push(last).drop_last() =~= received);
}

} // verus!
