//! The session a fuzzing input is replayed as: the messages in the order the
//! server receives them, and the bytes written to its input.
use vstd::prelude::*;

use crate::decimal::decimal_digits;
use crate::json_rpc::{
    append_bytes, content_length_key, crlf, header_sep, lemma_payload_roundtrip, spec_lsp_payload,
    spec_read_lsp_payload, to_lsp_payload, PayloadError,
};
use crate::localize::{localize_content, localized_contents, spec_workspace_file_uri};
use crate::uri::{spec_workspace_uri, workspace_uri};
use crate::lsp_input::{did_open_of, source_paths_valid, spec_opened_documents, DidOpenContents, LspInput};
use crate::message::{InitializeParams, LspMessage, Params, TraceValue, WorkspaceFolder};
use crate::uri::{protocol_prefix, protocol_prefix_text};

verus! {

/// `default_workspace`, the name of the one workspace folder.
pub open spec fn default_workspace_name() -> Seq<char> {
    seq!['d', 'e', 'f', 'a', 'u', 'l', 't', '_', 'w', 'o', 'r', 'k', 's', 'p', 'a', 'c', 'e']
}

/// `lsp-fuzz`, the name the client gives itself.
pub open spec fn client_name_text() -> Seq<char> {
    seq!['l', 's', 'p', '-', 'f', 'u', 'z', 'z']
}

/// The `initialize` parameters of the fuzzer: client `lsp-fuzz` at
/// `client_version`, the virtual root `lsp-fuzz://` as root URI and as the one
/// workspace folder `default_workspace`, the given capabilities, tracing off.
pub open spec fn is_fuzzer_initialize(p: InitializeParams, capabilities: serde_json::Value, client_version: Seq<char>) -> bool {
    &&& p.client_name@ == client_name_text()
    &&& p.client_version@ == client_version
    &&& p.root_uri@ == protocol_prefix_text()
    &&& p.workspace_folders@.len() == 1
    &&& p.workspace_folders@[0].uri@ == protocol_prefix_text()
    &&& p.workspace_folders@[0].name@ == default_workspace_name()
    &&& p.capabilities == capabilities
    &&& p.trace == TraceValue::Off
}

/// The `initialize` parameters the fuzzer sends, with the client's
/// capabilities and version.
pub fn fuzzer_initialize_params(capabilities: serde_json::Value, client_version: String) -> (r: InitializeParams)
    ensures
        is_fuzzer_initialize(r, capabilities, client_version@),
{
    let name = "lsp-fuzz";
    let folder = "default_workspace";
    proof {
        reveal_strlit("lsp-fuzz");
        reveal_strlit("default_workspace");
        assert(name@ =~= client_name_text());
        assert(folder@ =~= default_workspace_name());
    }
    let mut workspace_folders: Vec<WorkspaceFolder> = Vec::new();
    workspace_folders.push(WorkspaceFolder { uri: String::from_str(protocol_prefix()), name: String::from_str(folder) });
    InitializeParams {
        client_name: String::from_str(name),
        client_version,
        root_uri: String::from_str(protocol_prefix()),
        workspace_folders,
        capabilities,
        trace: TraceValue::Off,
    }
}

/// A session: `initialize` with `init`, `initialized` with `{}`, one
/// `textDocument/didOpen` per opened document, the input's own messages, then
/// `shutdown` and `exit` with `null`.
pub open spec fn session_shape(msgs: Seq<LspMessage>, n_open: nat, user: Seq<LspMessage>) -> bool {
    let n = msgs.len();
    &&& n == 2 + n_open + user.len() + 2
    &&& msgs[0].method@ == "initialize"@ && msgs[0].kind is Request && msgs[0].params is Initialize
    &&& msgs[1].method@ == "initialized"@ && msgs[1].kind is Notification && msgs[1].params is EmptyObject
    &&& forall|i: int|
        2 <= i < 2 + n_open ==> (#[trigger] msgs[i]).method@ == "textDocument/didOpen"@
            && msgs[i].kind is Notification && msgs[i].params is DidOpen
    &&& forall|i: int| 0 <= i < user.len() ==> #[trigger] msgs[2 + n_open + i] == user[i]
    &&& msgs[n - 2].method@ == "shutdown"@ && msgs[n - 2].kind is Request && msgs[n - 2].params is Null
    &&& msgs[n - 1].method@ == "exit"@ && msgs[n - 1].kind is Notification && msgs[n - 1].params is Null
}

/// The messages a server receives for one input, given the `initialize`
/// parameters and the document of each `didOpen` notification.
pub fn message_sequence(
    initialize: InitializeParams,
    opened: Vec<DidOpenContents>,
    messages: Vec<LspMessage>,
) -> (r: Vec<LspMessage>)
    ensures
        session_shape(r@, opened@.len(), messages@),
        r@[0].params == Params::Initialize(initialize),
        forall|i: int| 0 <= i < opened@.len() ==> #[trigger] r@[2 + i].params == Params::DidOpen(opened@[i]),
{
    let mut out: Vec<LspMessage> = Vec::new();
    let ghost init = initialize;
    out.push(LspMessage::request(String::from_str("initialize"), Params::Initialize(initialize)));
    out.push(LspMessage::notification(String::from_str("initialized"), Params::EmptyObject));
    let ghost opens = opened@;
    let n_open = opened.len();
    for c in it: opened
        invariant
            it.seq() == opens,
            out@.len() == 2 + it.index(),
            out@[0].method@ == "initialize"@ && out@[0].kind is Request,
            out@[0].params == Params::Initialize(init),
            out@[1].method@ == "initialized"@ && out@[1].kind is Notification && out@[1].params is EmptyObject,
            forall|i: int|
                2 <= i < 2 + it.index() ==> (#[trigger] out@[i]).method@ == "textDocument/didOpen"@
                    && out@[i].kind is Notification && out@[i].params == Params::DidOpen(opens[i - 2]),
    {
        out.push(LspMessage::notification(String::from_str("textDocument/didOpen"), Params::DidOpen(c)));
    }
    let ghost user = messages@;
    for m in it: messages
        invariant
            it.seq() == user,
            out@.len() == 2 + n_open + it.index(),
            n_open == opens.len(),
            out@[0].method@ == "initialize"@ && out@[0].kind is Request,
            out@[0].params == Params::Initialize(init),
            out@[1].method@ == "initialized"@ && out@[1].kind is Notification && out@[1].params is EmptyObject,
            forall|i: int|
                2 <= i < 2 + n_open ==> (#[trigger] out@[i]).method@ == "textDocument/didOpen"@
                    && out@[i].kind is Notification && out@[i].params == Params::DidOpen(opens[i - 2]),
            forall|i: int| 0 <= i < it.index() ==> #[trigger] out@[2 + n_open + i] == user[i],
    {
        out.push(m);
    }
    out.push(LspMessage::request(String::from_str("shutdown"), Params::Null));
    out.push(LspMessage::notification(String::from_str("exit"), Params::Null));
    proof {
        assert forall|i: int| 0 <= i < n_open implies #[trigger] out@[2 + i].params == Params::DidOpen(opens[i]) by {
            assert(out@[2 + i].params == Params::DidOpen(opens[(2 + i) - 2]));
        }
    }
    out
}

/// All payloads, one after the other.
pub open spec fn spec_concat_payloads(contents: Seq<Seq<u8>>) -> Seq<u8>
    decreases contents.len(),
{
    if contents.len() == 0 {
        Seq::empty()
    } else {
        spec_lsp_payload(contents[0]) + spec_concat_payloads(contents.drop_first())
    }
}

/// Where payload `i` starts in the concatenation.
pub open spec fn payload_offset(contents: Seq<Seq<u8>>, i: int) -> int
    decreases i,
{
    if i <= 0 {
        0
    } else {
        payload_offset(contents, i - 1) + spec_lsp_payload(contents[i - 1]).len()
    }
}

proof fn lemma_concat_push(contents: Seq<Seq<u8>>, c: Seq<u8>)
    ensures
        spec_concat_payloads(contents.push(c)) == spec_concat_payloads(contents) + spec_lsp_payload(c),
    decreases contents.len(),
{
    if contents.len() == 0 {
        assert(contents.push(c).drop_first() =~= Seq::<Seq<u8>>::empty());
        assert(spec_concat_payloads(Seq::<Seq<u8>>::empty()) =~= Seq::<u8>::empty());
        assert(spec_lsp_payload(c) + Seq::<u8>::empty() =~= spec_lsp_payload(c));
        assert(Seq::<u8>::empty() + spec_lsp_payload(c) =~= spec_lsp_payload(c));
    } else {
        lemma_concat_push(contents.drop_first(), c);
        assert(contents.push(c).drop_first() =~= contents.drop_first().push(c));
        assert(contents.push(c)[0] == contents[0]);
        assert(spec_lsp_payload(contents[0]) + (spec_concat_payloads(contents.drop_first())
            + spec_lsp_payload(c)) =~= spec_lsp_payload(contents[0]) + spec_concat_payloads(
            contents.drop_first(),
        ) + spec_lsp_payload(c));
    }
}

/// Each message content framed as an LSP payload, in order.
pub fn frame_contents(contents: &Vec<Vec<u8>>) -> (r: Vec<u8>)
    ensures
        r@ == spec_concat_payloads(contents@.map_values(|c: Vec<u8>| c@)),
{
    let ghost cs = contents@.map_values(|c: Vec<u8>| c@);
    let mut out: Vec<u8> = Vec::new();
    let mut i: usize = 0;
    assert(cs.take(0) =~= Seq::<Seq<u8>>::empty());
    while i < contents.len()
        invariant
            i <= contents@.len(),
            cs == contents@.map_values(|c: Vec<u8>| c@),
            out@ == spec_concat_payloads(cs.take(i as int)),
        decreases contents.len() - i,
    {
        let frame = to_lsp_payload(contents[i].as_slice());
        append_bytes(&mut out, frame.as_slice());
        proof {
            lemma_concat_push(cs.take(i as int), cs[i as int]);
            assert(cs.take(i + 1) =~= cs.take(i as int).push(cs[i as int]));
        }
        i = i + 1;
    }
    assert(cs.take(contents@.len() as int) =~= cs);
    out
}

/// The bytes a server reads for a session whose messages have the contents
/// `contents`, once the workspace is written to `workspace_dir`: each content
/// localized into that directory, then framed, in order. With any message,
/// they start with `Content-Length: `.
pub fn request_bytes(contents: &Vec<Vec<u8>>, workspace_dir: &str) -> (r: Vec<u8>)
    ensures
        r@ == spec_concat_payloads(localized_contents(contents@.map_values(|c: Vec<u8>| c@), workspace_dir@)),
        contents@.len() > 0 ==> r@.take(16) == content_length_key() + header_sep(),
{
    let dir = workspace_uri(workspace_dir);
    let mut uri = String::from_str("file://");
    uri.append(dir.as_str());
    proof {
        reveal_strlit("file://");
    }
    assert(uri@ =~= spec_workspace_file_uri(workspace_dir@));
    let mut localized: Vec<Vec<u8>> = Vec::new();
    let ghost cs = contents@.map_values(|c: Vec<u8>| c@);
    let mut i: usize = 0;
    while i < contents.len()
        invariant
            i <= contents@.len(),
            cs == contents@.map_values(|c: Vec<u8>| c@),
            uri@ == spec_workspace_file_uri(workspace_dir@),
            localized@.map_values(|c: Vec<u8>| c@) == localized_contents(cs, workspace_dir@).take(i as int),
        decreases contents.len() - i,
    {
        let c = localize_content(contents[i].as_slice(), uri.as_str());
        let ghost before = localized@.map_values(|c: Vec<u8>| c@);
        localized.push(c);
        assert(localized@.map_values(|c: Vec<u8>| c@) =~= before.push(c@));
        assert(localized_contents(cs, workspace_dir@).take(i + 1) =~= localized_contents(cs, workspace_dir@).take(
            i as int,
        ).push(c@));
        i = i + 1;
    }
    let ghost lc = localized_contents(cs, workspace_dir@);
    assert(lc.take(contents@.len() as int) =~= lc);
    let r = frame_contents(&localized);
    proof {
        if contents@.len() > 0 {
            lemma_concat_starts_with_key(lc);
        }
    }
    r
}

/// A concatenation of payloads starts with `Content-Length: `.
proof fn lemma_concat_starts_with_key(contents: Seq<Seq<u8>>)
    requires
        contents.len() > 0,
    ensures
        spec_concat_payloads(contents).take(16) == content_length_key() + header_sep(),
{
    let first = spec_lsp_payload(contents[0]);
    let key = content_length_key() + header_sep();
    assert(key.len() == 16);
    assert(first =~= key + (decimal_digits(contents[0].len()) + crlf() + crlf() + contents[0]));
    assert((first + spec_concat_payloads(contents.drop_first())).take(16) =~= key);
}

/// A trailing `/` on the workspace directory makes no difference to the
/// bytes of a session: for the same contents, a directory that does not end
/// with `/` and that directory with a `/` added give the same bytes.
pub proof fn lemma_request_bytes_ignore_trailing_slash(contents: Seq<Seq<u8>>, workspace_dir: Seq<char>)
    requires
        !(workspace_dir.len() > 0 && workspace_dir.last() == '/'),
    ensures
        spec_concat_payloads(localized_contents(contents, workspace_dir)) == spec_concat_payloads(
            localized_contents(contents, workspace_dir.push('/')),
        ),
{
    assert(spec_workspace_uri(workspace_dir.push('/')) == workspace_dir.push('/'));
    assert(spec_workspace_uri(workspace_dir) == workspace_dir.push('/'));
    assert(spec_workspace_file_uri(workspace_dir) == spec_workspace_file_uri(workspace_dir.push('/')));
    assert(localized_contents(contents, workspace_dir) =~= localized_contents(contents, workspace_dir.push('/')));
}

proof fn lemma_concat_skip(contents: Seq<Seq<u8>>, i: int)
    requires
        0 <= i < contents.len(),
    ensures
        spec_concat_payloads(contents).skip(payload_offset(contents, i)) == spec_lsp_payload(contents[i])
            + spec_concat_payloads(contents.skip(i + 1)),
    decreases i,
{
    if i == 0 {
        assert(contents.skip(1) =~= contents.drop_first());
        assert(spec_concat_payloads(contents).skip(0) =~= spec_concat_payloads(contents));
    } else {
        let t = contents.drop_first();
        lemma_concat_skip(t, i - 1);
        assert(t.skip(i) =~= contents.skip(i + 1));
        assert(t[i - 1] == contents[i]);
        lemma_offset_shift(contents, i);
        lemma_offset_bound(t, i - 1);
        let head = spec_lsp_payload(contents[0]);
        assert(spec_concat_payloads(contents) == head + spec_concat_payloads(t));
        assert((head + spec_concat_payloads(t)).skip(head.len() + payload_offset(t, i - 1))
            =~= spec_concat_payloads(t).skip(payload_offset(t, i - 1)));
    }
}

proof fn lemma_offset_shift(contents: Seq<Seq<u8>>, i: int)
    requires
        1 <= i <= contents.len(),
    ensures
        payload_offset(contents, i) == spec_lsp_payload(contents[0]).len() + payload_offset(
            contents.drop_first(),
            i - 1,
        ),
    decreases i,
{
    assert(payload_offset(contents, 0) == 0);
    assert(payload_offset(contents.drop_first(), 0) == 0);
    if i > 1 {
        lemma_offset_shift(contents, i - 1);
        assert(contents.drop_first()[i - 2] == contents[i - 1]);
    }
}

proof fn lemma_offset_bound(contents: Seq<Seq<u8>>, i: int)
    requires
        0 <= i <= contents.len(),
    ensures
        0 <= payload_offset(contents, i) <= spec_concat_payloads(contents).len(),
    decreases contents.len(),
{
    if i == 0 {
        assert(payload_offset(contents, 0) == 0);
    } else {
        lemma_offset_shift(contents, i);
        lemma_offset_bound(contents.drop_first(), i - 1);
    }
}

/// The bytes of a session read back message by message: starting at the
/// offset of payload `i`, the payload reader returns the `i`-th content and
/// stops exactly where payload `i + 1` starts.
pub proof fn lemma_request_bytes_read_back(contents: Seq<Seq<u8>>, i: int)
    requires
        0 <= i < contents.len(),
        forall|j: int| 0 <= j < contents.len() ==> (#[trigger] contents[j]).len() <= usize::MAX,
    ensures
        spec_read_lsp_payload(spec_concat_payloads(contents).skip(payload_offset(contents, i)))
            == Ok::<(Seq<u8>, int), PayloadError>(
            (contents[i], payload_offset(contents, i + 1) - payload_offset(contents, i)),
        ),
{
    lemma_concat_skip(contents, i);
    lemma_payload_roundtrip(contents[i], spec_concat_payloads(contents.skip(i + 1)));
}

impl LspInput {
    /// The messages a server receives for this input: `initialize` with the
    /// fuzzer's parameters, `initialized`, a `didOpen` of each source file in
    /// workspace order, the input's messages, `shutdown` and `exit`; `None`
    /// when a source file's path makes no URI.
    pub fn message_sequence(self, capabilities: serde_json::Value, client_version: String) -> (r: Option<Vec<LspMessage>>)
        ensures
            match r {
                None => !source_paths_valid(self.workspace@),
                Some(msgs) => {
                    let docs = spec_opened_documents(self.workspace@);
                    &&& source_paths_valid(self.workspace@)
                    &&& session_shape(msgs@, docs.len(), self.messages@)
                    &&& (msgs@[0].params matches Params::Initialize(p) && is_fuzzer_initialize(p, capabilities, client_version@))
                    &&& forall|k: int| 0 <= k < docs.len() ==> ((#[trigger] msgs@[2 + k]).params matches Params::DidOpen(c)
                        && did_open_of(docs, k, c))
                },
            },
    {
        let contents = match self.did_open_contents() {
            Some(cs) => cs,
            None => {
                return None;
            },
        };
        let ghost docs = spec_opened_documents(self.workspace@);
        let ghost cs = contents@;
        let initialize = fuzzer_initialize_params(capabilities, client_version);
        let messages = self.messages.into_vec();
        let r = message_sequence(initialize, contents, messages);
        proof {
            assert forall|k: int| 0 <= k < docs.len() implies ((#[trigger] r@[2 + k]).params matches Params::DidOpen(c)
                && did_open_of(docs, k, c)) by {
                assert(r@[2 + k].params == Params::DidOpen(cs[k]));
            }
        }
        Some(r)
    }
}

} // verus!
