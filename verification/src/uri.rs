//! The fuzzer's virtual `lsp-fuzz://` URIs and the workspace directory URI.
use vstd::prelude::*;
use vstd::string::StringSliceAdditionalSpecFns;

use crate::text::{ends_with_char, find_from, find_str_from, lemma_find_from_extend, lemma_find_from_miss, strip_prefix};

verus! {

/// Whether `text` parses as a URI reference (`lsp_types::Uri::from_str`).
pub uninterp spec fn valid_uri(text: Seq<char>) -> bool;

/// `lsp_types::Uri::from_str` succeeds on `text`. It panics on a text of
/// more than `i32::MAX` bytes, which `requires` leaves out.
#[verifier::external_body]
fn uri_accepts(text: &str) -> (r: bool)
    requires
        text.spec_bytes().len() <= i32::MAX,
    ensures
        r == valid_uri(text@),
{
    text.parse::<lsp_types::Uri>().is_ok()
}

/// `lsp-fuzz://`
pub open spec fn protocol_prefix_text() -> Seq<char> {
    seq!['l', 's', 'p', '-', 'f', 'u', 'z', 'z', ':', '/', '/']
}

/// The scheme prefix of the fuzzer's virtual file system.
pub fn protocol_prefix() -> (r: &'static str)
    ensures
        r@ == protocol_prefix_text(),
{
    let p = "lsp-fuzz://";
    proof {
        reveal_strlit("lsp-fuzz://");
    }
    assert(p@ =~= protocol_prefix_text());
    p
}

/// The path inside the virtual file system that a `lsp-fuzz://` URI names.
pub open spec fn spec_path_from_virtual_uri(uri: Seq<char>) -> Option<Seq<char>> {
    let n = protocol_prefix_text().len();
    if n <= uri.len() && uri.take(n as int) == protocol_prefix_text() {
        Some(uri.skip(n as int))
    } else {
        None
    }
}

/// The path part of a virtual URI, or `None` when `uri` is not one.
pub fn path_from_virtual_uri(uri: &str) -> (r: Option<&str>)
    ensures
        match r {
            Some(p) => spec_path_from_virtual_uri(uri@) == Some(p@),
            None => spec_path_from_virtual_uri(uri@) is None,
        },
{
    strip_prefix(uri, protocol_prefix())
}

/// `text` is short enough to be parsed as a URI (at most `i32::MAX` bytes
/// of UTF-8) and parses as one.
pub open spec fn accepted_uri(text: Seq<char>) -> bool {
    vstd::utf8::encode_utf8(text).len() <= i32::MAX && valid_uri(text)
}

/// The text of the virtual URI of `path`.
pub open spec fn spec_virtual_uri_text(path: Seq<char>) -> Seq<char> {
    protocol_prefix_text() + path
}

/// The virtual URI of a workspace path, or `None` when it does not parse as a URI.
pub fn virtual_uri_for_path(path: &str) -> (r: Option<String>)
    ensures
        match r {
            Some(u) => u@ == spec_virtual_uri_text(path@) && accepted_uri(u@),
            None => !accepted_uri(spec_virtual_uri_text(path@)),
        },
{
    let mut text = String::from_str(protocol_prefix());
    text.append(path);
    let byte_len = text.as_str().as_bytes().len();
    if byte_len > i32::MAX as usize {
        return None;
    }
    if uri_accepts(text.as_str()) {
        Some(text)
    } else {
        None
    }
}

/// The directory text with exactly the trailing `/` that a directory URI needs.
pub open spec fn spec_workspace_uri(dir: Seq<char>) -> Seq<char> {
    if dir.len() > 0 && dir.last() == '/' {
        dir
    } else {
        dir.push('/')
    }
}

/// The workspace directory as the base of file URIs: `dir` itself when it
/// already ends with `/`, else `dir` with a `/` added.
pub fn workspace_uri(workspace_dir: &str) -> (r: String)
    ensures
        r@ == spec_workspace_uri(workspace_dir@),
{
    let mut out = String::from_str(workspace_dir);
    if !ends_with_char(workspace_dir, '/') {
        let slash = "/";
        proof {
            reveal_strlit("/");
        }
        out.append(slash);
        assert(out@ =~= workspace_dir@.push('/'));
    }
    out
}

/// The start of the names of the directories that inputs are written to.
pub open spec fn workspace_dir_prefix_text() -> Seq<char> {
    "lsp-fuzz-workspace_"@
}

pub fn workspace_dir_prefix() -> (r: &'static str)
    ensures
        r@ == workspace_dir_prefix_text(),
{
    "lsp-fuzz-workspace_"
}

/// A URI that a server reports for a file of a written workspace, turned back
/// into the virtual file system: whatever follows the workspace directory
/// is put after `lsp-fuzz://`. URIs outside any workspace are kept.
pub open spec fn spec_lift_uri(uri: Seq<char>) -> Seq<char> {
    match find_from(uri, workspace_dir_prefix_text(), 0) {
        Some(index) => {
            let in_workspace = match find_from(uri, seq!['/'], index) {
                Some(slash) => slash + 1,
                None => uri.len() as int,
            };
            protocol_prefix_text() + uri.skip(in_workspace)
        },
        None => uri,
    }
}

/// Lifts a localized URI back into the virtual `lsp-fuzz://` form.
pub fn lift_uri(uri: &str) -> (r: String)
    ensures
        r@ == spec_lift_uri(uri@),
{
    match find_str_from(uri, workspace_dir_prefix(), 0) {
        Some(index) => {
            let slash_text = "/";
            proof {
                reveal_strlit("/");
            }
            assert(slash_text@ =~= seq!['/']);
            let n = uri.unicode_len();
            let in_workspace = match find_str_from(uri, slash_text, index) {
                Some(slash) => slash + 1,
                None => n,
            };
            let mut out = String::from_str(protocol_prefix());
            let rest = uri.substring_char(in_workspace, n);
            out.append(rest);
            assert(rest@ =~= uri@.skip(in_workspace as int));
            out
        },
        None => String::from_str(uri),
    }
}

/// The text of the URI a server is sent for a virtual URI, once the
/// workspace is written to `workspace_dir`: `file://<dir>/<path>`.
pub open spec fn spec_localize_uri(uri: Seq<char>, workspace_dir: Seq<char>) -> Seq<char> {
    "file://"@ + workspace_dir + seq!['/'] + spec_path_from_virtual_uri(uri)->0
}

/// Localizes a virtual URI into the written workspace.
pub fn localize_uri(uri: &str, workspace_dir: &str) -> (r: String)
    requires
        spec_path_from_virtual_uri(uri@) is Some,
    ensures
        r@ == spec_localize_uri(uri@, workspace_dir@),
{
    let path = match path_from_virtual_uri(uri) {
        Some(p) => p,
        None => "",
    };
    let mut out = String::from_str("file://");
    out.append(workspace_dir);
    out.append("/");
    proof {
        reveal_strlit("/");
    }
    out.append(path);
    out
}

/// A path survives the trip through its virtual URI: the URI made for a path
/// names that same path.
pub proof fn lemma_virtual_uri_roundtrip(path: Seq<char>)
    ensures
        spec_path_from_virtual_uri(spec_virtual_uri_text(path)) == Some(path),
{
    let u = spec_virtual_uri_text(path);
    assert(u.take(11) =~= protocol_prefix_text());
    assert(u.skip(11) =~= path);
}

/// Normalising a workspace directory twice changes nothing more, and the
/// result always ends with `/`.
pub proof fn lemma_workspace_uri_normalized(dir: Seq<char>)
    ensures
        spec_workspace_uri(spec_workspace_uri(dir)) == spec_workspace_uri(dir),
        spec_workspace_uri(dir).len() > 0,
        spec_workspace_uri(dir).last() == '/',
{
}

/// Lifting a URI localized into a workspace directory gives back that virtual
/// URI: when the directory is `base`, the
/// workspace prefix and a `tag` without `/`, and the prefix occurs nowhere
/// earlier in `file://<dir>`.
pub proof fn lemma_lift_localized(uri: Seq<char>, base: Seq<char>, tag: Seq<char>)
    requires
        spec_path_from_virtual_uri(uri) is Some,
        find_from("file://"@ + (base + workspace_dir_prefix_text() + tag), workspace_dir_prefix_text(), 0)
            == Some(7 + base.len() as int),
        !tag.contains('/'),
    ensures
        spec_lift_uri(spec_localize_uri(uri, base + workspace_dir_prefix_text() + tag)) == uri,
{
    reveal_strlit("file://");
    reveal_strlit("lsp-fuzz-workspace_");
    reveal_strlit("lsp-fuzz://");
    let prefix = workspace_dir_prefix_text();
    let dir = base + prefix + tag;
    let head = "file://"@ + dir;
    let path = spec_path_from_virtual_uri(uri)->0;
    let rest = seq!['/'] + path;
    let localized = spec_localize_uri(uri, dir);
    assert(localized =~= head + rest);
    lemma_find_from_extend(head, rest, prefix, 0);
    let index: int = 7 + base.len() as int;
    let slash: int = 7 + dir.len() as int;
    assert forall|j: int| index <= j < slash implies #[trigger] localized.subrange(j, j + 1) != seq!['/'] by {
        if j < index + prefix.len() {
            assert(localized[j] == prefix[j - index]);
        } else {
            assert(localized[j] == tag[j - index - prefix.len()]);
        }
        assert(localized.subrange(j, j + 1)[0] == localized[j]);
    }
    lemma_find_from_miss(localized, seq!['/'], index, slash);
    assert(localized.subrange(slash, slash + 1) =~= seq!['/']);
    assert(localized.skip(slash + 1) =~= path);
    assert(uri.take(11) =~= protocol_prefix_text());
    assert(protocol_prefix_text() + path =~= uri);
}

} // verus!
