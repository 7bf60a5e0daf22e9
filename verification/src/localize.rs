//! Localizing the messages of a session into the directory its workspace is
//! written to: every JSON string that is a virtual `lsp-fuzz://` URI gets the
//! workspace's `file://` URI in place of that prefix.
use vstd::prelude::*;

use crate::json_rpc::append_bytes;
use crate::uri::{spec_workspace_uri, workspace_uri};

verus! {

/// The bytes of `"lsp-fuzz://`: a JSON string that starts a virtual URI.
pub open spec fn virtual_uri_quote() -> Seq<u8> {
    seq![34u8, 108u8, 115u8, 112u8, 45u8, 102u8, 117u8, 122u8, 122u8, 58u8, 47u8, 47u8]
}

/// A JSON string that is a virtual URI starts at `i` of `content`: the quote
/// there opens a string (no backslash escapes it) and `lsp-fuzz://` follows.
pub open spec fn virtual_uri_at(content: Seq<u8>, i: int) -> bool {
    &&& 0 <= i
    &&& i + 12 <= content.len()
    &&& content.subrange(i, i + 12) == virtual_uri_quote()
    &&& (i == 0 || content[i - 1] != 92u8)
}

/// `content` from `i` on, with `replacement` in place of the `lsp-fuzz://`
/// of every JSON string that starts with it.
pub open spec fn localized_from(content: Seq<u8>, replacement: Seq<u8>, i: int) -> Seq<u8>
    decreases content.len() - i,
{
    if i < 0 || i >= content.len() {
        Seq::empty()
    } else if virtual_uri_at(content, i) {
        seq![34u8] + replacement + localized_from(content, replacement, i + 12)
    } else {
        seq![content[i]] + localized_from(content, replacement, i + 1)
    }
}

/// Whether the twelve bytes at `i` of `content` are `"lsp-fuzz://`.
fn quote_at(content: &[u8], i: usize) -> (r: bool)
    requires
        i + 12 <= content@.len(),
    ensures
        r == (content@.subrange(i as int, i + 12) == virtual_uri_quote()),
{
    let pattern: [u8; 12] = [34u8, 108u8, 115u8, 112u8, 45u8, 102u8, 117u8, 122u8, 122u8, 58u8, 47u8, 47u8];
    assert(pattern@ =~= virtual_uri_quote());
    let mut k: usize = 0;
    assert(content@.len() == content.len());
    while k < 12
        invariant
            k <= 12,
            i + 12 <= content@.len(),
            content@.len() == content.len(),
            pattern@ == virtual_uri_quote(),
            forall|j: int| 0 <= j < k ==> content@[i + j] == pattern@[j],
        decreases 12 - k,
    {
        if content[i + k] != pattern[k] {
            assert(content@.subrange(i as int, i + 12)[k as int] != virtual_uri_quote()[k as int]);
            return false;
        }
        k = k + 1;
    }
    assert(content@.subrange(i as int, i + 12) =~= virtual_uri_quote());
    true
}

/// `content` with `replacement` in place of the `lsp-fuzz://` of every JSON
/// string that starts with it.
pub fn localize_json(content: &[u8], replacement: &[u8]) -> (r: Vec<u8>)
    ensures
        r@ == localized_from(content@, replacement@, 0),
{
    let mut out: Vec<u8> = Vec::new();
    let mut i: usize = 0;
    let n = content.len();
    assert(out@ + localized_from(content@, replacement@, 0) =~= localized_from(content@, replacement@, 0));
    while i < n
        invariant
            n == content@.len(),
            i <= n,
            out@ + localized_from(content@, replacement@, i as int) == localized_from(content@, replacement@, 0),
        decreases n - i,
    {
        let ghost before = out@;
        let starts = n - i >= 12 && quote_at(content, i) && (i == 0 || content[i - 1] != 92u8);
        assert(starts == virtual_uri_at(content@, i as int));
        if starts {
            out.push(34u8);
            append_bytes(&mut out, replacement);
            assert(out@ + localized_from(content@, replacement@, i + 12) =~= before + localized_from(
                content@,
                replacement@,
                i as int,
            ));
            i = i + 12;
        } else {
            out.push(content[i]);
            assert(out@ + localized_from(content@, replacement@, i + 1) =~= before + localized_from(
                content@,
                replacement@,
                i as int,
            ));
            i = i + 1;
        }
    }
    assert(localized_from(content@, replacement@, n as int) =~= Seq::<u8>::empty());
    assert(out@ =~= out@ + localized_from(content@, replacement@, n as int));
    out
}

/// A lower-case hexadecimal digit, for `n < 16`.
pub open spec fn hex_digit(n: u8) -> u8 {
    if n < 10 {
        (48 + n) as u8
    } else {
        (87 + n) as u8
    }
}

/// How `serde_json` writes one byte of a string: `"` and `\` behind a
/// backslash, the control bytes as `\b \t \n \f \r` or `\u00XX`, any
/// other byte as it is.
pub open spec fn escaped_byte(b: u8) -> Seq<u8> {
    if b == 34 {
        seq![92u8, 34u8]
    } else if b == 92 {
        seq![92u8, 92u8]
    } else if b == 8 {
        seq![92u8, 98u8]
    } else if b == 9 {
        seq![92u8, 116u8]
    } else if b == 10 {
        seq![92u8, 110u8]
    } else if b == 12 {
        seq![92u8, 102u8]
    } else if b == 13 {
        seq![92u8, 114u8]
    } else if b < 32 {
        seq![92u8, 117u8, 48u8, 48u8, hex_digit(b / 16), hex_digit(b % 16)]
    } else {
        seq![b]
    }
}

/// The bytes, each escaped.
pub open spec fn escaped_bytes(bytes: Seq<u8>) -> Seq<u8>
    decreases bytes.len(),
{
    if bytes.len() == 0 {
        Seq::empty()
    } else {
        escaped_bytes(bytes.drop_last()) + escaped_byte(bytes.last())
    }
}

/// The bytes that stand for `text` inside a JSON string: its UTF-8 bytes,
/// each escaped.
pub open spec fn json_escaped(text: Seq<char>) -> Seq<u8> {
    escaped_bytes(vstd::utf8::encode_utf8(text))
}

/// `serde_json::to_vec` of a `&str`: the JSON string literal of `text`, its
/// escaped bytes between `"`. Writing into a `Vec` cannot fail.
#[verifier::external_body]
fn json_string_literal(text: &str) -> (r: Vec<u8>)
    ensures
        r@ == seq![34u8] + json_escaped(text@) + seq![34u8],
{
    serde_json::to_vec(text).unwrap_or_default()
}

fn escaped_text(text: &str) -> (r: Vec<u8>)
    ensures
        r@ == json_escaped(text@),
{
    let literal = json_string_literal(text);
    let n = literal.len();
    assert(literal@.subrange(1, n - 1) =~= json_escaped(text@));
    let mut out: Vec<u8> = Vec::new();
    let mut k: usize = 1;
    while k + 1 < n
        invariant
            n == literal@.len(),
            n >= 2,
            1 <= k <= n - 1,
            out@ == literal@.subrange(1, k as int),
        decreases n - k,
    {
        out.push(literal[k]);
        assert(out@ =~= literal@.subrange(1, k + 1));
        k = k + 1;
    }
    out
}

/// The workspace URI of a workspace directory: `file://` and the directory
/// with exactly one trailing `/`.
pub open spec fn spec_workspace_file_uri(workspace_dir: Seq<char>) -> Seq<char> {
    "file://"@ + spec_workspace_uri(workspace_dir)
}

/// A message's content localized with the workspace URI `workspace_uri`:
/// each virtual URI `lsp-fuzz://<path>` becomes `<workspace_uri><path>`.
pub fn localize_content(content: &[u8], workspace_uri: &str) -> (r: Vec<u8>)
    ensures
        r@ == localized_from(content@, json_escaped(workspace_uri@), 0),
{
    let replacement = escaped_text(workspace_uri);
    localize_json(content, replacement.as_slice())
}

/// The contents localized into `workspace_dir`, each by its workspace URI.
pub open spec fn localized_contents(contents: Seq<Seq<u8>>, workspace_dir: Seq<char>) -> Seq<Seq<u8>> {
    contents.map_values(
        |c: Seq<u8>| localized_from(c, json_escaped(spec_workspace_file_uri(workspace_dir)), 0),
    )
}

} // verus!
