//! JSON-RPC 2.0 messages and the `Content-Length` framing that LSP puts around them.
use vstd::prelude::*;
use vstd::slice::slice_subrange;

use crate::message::Params;
use crate::decimal::{
    decimal_digits, encode_decimal, is_digit, lemma_decimal_digits_shape, lemma_parse_decimal_roundtrip,
    parse_decimal, spec_parse_usize,
};

verus! {

#[verifier::external_type_specification]
#[verifier::external_body]
pub struct ExJsonValue(serde_json::Value);

// ---------------------------------------------------------------------------
// Protocol version and message ids
// ---------------------------------------------------------------------------

/// JSON-RPC 2.0 protocol version.
#[derive(Debug, Clone, Copy, PartialEq, Eq)]
pub struct JsonRPC20;

/// The version text of JSON-RPC 2.0, as characters.
pub open spec fn jsonrpc_version_text() -> Seq<char> {
    seq!['2', '.', '0']
}

impl JsonRPC20 {
    /// The string representation of the JSON-RPC 2.0 protocol version.
    pub fn version() -> (r: &'static str)
        ensures
            r@ == jsonrpc_version_text(),
    {
        let v = "2.0";
        proof {
            reveal_strlit("2.0");
        }
        assert(v@ =~= jsonrpc_version_text());
        v
    }

    /// Accepts a `jsonrpc` field: the version must be exactly `2.0`.
    pub fn from_version(version: &str) -> (r: Option<JsonRPC20>)
        ensures
            r is Some <==> version@ == jsonrpc_version_text(),
    {
        let n = version.unicode_len();
        if n != 3 {
            return None;
        }
        let c0 = version.get_char(0);
        let c1 = version.get_char(1);
        let c2 = version.get_char(2);
        if c0 == '2' && c1 == '.' && c2 == '0' {
            assert(version@ =~= jsonrpc_version_text());
            Some(JsonRPC20)
        } else {
            None
        }
    }
}

/// The ID of a JSON-RPC message.
#[derive(Debug, Clone, PartialEq, Eq, Hash, PartialOrd, Ord)]
pub enum MessageId {
    Number(usize),
    String(String),
}

impl From<usize> for MessageId {
    fn from(id: usize) -> (r: Self) {
        MessageId::Number(id)
    }
}

impl vstd::std_specs::convert::FromSpecImpl<usize> for MessageId {
    open spec fn obeys_from_spec() -> bool {
        true
    }

    open spec fn from_spec(id: usize) -> Self {
        MessageId::Number(id)
    }
}

impl From<String> for MessageId {
    fn from(id: String) -> (r: Self) {
        MessageId::String(id)
    }
}

impl vstd::std_specs::convert::FromSpecImpl<String> for MessageId {
    open spec fn obeys_from_spec() -> bool {
        true
    }

    open spec fn from_spec(id: String) -> Self {
        MessageId::String(id)
    }
}

/// The characters of the decimal text of `n`.
pub open spec fn decimal_chars(n: nat) -> Seq<char> {
    decimal_digits(n).map_values(|b: u8| b as char)
}

fn digit_text(d: u8) -> (r: &'static str)
    requires
        d < 10,
    ensures
        r@ == seq![(48 + d) as char],
{
    proof {
        reveal_strlit("0");
        reveal_strlit("1");
        reveal_strlit("2");
        reveal_strlit("3");
        reveal_strlit("4");
        reveal_strlit("5");
        reveal_strlit("6");
        reveal_strlit("7");
        reveal_strlit("8");
        reveal_strlit("9");
    }
    let r = match d {
        0 => "0",
        1 => "1",
        2 => "2",
        3 => "3",
        4 => "4",
        5 => "5",
        6 => "6",
        7 => "7",
        8 => "8",
        _ => "9",
    };
    assert(r@ =~= seq![(48 + d) as char]);
    r
}

/// The decimal text of `n` as a `String`.
pub fn u64_to_string(n: u64) -> (r: String)
    ensures
        r@ == decimal_chars(n as nat),
{
    let mut digits: Vec<u8> = Vec::new();
    crate::decimal::push_decimal(&mut digits, n);
    assert(digits@ =~= decimal_digits(n as nat));
    proof {
        lemma_decimal_digits_shape(n as nat);
    }
    let mut out = String::new();
    let mut i: usize = 0;
    while i < digits.len()
        invariant
            i <= digits.len(),
            digits@ == decimal_digits(n as nat),
            crate::decimal::all_digits(digits@),
            out@ =~= digits@.take(i as int).map_values(|b: u8| b as char),
        decreases digits.len() - i,
    {
        let b = digits[i];
        assert(crate::decimal::is_digit(digits@[i as int]));
        let t = digit_text(b - 48u8);
        out.append(t);
        assert(digits@.take(i + 1).map_values(|b: u8| b as char) =~= digits@.take(
            i as int,
        ).map_values(|b: u8| b as char).push(b as char));
        i = i + 1;
    }
    assert(digits@.take(digits.len() as int) =~= digits@);
    out
}

/// The decimal text of `n` as a `String`.
pub fn usize_to_string(n: usize) -> (r: String)
    ensures
        r@ == decimal_chars(n as nat),
{
    u64_to_string(n as u64)
}

/// The text of a message id.
pub open spec fn message_id_text(id: MessageId) -> Seq<char> {
    match id {
        MessageId::Number(n) => decimal_chars(n as nat),
        MessageId::String(s) => s@,
    }
}

impl MessageId {
    /// The id as text: the decimal number, or the string itself.
    pub fn to_string(&self) -> (r: String)
        ensures
            r@ == message_id_text(*self),
    {
        match self {
            MessageId::Number(n) => usize_to_string(*n),
            MessageId::String(s) => s.clone(),
        }
    }
}

// ---------------------------------------------------------------------------
// Messages
// ---------------------------------------------------------------------------

/// A JSON-RPC message: a request, a notification, or a response.
#[derive(Debug)]
pub enum JsonRPCMessage {
    Request { jsonrpc: JsonRPC20, id: MessageId, method: String, params: Params },
    Notification { jsonrpc: JsonRPC20, method: String, params: Params },
    Response {
        jsonrpc: JsonRPC20,
        id: Option<MessageId>,
        result: Option<serde_json::Value>,
        error: Option<serde_json::Value>,
    },
}

impl JsonRPCMessage {
    pub fn request(id: MessageId, method: String, params: Params) -> (r: Self)
        ensures
            r == (JsonRPCMessage::Request { jsonrpc: JsonRPC20, id, method, params }),
    {
        JsonRPCMessage::Request { jsonrpc: JsonRPC20, id, method, params }
    }

    pub fn notification(method: String, params: Params) -> (r: Self)
        ensures
            r == (JsonRPCMessage::Notification { jsonrpc: JsonRPC20, method, params }),
    {
        JsonRPCMessage::Notification { jsonrpc: JsonRPC20, method, params }
    }

    pub fn response(
        id: Option<MessageId>,
        result: Option<serde_json::Value>,
        error: Option<serde_json::Value>,
    ) -> (r: Self)
        ensures
            r == (JsonRPCMessage::Response { jsonrpc: JsonRPC20, id, result, error }),
    {
        JsonRPCMessage::Response { jsonrpc: JsonRPC20, id, result, error }
    }

    /// The id of a request or a response; notifications have none.
    pub fn id(&self) -> (r: Option<&MessageId>)
        ensures
            r == (match *self {
                JsonRPCMessage::Request { id, .. } => Some(&id),
                JsonRPCMessage::Response { id, .. } => match id {
                    Some(i) => Some(&i),
                    None => None,
                },
                JsonRPCMessage::Notification { .. } => None,
            }),
    {
        match self {
            JsonRPCMessage::Request { id, .. } => Some(id),
            JsonRPCMessage::Response { id, .. } => id.as_ref(),
            JsonRPCMessage::Notification { .. } => None,
        }
    }

    /// The method of a request or a notification; responses have none.
    pub fn method(&self) -> (r: Option<&String>)
        ensures
            r == (match *self {
                JsonRPCMessage::Request { method, .. } => Some(&method),
                JsonRPCMessage::Notification { method, .. } => Some(&method),
                JsonRPCMessage::Response { .. } => None,
            }),
    {
        match self {
            JsonRPCMessage::Request { method, .. } => Some(method),
            JsonRPCMessage::Notification { method, .. } => Some(method),
            JsonRPCMessage::Response { .. } => None,
        }
    }
}

// ---------------------------------------------------------------------------
// Byte constants of the framing
// ---------------------------------------------------------------------------

/// `Content-Length`
pub open spec fn content_length_key() -> Seq<u8> {
    seq![67u8, 111u8, 110u8, 116u8, 101u8, 110u8, 116u8, 45u8, 76u8, 101u8, 110u8, 103u8, 116u8, 104u8]
}

/// `: `, between a header's name and its value.
pub open spec fn header_sep() -> Seq<u8> {
    seq![58u8, 32u8]
}

/// `\r\n`
pub open spec fn crlf() -> Seq<u8> {
    seq![13u8, 10u8]
}

/// The header block of a payload whose content is `len` bytes long, with the
/// blank line that ends it.
pub open spec fn spec_payload_header(len: nat) -> Seq<u8> {
    content_length_key() + header_sep() + decimal_digits(len) + crlf() + crlf()
}

/// An LSP payload: `Content-Length: <len>\r\n\r\n` followed by the content.
pub open spec fn spec_lsp_payload(content: Seq<u8>) -> Seq<u8> {
    spec_payload_header(content.len()) + content
}

fn content_length_key_bytes() -> (r: Vec<u8>)
    ensures
        r@ == content_length_key(),
{
    let mut v: Vec<u8> = Vec::new();
    v.push(67u8);
    v.push(111u8);
    v.push(110u8);
    v.push(116u8);
    v.push(101u8);
    v.push(110u8);
    v.push(116u8);
    v.push(45u8);
    v.push(76u8);
    v.push(101u8);
    v.push(110u8);
    v.push(103u8);
    v.push(116u8);
    v.push(104u8);
    assert(v@ =~= content_length_key());
    v
}

/// Appends all of `bytes` to `out`.
pub fn append_bytes(out: &mut Vec<u8>, bytes: &[u8])
    ensures
        final(out)@ == old(out)@ + bytes@,
{
    let mut i: usize = 0;
    while i < bytes.len()
        invariant
            i <= bytes.len(),
            out@ == old(out)@ + bytes@.take(i as int),
        decreases bytes.len() - i,
    {
        out.push(bytes[i]);
        assert(bytes@.take(i + 1) =~= bytes@.take(i as int).push(bytes@[i as int]));
        i = i + 1;
    }
    assert(bytes@.take(bytes.len() as int) =~= bytes@);
}

/// Byte-wise equality of two slices.
pub fn bytes_eq(a: &[u8], b: &[u8]) -> (r: bool)
    ensures
        r == (a@ == b@),
{
    if a.len() != b.len() {
        return false;
    }
    let mut i: usize = 0;
    while i < a.len()
        invariant
            a.len() == b.len(),
            i <= a.len(),
            forall|j: int| 0 <= j < i ==> a@[j] == b@[j],
        decreases a.len() - i,
    {
        if a[i] != b[i] {
            return false;
        }
        i = i + 1;
    }
    assert(a@ =~= b@);
    true
}

/// Wraps `content` into an LSP payload: the `Content-Length` header, a blank
/// line, then the content itself.
pub fn to_lsp_payload(content: &[u8]) -> (r: Vec<u8>)
    ensures
        r@ == spec_lsp_payload(content@),
{
    let mut out = content_length_key_bytes();
    out.push(58u8);
    out.push(32u8);
    let len_text = encode_decimal(content.len());
    append_bytes(&mut out, len_text.as_slice());
    out.push(13u8);
    out.push(10u8);
    out.push(13u8);
    out.push(10u8);
    append_bytes(&mut out, content);
    assert(out@ =~= spec_lsp_payload(content@));
    out
}

// ---------------------------------------------------------------------------
// Reading the header block
// ---------------------------------------------------------------------------

/// Index of the first `\n` in `s`.
pub open spec fn first_newline(s: Seq<u8>) -> Option<int>
    decreases s.len(),
{
    if s.len() == 0 {
        None
    } else if s[0] == 10u8 {
        Some(0)
    } else {
        match first_newline(s.drop_first()) {
            Some(k) => Some(k + 1),
            None => None,
        }
    }
}

/// The first line of `s` as `BufRead::read_line` reads it: up to and including
/// the first `\n`, or all of `s` when it holds none.
pub open spec fn first_line(s: Seq<u8>) -> Seq<u8> {
    match first_newline(s) {
        Some(k) => s.take(k + 1),
        None => s,
    }
}

pub open spec fn sep_at(s: Seq<u8>, i: int) -> bool {
    0 <= i && i + 1 < s.len() && s[i] == 58u8 && s[i + 1] == 32u8
}

/// Index of the first `: ` in `s`, as `str::split_once(": ")` finds it.
pub open spec fn find_sep(s: Seq<u8>) -> Option<int>
    decreases s.len(),
{
    if s.len() < 2 {
        None
    } else if s[0] == 58u8 && s[1] == 32u8 {
        Some(0)
    } else {
        match find_sep(s.drop_first()) {
            Some(k) => Some(k + 1),
            None => None,
        }
    }
}

pub open spec fn ends_with_crlf(line: Seq<u8>) -> bool {
    line.len() >= 2 && line[line.len() - 2] == 13u8 && line[line.len() - 1] == 10u8
}

/// What one header line does to the header reader.
#[derive(Debug, Clone, Copy, PartialEq, Eq)]
pub enum HeaderStep {
    /// The line was a header; the reader goes on with this content length.
    Continue(Option<usize>),
    /// The line was the blank line that ends the headers.
    Done(Option<usize>),
}

/// Why a header block could not be read.
#[derive(Debug, Clone, Copy, PartialEq, Eq)]
pub enum HeaderError {
    /// No data was left where a header line was expected.
    UnexpectedEof,
    /// The header line is not UTF-8.
    InvalidUtf8,
    /// The header does not end with `\r\n`.
    MissingLineTerminator,
    /// The header holds no `: `.
    InvalidHeader,
    /// The value of `Content-Length` is not a decimal `usize`.
    InvalidContentLength,
}

/// `std::str::from_utf8` accepts exactly the UTF-8 byte sequences.
#[verifier::external_body]
fn utf8_valid(bytes: &[u8]) -> (r: bool)
    ensures
        r == vstd::utf8::valid_utf8(bytes@),
{
    std::str::from_utf8(bytes).is_ok()
}

/// Bytes that are all ASCII are UTF-8.
proof fn lemma_ascii_valid_utf8(bytes: Seq<u8>)
    requires
        forall|i: int| 0 <= i < bytes.len() ==> #[trigger] bytes[i] < 128,
    ensures
        vstd::utf8::valid_utf8(bytes),
    decreases bytes.len(),
{
    if bytes.len() > 0 {
        let b = bytes[0];
        assert((b & 0x7f) <= 0x7f) by (bit_vector);
        let rest = bytes.subrange(1, bytes.len() as int);
        assert forall|i: int| 0 <= i < rest.len() implies #[trigger] rest[i] < 128 by {
            assert(rest[i] == bytes[i + 1]);
        }
        lemma_ascii_valid_utf8(rest);
    }
}

/// One step of the header reader, on one line as `read_line` returns it: a
/// line that is not UTF-8 is refused as `read_line` refuses it.
pub open spec fn spec_header_step(content_length: Option<usize>, line: Seq<u8>) -> Result<
    HeaderStep,
    HeaderError,
> {
    if line.len() == 0 {
        Err(HeaderError::UnexpectedEof)
    } else if !vstd::utf8::valid_utf8(line) {
        Err(HeaderError::InvalidUtf8)
    } else if !ends_with_crlf(line) {
        Err(HeaderError::MissingLineTerminator)
    } else {
        let body = line.take(line.len() - 2);
        if body.len() == 0 {
            Ok(HeaderStep::Done(content_length))
        } else {
            match find_sep(body) {
                None => Err(HeaderError::InvalidHeader),
                Some(i) => if body.take(i) == content_length_key() {
                    match spec_parse_usize(body.skip(i + 2)) {
                        Some(v) => Ok(HeaderStep::Continue(Some(v))),
                        None => Err(HeaderError::InvalidContentLength),
                    }
                } else {
                    Ok(HeaderStep::Continue(content_length))
                },
            }
        }
    }
}

/// Reads header lines from the front of `buf` until the blank line; gives the
/// content length last announced, and how many bytes the header block took.
pub open spec fn spec_read_headers_from(buf: Seq<u8>, content_length: Option<usize>) -> Result<
    (Option<usize>, int),
    HeaderError,
>
    decreases buf.len(),
{
    let line = first_line(buf);
    if line.len() == 0 || line.len() > buf.len() {
        Err(HeaderError::UnexpectedEof)
    } else {
        match spec_header_step(content_length, line) {
            Err(e) => Err(e),
            Ok(HeaderStep::Done(c)) => Ok((c, line.len() as int)),
            Ok(HeaderStep::Continue(c)) => match spec_read_headers_from(buf.skip(line.len() as int), c) {
                Ok((c2, n)) => Ok((c2, n + line.len())),
                Err(e) => Err(e),
            },
        }
    }
}

pub open spec fn spec_read_headers(buf: Seq<u8>) -> Result<(Option<usize>, int), HeaderError> {
    spec_read_headers_from(buf, None)
}

/// Why no payload could be read.
#[derive(Debug, Clone, Copy, PartialEq, Eq)]
pub enum PayloadError {
    /// The header block was malformed.
    Header(HeaderError),
    /// The message does not contain a length header.
    MissingContentLength,
}

/// The content of the payload at the front of `buf`, and where it ends: at most
/// `Content-Length` bytes after the header block, fewer when `buf` ends first.
pub open spec fn spec_read_lsp_payload(buf: Seq<u8>) -> Result<(Seq<u8>, int), PayloadError> {
    match spec_read_headers(buf) {
        Err(e) => Err(PayloadError::Header(e)),
        Ok((None, _)) => Err(PayloadError::MissingContentLength),
        Ok((Some(n), h)) => {
            let end = if h + n <= buf.len() {
                h + n
            } else {
                buf.len() as int
            };
            Ok((buf.subrange(h, end), end))
        },
    }
}

// --- lemmas on the search functions ---

pub(crate) proof fn lemma_first_newline_bounds(s: Seq<u8>)
    ensures
        first_newline(s) matches Some(k) ==> 0 <= k < s.len() && s[k] == 10u8,
    decreases s.len(),
{
    if s.len() > 0 && s[0] != 10u8 {
        lemma_first_newline_bounds(s.drop_first());
    }
}

pub(crate) proof fn lemma_first_newline_index(s: Seq<u8>, k: int)
    requires
        0 <= k <= s.len(),
        forall|j: int| 0 <= j < k ==> s[j] != 10u8,
        k < s.len() ==> s[k] == 10u8,
    ensures
        first_newline(s) == (if k < s.len() {
            Some(k)
        } else {
            None::<int>
        }),
    decreases s.len(),
{
    if s.len() > 0 && k > 0 {
        let t = s.drop_first();
        assert forall|j: int| 0 <= j < k - 1 implies t[j] != 10u8 by {
            assert(t[j] == s[j + 1]);
        }
        lemma_first_newline_index(t, k - 1);
    }
}

proof fn lemma_first_newline_concat(a: Seq<u8>, b: Seq<u8>)
    requires
        forall|j: int| 0 <= j < a.len() ==> a[j] != 10u8,
    ensures
        first_newline(a + b) == (match first_newline(b) {
            Some(k) => Some(k + a.len()),
            None => None::<int>,
        }),
    decreases a.len(),
{
    if a.len() > 0 {
        let t = a.drop_first();
        assert((a + b).drop_first() =~= t + b);
        assert((a + b)[0] == a[0]);
        assert forall|j: int| 0 <= j < t.len() implies t[j] != 10u8 by {
            assert(t[j] == a[j + 1]);
        }
        lemma_first_newline_concat(t, b);
    } else {
        assert(a + b =~= b);
    }
}

proof fn lemma_find_sep_index(s: Seq<u8>, k: int)
    requires
        0 <= k,
        forall|j: int| 0 <= j < k ==> !sep_at(s, j),
        k + 1 < s.len() ==> sep_at(s, k),
        k + 1 >= s.len() ==> k + 1 >= s.len(),
    ensures
        find_sep(s) == (if k + 1 < s.len() {
            Some(k)
        } else {
            None::<int>
        }),
    decreases s.len(),
{
    if s.len() >= 2 && k > 0 {
        let t = s.drop_first();
        assert(!sep_at(s, 0));
        assert forall|j: int| 0 <= j < k - 1 implies !sep_at(t, j) by {
            assert(!sep_at(s, j + 1));
        }
        if k < s.len() - 1 {
            assert(sep_at(s, k));
            assert(sep_at(t, k - 1));
        }
        lemma_find_sep_index(t, k - 1);
    } else if s.len() >= 2 && k == 0 {
        assert(sep_at(s, 0));
    } else if s.len() < 2 {
    }
}

/// `split_once(": ")` behaves on a no-colon prefix as on what follows it.
/// `: ` is first found right after a name that holds no `: `.
proof fn lemma_find_sep_after_name(key: Seq<u8>, rest: Seq<u8>)
    requires
        forall|i: int| 0 <= i < key.len() - 1 ==> !(#[trigger] key[i] == 58u8 && key[i + 1] == 32u8),
    ensures
        find_sep(key + seq![58u8, 32u8] + rest) == Some(key.len() as int),
    decreases key.len(),
{
    let s = key + seq![58u8, 32u8] + rest;
    if key.len() == 0 {
        assert(s[0] == 58u8 && s[1] == 32u8);
    } else {
        let t = key.drop_first();
        assert(s.drop_first() =~= t + seq![58u8, 32u8] + rest);
        assert(s[0] == key[0]);
        if key.len() >= 2 {
            assert(s[1] == key[1]);
        } else {
            assert(s[1] == 58u8);
        }
        assert forall|i: int| 0 <= i < t.len() - 1 implies !(#[trigger] t[i] == 58u8 && t[i + 1] == 32u8) by {
            assert(t[i] == key[i + 1] && t[i + 1] == key[i + 2]);
        }
        lemma_find_sep_after_name(t, rest);
    }
}

/// A header line `name: value` whose name is not `Content-Length` leaves
/// the content length read so far as it was, whatever it was: headers other
/// than `Content-Length` are skipped.
pub proof fn lemma_other_header_keeps_length(content_length: Option<usize>, key: Seq<u8>, value: Seq<u8>)
    requires
        key != seq![67u8, 111u8, 110u8, 116u8, 101u8, 110u8, 116u8, 45u8, 76u8, 101u8, 110u8, 103u8, 116u8, 104u8],
        forall|i: int| 0 <= i < key.len() - 1 ==> !(#[trigger] key[i] == 58u8 && key[i + 1] == 32u8),
        vstd::utf8::valid_utf8(key + seq![58u8, 32u8] + value + seq![13u8, 10u8]),
    ensures
        spec_header_step(content_length, key + seq![58u8, 32u8] + value + seq![13u8, 10u8]) == Ok::<
            HeaderStep,
            HeaderError,
        >(HeaderStep::Continue(content_length)),
{
    let line = key + seq![58u8, 32u8] + value + seq![13u8, 10u8];
    let body = key + seq![58u8, 32u8] + value;
    assert(line =~= body + seq![13u8, 10u8]);
    assert(line.take(line.len() - 2) =~= body);
    assert(body =~= key + seq![58u8, 32u8] + value);
    lemma_find_sep_after_name(key, value);
    assert(body.take(key.len() as int) =~= key);
}

/// A `Content-Length` header line sets the content length to its decimal
/// value, whatever was read before; the blank line ends the headers with the
/// content length read so far.
pub proof fn lemma_content_length_header_sets_length(content_length: Option<usize>, n: usize)
    ensures
        spec_header_step(
            content_length,
            seq![67u8, 111u8, 110u8, 116u8, 101u8, 110u8, 116u8, 45u8, 76u8, 101u8, 110u8, 103u8, 116u8, 104u8]
                + seq![58u8, 32u8] + decimal_digits(n as nat) + seq![13u8, 10u8],
        ) == Ok::<HeaderStep, HeaderError>(HeaderStep::Continue(Some(n))),
        spec_header_step(content_length, seq![13u8, 10u8]) == Ok::<HeaderStep, HeaderError>(
            HeaderStep::Done(content_length),
        ),
{
    let k = content_length_key();
    let d = decimal_digits(n as nat);
    lemma_decimal_digits_shape(n as nat);
    lemma_parse_decimal_roundtrip(n);
    let line = k + seq![58u8, 32u8] + d + seq![13u8, 10u8];
    assert(k =~= seq![67u8, 111u8, 110u8, 116u8, 101u8, 110u8, 116u8, 45u8, 76u8, 101u8, 110u8, 103u8, 116u8, 104u8]);
    assert forall|j: int| 0 <= j < line.len() implies #[trigger] line[j] < 128 by {
        if 16 <= j < 16 + d.len() {
            assert(line[j] == d[j - 16]);
            assert(is_digit(d[j - 16]));
        }
    }
    lemma_ascii_valid_utf8(line);
    let body = k + seq![58u8, 32u8] + d;
    assert(line.take(line.len() - 2) =~= body);
    assert forall|j: int| 0 <= j < k.len() implies k[j] != 58u8 by {}
    assert(body =~= k + (seq![58u8, 32u8] + d));
    lemma_find_sep_concat(k, seq![58u8, 32u8] + d);
    assert(find_sep(seq![58u8, 32u8] + d) == Some(0int));
    assert(body.take(14) =~= k);
    assert(body.skip(16) =~= d);
    lemma_ascii_valid_utf8(seq![13u8, 10u8]);
    assert(seq![13u8, 10u8].take(0) =~= Seq::<u8>::empty());
}

/// A `Content-Length` header followed by another header keeps its length:
/// the header block `Content-Length: n`, `name: value`, blank line announces
/// `n` and takes exactly those three lines, whatever follows.
#[verifier::rlimit(40)]
pub proof fn lemma_headers_keep_length_past_other_headers(
    n: usize,
    key: Seq<u8>,
    value: Seq<u8>,
    rest: Seq<u8>,
)
    requires
        key != seq![67u8, 111u8, 110u8, 116u8, 101u8, 110u8, 116u8, 45u8, 76u8, 101u8, 110u8, 103u8, 116u8, 104u8],
        forall|i: int| 0 <= i < key.len() - 1 ==> !(#[trigger] key[i] == 58u8 && key[i + 1] == 32u8),
        forall|i: int| 0 <= i < key.len() ==> #[trigger] key[i] != 10u8,
        forall|i: int| 0 <= i < value.len() ==> #[trigger] value[i] != 10u8,
        vstd::utf8::valid_utf8(key + seq![58u8, 32u8] + value + seq![13u8, 10u8]),
    ensures
        ({
            let first = seq![67u8, 111u8, 110u8, 116u8, 101u8, 110u8, 116u8, 45u8, 76u8, 101u8, 110u8, 103u8, 116u8, 104u8]
                + seq![58u8, 32u8] + decimal_digits(n as nat) + seq![13u8, 10u8];
            let other = key + seq![58u8, 32u8] + value + seq![13u8, 10u8];
            spec_read_headers(first + other + seq![13u8, 10u8] + rest) == Ok::<(Option<usize>, int), HeaderError>(
                (Some(n), (first.len() + other.len() + 2) as int),
            )
        }),
{
    let first = seq![67u8, 111u8, 110u8, 116u8, 101u8, 110u8, 116u8, 45u8, 76u8, 101u8, 110u8, 103u8, 116u8, 104u8]
        + seq![58u8, 32u8] + decimal_digits(n as nat) + seq![13u8, 10u8];
    let other = key + seq![58u8, 32u8] + value + seq![13u8, 10u8];
    let tail = seq![13u8, 10u8] + rest;
    let buf = first + other + seq![13u8, 10u8] + rest;
    let d = decimal_digits(n as nat);
    lemma_decimal_digits_shape(n as nat);
    lemma_content_length_header_sets_length(None, n);
    lemma_content_length_header_sets_length(Some(n), n);
    lemma_other_header_keeps_length(Some(n), key, value);
    // the first line
    assert(buf =~= first + (other + tail));
    assert forall|j: int| 0 <= j < first.len() - 1 implies first[j] != 10u8 by {
        if 16 <= j < 16 + d.len() {
            assert(first[j] == d[j - 16]);
            assert(is_digit(d[j - 16]));
        }
    }
    assert(buf[first.len() - 1] == 10u8);
    lemma_first_newline_index(buf, first.len() - 1);
    assert(first_line(buf) =~= first);
    let buf2 = buf.skip(first.len() as int);
    assert(buf2 =~= other + tail);
    // the second line
    assert forall|j: int| 0 <= j < other.len() - 1 implies buf2[j] != 10u8 by {
        assert(buf2[j] == other[j]);
        if j < key.len() {
            assert(other[j] == key[j]);
        } else if key.len() + 2 <= j < key.len() + 2 + value.len() {
            assert(other[j] == value[j - key.len() - 2]);
        }
    }
    assert(buf2[other.len() - 1] == 10u8);
    lemma_first_newline_index(buf2, other.len() - 1);
    assert(first_line(buf2) =~= other);
    let buf3 = buf2.skip(other.len() as int);
    assert(buf3 =~= tail);
    // the blank line
    assert(buf3[0] == 13u8 && buf3[1] == 10u8);
    lemma_first_newline_index(buf3, 1);
    assert(first_line(buf3) =~= seq![13u8, 10u8]);
    assert(spec_read_headers_from(buf3, Some(n)) == Ok::<(Option<usize>, int), HeaderError>((Some(n), 2int)));
    assert(spec_read_headers_from(buf2, Some(n)) == Ok::<(Option<usize>, int), HeaderError>(
        (Some(n), (2 + other.len()) as int),
    ));
}

proof fn lemma_find_sep_concat(a: Seq<u8>, b: Seq<u8>)
    requires
        forall|j: int| 0 <= j < a.len() ==> a[j] != 58u8,
    ensures
        find_sep(a + b) == (match find_sep(b) {
            Some(k) => Some(k + a.len()),
            None => None::<int>,
        }),
    decreases a.len(),
{
    if a.len() > 0 {
        let t = a.drop_first();
        assert((a + b).drop_first() =~= t + b);
        assert((a + b)[0] == a[0]);
        assert forall|j: int| 0 <= j < t.len() implies t[j] != 58u8 by {
            assert(t[j] == a[j + 1]);
        }
        lemma_find_sep_concat(t, b);
    } else {
        assert(a + b =~= b);
    }
}

pub(crate) fn find_newline_from(buf: &[u8], pos: usize) -> (k: usize)
    requires
        pos <= buf.len(),
    ensures
        pos <= k <= buf.len(),
        forall|j: int| pos <= j < k ==> buf@[j] != 10u8,
        k < buf.len() ==> buf@[k as int] == 10u8,
{
    let mut k = pos;
    while k < buf.len() && buf[k] != 10u8
        invariant
            pos <= k <= buf.len(),
            forall|j: int| pos <= j < k ==> buf@[j] != 10u8,
        decreases buf.len() - k,
    {
        k = k + 1;
    }
    k
}

fn find_sep_exec(s: &[u8]) -> (r: Option<usize>)
    ensures
        match r {
            Some(k) => find_sep(s@) == Some(k as int) && k + 1 < s.len(),
            None => find_sep(s@) == None::<int>,
        },
{
    let mut k: usize = 0;
    while s.len() >= 2 && k < s.len() - 1 && !(s[k] == 58u8 && s[k + 1] == 32u8)
        invariant
            k <= s.len(),
            forall|j: int| 0 <= j < k ==> !sep_at(s@, j),
        decreases s.len() - k,
    {
        k = k + 1;
    }
    proof {
        lemma_find_sep_index(s@, k as int);
    }
    if s.len() >= 2 && k < s.len() - 1 {
        Some(k)
    } else {
        None
    }
}

/// One step of the header reader: what a single line, as `read_line` returns
/// it, does given the content length read so far.
pub fn header_line_step(content_length: Option<usize>, line: &[u8]) -> (r: Result<
    HeaderStep,
    HeaderError,
>)
    ensures
        r == spec_header_step(content_length, line@),
{
    let len = line.len();
    if len == 0 {
        return Err(HeaderError::UnexpectedEof);
    }
    if !utf8_valid(line) {
        return Err(HeaderError::InvalidUtf8);
    }
    if len < 2 || line[len - 2] != 13u8 || line[len - 1] != 10u8 {
        return Err(HeaderError::MissingLineTerminator);
    }
    let body = slice_subrange(line, 0, len - 2);
    assert(body@ =~= line@.take(len - 2));
    if body.len() == 0 {
        return Ok(HeaderStep::Done(content_length));
    }
    match find_sep_exec(body) {
        None => Err(HeaderError::InvalidHeader),
        Some(i) => {
            let key = slice_subrange(body, 0, i);
            let value = slice_subrange(body, i + 2, body.len());
            assert(key@ =~= body@.take(i as int));
            assert(value@ =~= body@.skip(i + 2));
            let expected = content_length_key_bytes();
            if bytes_eq(key, expected.as_slice()) {
                match parse_decimal(value) {
                    Some(v) => Ok(HeaderStep::Continue(Some(v))),
                    None => Err(HeaderError::InvalidContentLength),
                }
            } else {
                Ok(HeaderStep::Continue(content_length))
            }
        },
    }
}

/// Reads the header block at the front of `buf`: gives the last announced
/// content length and the number of bytes up to and including the blank line.
pub fn read_headers(buf: &[u8]) -> (r: Result<(Option<usize>, usize), HeaderError>)
    ensures
        r matches Ok((_, n)) ==> n <= buf.len(),
        match r {
            Ok((c, n)) => spec_read_headers(buf@) == Ok::<(Option<usize>, int), HeaderError>(
                (c, n as int),
            ),
            Err(e) => spec_read_headers(buf@) == Err::<(Option<usize>, int), HeaderError>(e),
        },
{
    let mut pos: usize = 0;
    let mut content_length: Option<usize> = None;
    assert(buf@.skip(0) =~= buf@);
    loop
        invariant
            pos <= buf.len(),
            spec_read_headers(buf@) == (match spec_read_headers_from(
                buf@.skip(pos as int),
                content_length,
            ) {
                Ok((c, n)) => Ok((c, n + pos)),
                Err(e) => Err(e),
            }),
        decreases buf.len() - pos,
    {
        let ghost rest = buf@.skip(pos as int);
        let k = find_newline_from(buf, pos);
        let end = if k < buf.len() {
            k + 1
        } else {
            k
        };
        proof {
            lemma_first_newline_index(rest, k - pos);
        }
        let line = slice_subrange(buf, pos, end);
        assert(line@ =~= first_line(rest));
        if line.len() == 0 {
            return Err(HeaderError::UnexpectedEof);
        }
        match header_line_step(content_length, line) {
            Err(e) => {
                return Err(e);
            },
            Ok(HeaderStep::Done(c)) => {
                return Ok((c, end));
            },
            Ok(HeaderStep::Continue(c)) => {
                assert(rest.skip(line@.len() as int) =~= buf@.skip(end as int));
                content_length = c;
                pos = end;
            },
        }
    }
}

/// Reads the payload at the front of `buf`: the content that its
/// `Content-Length` announces (cut short where `buf` ends), and the offset just
/// past it.
pub fn read_lsp_payload(buf: &[u8]) -> (r: Result<(&[u8], usize), PayloadError>)
    ensures
        match r {
            Ok((content, end)) => spec_read_lsp_payload(buf@) == Ok::<(Seq<u8>, int), PayloadError>(
                (content@, end as int),
            ),
            Err(e) => spec_read_lsp_payload(buf@) == Err::<(Seq<u8>, int), PayloadError>(e),
        },
{
    match read_headers(buf) {
        Err(e) => Err(PayloadError::Header(e)),
        Ok((None, _)) => Err(PayloadError::MissingContentLength),
        Ok((Some(n), h)) => {
            let end = if n <= buf.len() - h {
                h + n
            } else {
                buf.len()
            };
            Ok((slice_subrange(buf, h, end), end))
        },
    }
}

// --- the round trip of framing and reading ---

proof fn lemma_read_frame_header(content: Seq<u8>, rest: Seq<u8>)
    requires
        content.len() <= usize::MAX,
    ensures
        spec_read_headers(spec_lsp_payload(content) + rest) == Ok::<(Option<usize>, int), HeaderError>(
            (Some(content.len() as usize), spec_payload_header(content.len()).len() as int),
        ),
{
    let n = content.len();
    let k = content_length_key();
    let d = decimal_digits(n);
    lemma_decimal_digits_shape(n);
    lemma_parse_decimal_roundtrip(n as usize);
    let line1 = k + header_sep() + d + crlf();
    let tail = crlf() + content + rest;
    let buf = spec_lsp_payload(content) + rest;
    assert(buf =~= line1 + tail);
    // the first line ends at the `\n` after the digits
    let pre = k + header_sep() + d + seq![13u8];
    assert forall|j: int| 0 <= j < pre.len() implies pre[j] != 10u8 by {
        if j >= 16 && j < 16 + d.len() {
            assert(pre[j] == d[j - 16]);
        }
    }
    assert(line1 + tail =~= pre + (seq![10u8] + tail));
    lemma_first_newline_concat(pre, seq![10u8] + tail);
    assert(first_newline(buf) == Some(pre.len() as int));
    assert(first_line(buf) =~= line1);
    assert forall|j: int| 0 <= j < line1.len() implies #[trigger] line1[j] < 128 by {
        if 16 <= j < 16 + d.len() {
            assert(line1[j] == d[j - 16]);
            assert(is_digit(d[j - 16]));
        }
    }
    lemma_ascii_valid_utf8(line1);
    // that line announces the length
    let body1 = k + header_sep() + d;
    assert(line1.take(line1.len() - 2) =~= body1);
    assert forall|j: int| 0 <= j < k.len() implies k[j] != 58u8 by {}
    assert(body1 =~= k + (header_sep() + d));
    lemma_find_sep_concat(k, header_sep() + d);
    assert(find_sep(header_sep() + d) == Some(0int));
    assert(find_sep(body1) == Some(14int));
    assert(body1.take(14) =~= k);
    assert(body1.skip(16) =~= d);
    assert(spec_header_step(None, line1) == Ok::<HeaderStep, HeaderError>(
        HeaderStep::Continue(Some(n as usize)),
    ));
    // the blank line ends the headers
    let buf2 = buf.skip(line1.len() as int);
    assert(buf2 =~= tail);
    assert(tail[0] == 13u8);
    assert(tail[1] == 10u8);
    lemma_first_newline_index(tail, 1);
    assert(first_line(tail) =~= crlf());
    assert(crlf().take(0) =~= Seq::<u8>::empty());
    lemma_ascii_valid_utf8(crlf());
    assert(spec_header_step(Some(n as usize), crlf()) == Ok::<HeaderStep, HeaderError>(
        HeaderStep::Done(Some(n as usize)),
    ));
    assert(spec_read_headers_from(buf2, Some(n as usize)) == Ok::<(Option<usize>, int), HeaderError>(
        (Some(n as usize), 2),
    ));
    assert(spec_payload_header(n).len() == line1.len() + 2);
}

/// Reading back a framed message: from a byte stream that starts with
/// `to_lsp_payload(content)`, the payload reader returns exactly `content` and
/// stops where the frame ends, whatever follows it.
pub proof fn lemma_payload_roundtrip(content: Seq<u8>, rest: Seq<u8>)
    requires
        content.len() <= usize::MAX,
    ensures
        spec_read_lsp_payload(spec_lsp_payload(content) + rest) == Ok::<(Seq<u8>, int), PayloadError>(
            (content, spec_lsp_payload(content).len() as int),
        ),
{
    lemma_read_frame_header(content, rest);
    let h = spec_payload_header(content.len()).len() as int;
    let buf = spec_lsp_payload(content) + rest;
    assert(buf.subrange(h, h + content.len()) =~= content);
}

} // verus!
