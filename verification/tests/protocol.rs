use lsp_fuzz::decimal::{encode_decimal, parse_decimal};
use lsp_fuzz::json_rpc::{
    read_headers, read_lsp_payload, to_lsp_payload, usize_to_string, HeaderError, JsonRPC20,
    JsonRPCMessage, MessageId, PayloadError,
};
use lsp_fuzz::matching::RequestResponseMatching;
use lsp_fuzz::matching::message_eq;
use lsp_fuzz::message::{into_json_rpc_all, InitializeParams, LspMessage, MessageKind, Params, TraceValue};
use lsp_fuzz::messages::LspMessageSequence;
use lsp_fuzz::session::{frame_contents, message_sequence};
use lsp_fuzz::uri::{
    lift_uri, localize_uri, path_from_virtual_uri, protocol_prefix, virtual_uri_for_path,
    workspace_dir_prefix, workspace_uri,
};

fn params(text: &str) -> serde_json::Value {
    serde_json::Value::String(text.to_owned())
}

fn json(text: &str) -> Params {
    Params::Json(params(text))
}

#[test]
fn normalize_workspace_uri_trailing_slash() {
    assert_eq!(workspace_uri("/tmp/workspace"), "/tmp/workspace/");
    assert_eq!(workspace_uri("/tmp/workspace/"), "/tmp/workspace/");
}

#[test]
fn create_virtual_uri_for_workspace_path() {
    let uri = virtual_uri_for_path("src/lib.rs").unwrap();
    assert_eq!(uri, "lsp-fuzz://src/lib.rs");
    assert_eq!(
        uri.parse::<lsp_types::Uri>().unwrap(),
        "lsp-fuzz://src/lib.rs".parse::<lsp_types::Uri>().unwrap()
    );
}

#[test]
fn virtual_uri_rejects_text_that_is_no_uri() {
    assert_eq!(virtual_uri_for_path("a b"), None);
    assert!("lsp-fuzz://a b".parse::<lsp_types::Uri>().is_err());
}

#[test]
fn virtual_uri_path_round_trip() {
    let uri = virtual_uri_for_path("dir/main.c").unwrap();
    assert_eq!(path_from_virtual_uri(&uri), Some("dir/main.c"));
    assert_eq!(path_from_virtual_uri("file:///main.c"), None);
    assert_eq!(protocol_prefix(), "lsp-fuzz://");
}

#[test]
fn workspace_uri_is_idempotent() {
    let once = workspace_uri("/a/b");
    assert_eq!(workspace_uri(&once), once);
    assert!(once.ends_with('/'));
    assert_eq!(workspace_uri(""), "/");
}

#[test]
fn lift_uri_back_into_virtual_file_system() {
    assert_eq!(workspace_dir_prefix(), "lsp-fuzz-workspace_");
    assert_eq!(
        lift_uri("file:///tmp/lsp-fuzz-workspace_42/src/lib.rs"),
        "lsp-fuzz://src/lib.rs"
    );
    assert_eq!(lift_uri("file:///tmp/lsp-fuzz-workspace_42"), "lsp-fuzz://");
    assert_eq!(lift_uri("file:///elsewhere/main.c"), "file:///elsewhere/main.c");
}

#[test]
fn localize_uri_into_workspace() {
    assert_eq!(localize_uri("lsp-fuzz://src/lib.rs", "/tmp/ws"), "file:///tmp/ws/src/lib.rs");
}

#[test]
fn lifting_a_localized_uri_gives_its_path() {
    let dir = "/tmp/lsp-fuzz-workspace_9";
    let localized = localize_uri("lsp-fuzz://src/lib.rs", dir);
    assert_eq!(localized, "file:///tmp/lsp-fuzz-workspace_9/src/lib.rs");
    assert_eq!(lift_uri(&localized), "lsp-fuzz://src/lib.rs");
    assert_eq!(lift_uri(&localize_uri("lsp-fuzz://main.c", "lsp-fuzz-workspace_0")), "lsp-fuzz://main.c");
}

#[test]
fn jsonrpc_version_serialize() {
    let version = JsonRPC20::version();
    let serialized = serde_json::to_value(version).unwrap();
    assert!(serialized.is_string());
    assert_eq!(serialized.as_str().unwrap(), "2.0");
}

#[test]
fn jsonrpc_version_deserialize() {
    let text: String = serde_json::from_str("\"2.0\"").unwrap();
    assert!(matches!(JsonRPC20::from_version(&text), Some(JsonRPC20)));
    assert!(JsonRPC20::from_version("1.0").is_none());
}

#[test]
fn decimal_text_round_trip() {
    for n in [0usize, 7, 10, 178, 4096, usize::MAX] {
        let text = encode_decimal(n);
        assert_eq!(text, n.to_string().into_bytes());
        assert_eq!(parse_decimal(&text), Some(n));
    }
    assert_eq!(parse_decimal(b"+12"), Some(12));
    assert_eq!(parse_decimal(b""), None);
    assert_eq!(parse_decimal(b"1x"), None);
    assert_eq!(parse_decimal(b"99999999999999999999999"), None);
}

#[test]
fn message_id_text() {
    assert_eq!(usize_to_string(0), "0");
    assert_eq!(usize_to_string(1234), "1234");
    assert_eq!(MessageId::Number(5).to_string(), "5");
    assert_eq!(MessageId::String("abc".to_owned()).to_string(), "abc");
    assert_eq!(MessageId::from(3usize), MessageId::Number(3));
    assert_eq!(MessageId::from("x".to_owned()), MessageId::String("x".to_owned()));
}

#[test]
fn payload_has_content_length_header() {
    let payload = to_lsp_payload(b"{}");
    assert_eq!(payload, b"Content-Length: 2\r\n\r\n{}".to_vec());
}

#[test]
fn parse_payload() {
    let payload = b"Content-Length: 107\r\n\r\n{\"jsonrpc\":\"2.0\",\"id\":1,\"method\":\"initialize\",\"params\":{\"processId\":null,\"rootUri\":null,\"capabilities\":{}}}";
    let (content, end) = read_lsp_payload(payload).unwrap();
    assert_eq!(content.len(), 107);
    assert_eq!(end, payload.len());
    let value: serde_json::Value = serde_json::from_slice(content).unwrap();
    assert_eq!(value["method"], "initialize");
}

#[test]
fn payload_round_trip_leaves_the_rest() {
    let content = b"{\"a\":1}";
    let mut stream = to_lsp_payload(content);
    let first_len = stream.len();
    stream.extend_from_slice(b"Content-Length: 0\r\n\r\n");
    let (read, end) = read_lsp_payload(&stream).unwrap();
    assert_eq!(read, content);
    assert_eq!(end, first_len);
    let (empty, end2) = read_lsp_payload(&stream[end..]).unwrap();
    assert!(empty.is_empty());
    assert_eq!(end + end2, stream.len());
}

#[test]
fn header_errors() {
    assert_eq!(read_headers(b""), Err(HeaderError::UnexpectedEof));
    assert_eq!(read_headers(b"Content-Length: 1\n"), Err(HeaderError::MissingLineTerminator));
    assert_eq!(read_headers(b"Content-Length 1\r\n"), Err(HeaderError::InvalidHeader));
    assert_eq!(read_headers(b"Content-Length: x\r\n"), Err(HeaderError::InvalidContentLength));
    assert_eq!(read_headers(b"X-\xff: 1\r\n\r\n"), Err(HeaderError::InvalidUtf8));
    assert_eq!(read_headers("X-\u{e9}: 1\r\n\r\n".as_bytes()), Ok((None, 11)));
    assert_eq!(read_headers(b"X-Other: 1\r\n\r\n"), Ok((None, 14)));
    assert_eq!(
        read_lsp_payload(b"X-Other: 1\r\n\r\n").unwrap_err(),
        PayloadError::MissingContentLength
    );
    assert_eq!(
        read_lsp_payload(b"Content-Length: 1\n").unwrap_err(),
        PayloadError::Header(HeaderError::MissingLineTerminator)
    );
}

#[test]
fn requests_are_numbered_in_order() {
    let msgs = vec![
        LspMessage::request("a".to_owned(), json("1")),
        LspMessage::notification("b".to_owned(), json("2")),
        LspMessage::request("c".to_owned(), json("3")),
    ];
    let (rpc, next) = into_json_rpc_all(msgs, 2);
    assert_eq!(next, 4);
    assert!(matches!(&rpc[0], JsonRPCMessage::Request { id: MessageId::Number(2), method, .. } if method == "a"));
    assert!(matches!(&rpc[1], JsonRPCMessage::Notification { method, .. } if method == "b"));
    assert!(matches!(&rpc[2], JsonRPCMessage::Request { id: MessageId::Number(3), method, .. } if method == "c"));
}

#[test]
fn enumerated_ids_match_sent_ids() {
    let seq = LspMessageSequence::from_vec(vec![
        LspMessage::notification("n".to_owned(), json("")),
        LspMessage::request("r1".to_owned(), json("")),
        LspMessage::request("r2".to_owned(), json("")),
    ]);
    let mut it = seq.enumerate_messages();
    let mut ids = Vec::new();
    while let Some((id, msg)) = it.next() {
        ids.push((id, msg.method.clone()));
    }
    assert_eq!(
        ids,
        vec![
            (None, "n".to_owned()),
            (Some(MessageId::Number(0)), "r1".to_owned()),
            (Some(MessageId::Number(1)), "r2".to_owned()),
        ]
    );
}

fn init() -> InitializeParams {
    InitializeParams {
        client_name: "lsp-fuzz".to_owned(),
        client_version: "1".to_owned(),
        root_uri: "lsp-fuzz://".to_owned(),
        workspace_folders: vec![],
        capabilities: serde_json::Value::Null,
        trace: TraceValue::Off,
    }
}

fn opened(uri: &str) -> lsp_fuzz::lsp_input::DidOpenContents {
    lsp_fuzz::lsp_input::DidOpenContents {
        uri: uri.to_owned(),
        language_id: "c".to_owned(),
        version: 1,
        text: String::new(),
    }
}

#[test]
fn session_message_order() {
    let user = vec![LspMessage::request("textDocument/hover".to_owned(), json("h"))];
    let seq = message_sequence(init(), vec![opened("lsp-fuzz://a.c"), opened("lsp-fuzz://b.c")], user);
    let methods: Vec<&str> = seq.iter().map(|m| m.method.as_str()).collect();
    assert_eq!(
        methods,
        vec![
            "initialize",
            "initialized",
            "textDocument/didOpen",
            "textDocument/didOpen",
            "textDocument/hover",
            "shutdown",
            "exit",
        ]
    );
    assert_eq!(seq[0].kind, MessageKind::Request);
    assert!(matches!(&seq[0].params, Params::Initialize(p) if p.client_version == "1"));
    assert!(matches!(seq[1].params, Params::EmptyObject));
    assert!(matches!(&seq[2].params, Params::DidOpen(c) if c.uri == "lsp-fuzz://a.c"));
    assert!(matches!(&seq[3].params, Params::DidOpen(c) if c.uri == "lsp-fuzz://b.c"));
    assert!(matches!(seq[5].params, Params::Null));
    assert!(matches!(seq[6].params, Params::Null));
    assert_eq!(seq[6].kind, MessageKind::Notification);
}

#[test]
fn session_bytes_read_back_message_by_message() {
    let contents = vec![b"{\"a\":1}".to_vec(), Vec::new(), b"xyz".to_vec()];
    let bytes = frame_contents(&contents);
    let mut offset = 0;
    for content in &contents {
        let (read, end) = read_lsp_payload(&bytes[offset..]).unwrap();
        assert_eq!(read, content.as_slice());
        offset += end;
    }
    assert_eq!(offset, bytes.len());
}

#[test]
fn responses_pair_with_sent_requests() {
    let sent = vec![
        LspMessage::request("first".to_owned(), json("")),
        LspMessage::notification("note".to_owned(), json("")),
        LspMessage::request("second".to_owned(), json("")),
    ];
    let received = vec![
        JsonRPCMessage::response(Some(MessageId::Number(3)), Some(params("r2")), None),
        JsonRPCMessage::response(Some(MessageId::Number(2)), None, Some(params("e1"))),
        JsonRPCMessage::response(Some(MessageId::Number(9)), Some(params("lost")), None),
        JsonRPCMessage::notification("window/logMessage".to_owned(), json("log")),
        JsonRPCMessage::request(MessageId::Number(0), "client/registerCapability".to_owned(), json("reg")),
    ];
    let matching = RequestResponseMatching::match_messages(&sent, received);
    assert_eq!(matching.responses.len(), 1);
    assert_eq!(matching.responses[0].0.method, "second");
    assert_eq!(matching.find_response_of(&sent[2]), Some(&params("r2")));
    assert_eq!(matching.find_response_of(&sent[0]), None);
    assert_eq!(matching.errors.len(), 1);
    assert_eq!(matching.errors[0].0.method, "first");
    assert_eq!(matching.find_notifications("window/logMessage").len(), 1);
    assert_eq!(matching.find_notifications("other").len(), 0);
    assert_eq!(matching.requests_from_server.len(), 1);
    assert_eq!(matching.requests_from_server[0].kind, MessageKind::Request);
}

#[test]
fn equal_requests_share_their_answer() {
    let sent = vec![
        LspMessage::request("textDocument/hover".to_owned(), json("p")),
        LspMessage::request("textDocument/hover".to_owned(), json("p")),
        LspMessage::request("textDocument/hover".to_owned(), json("q")),
    ];
    let received = vec![JsonRPCMessage::response(Some(MessageId::Number(3)), Some(params("answer")), None)];
    let matching = RequestResponseMatching::match_messages(&sent, received);
    assert_eq!(matching.find_response_of(&sent[0]), Some(&params("answer")));
    assert_eq!(matching.find_response_of(&sent[1]), Some(&params("answer")));
    assert_eq!(matching.find_response_of(&sent[2]), None);
    let received = vec![
        JsonRPCMessage::response(Some(MessageId::Number(2)), Some(params("early")), None),
        JsonRPCMessage::response(Some(MessageId::Number(3)), Some(params("late")), None),
    ];
    let matching = RequestResponseMatching::match_messages(&sent, received);
    assert_eq!(matching.find_response_of(&sent[0]), Some(&params("late")));
}

#[test]
fn messages_compare_by_method_kind_and_params() {
    let a = LspMessage::request("m".to_owned(), json("x"));
    assert!(message_eq(&a, &LspMessage::request("m".to_owned(), json("x"))));
    assert!(!message_eq(&a, &LspMessage::notification("m".to_owned(), json("x"))));
    assert!(!message_eq(&a, &LspMessage::request("n".to_owned(), json("x"))));
    assert!(!message_eq(&a, &LspMessage::request("m".to_owned(), json("y"))));
    assert!(!message_eq(&a, &LspMessage::request("m".to_owned(), Params::Null)));
    assert!(message_eq(
        &LspMessage::request("shutdown".to_owned(), Params::Null),
        &LspMessage::request("shutdown".to_owned(), Params::Null)
    ));
}
