use lsp_fuzz::capabilities::all_symbol_kinds;
use lsp_fuzz::generation::{collect_generated, ConstGenerator, GenerationError};
use lsp_fuzz::json_rpc::{to_lsp_payload, JsonRPCMessage, MessageId};
use lsp_fuzz::localize::{localize_content, localize_json};
use lsp_fuzz::session::request_bytes;
use lsp_fuzz::lsp_input::{LspInput, TextDocument, WorkspaceEntry, WorkspaceFile};
use lsp_fuzz::message::{LspMessage, MessageKind, Params, TraceValue};
use lsp_fuzz::messages::{AppendMessage, LspMessageSequence};
use lsp_fuzz::mutators::MutationResult;
use lsp_fuzz::selection::position_at;
use libafl_bolts::rands::RomuDuoJrRand;

fn json_of(message: JsonRPCMessage) -> Vec<u8> {
    let mut map = serde_json::Map::new();
    match message {
        JsonRPCMessage::Request { id, method, params, .. } => {
            map.insert("jsonrpc".to_owned(), serde_json::Value::from("2.0"));
            let id = match id {
                MessageId::Number(n) => serde_json::Value::from(n),
                MessageId::String(s) => serde_json::Value::from(s),
            };
            map.insert("id".to_owned(), id);
            map.insert("method".to_owned(), serde_json::Value::from(method));
            let params = match params {
                Params::Json(value) => value,
                _ => panic!("JSON parameters were expected"),
            };
            map.insert("params".to_owned(), params);
        }
        _ => panic!("a request was expected"),
    }
    serde_json::to_vec(&serde_json::Value::Object(map)).unwrap()
}

#[test]
fn test_lsp_request() {
    let params = lsp_types::InitializeParams {
        workspace_folders: Some(vec![lsp_types::WorkspaceFolder {
            uri: "lsp-fuzz://".parse().unwrap(),
            name: "folder".to_string(),
        }]),
        ..Default::default()
    };
    let request = LspMessage::request("initialize".to_owned(), Params::Json(serde_json::to_value(params).unwrap()));
    let mut id = 1;
    let content = json_of(request.into_json_rpc(&mut id));
    let jsonrpc = to_lsp_payload(&localize_content(&content, "file:///path/to/folder/"));
    let header = b"Content-Length: 178\r\n\r\n";
    assert_eq!(jsonrpc[..header.len()], header[..]);
    let json_value: serde_json::Value = serde_json::from_slice(&jsonrpc[header.len()..]).unwrap();
    assert_eq!(json_value["jsonrpc"], "2.0");
    assert_eq!(json_value["id"], 1);
    assert_eq!(json_value["method"], "initialize");
    assert!(json_value["params"]["workspaceFolders"][0]["uri"]
        .as_str()
        .unwrap()
        .contains("path/to/folder"));
}

#[test]
fn localization_rewrites_only_virtual_uri_strings() {
    let content = br#"{"uri":"lsp-fuzz://src/lib.rs","text":"see \"lsp-fuzz://x\"","other":"lsp-fuzz:/"}"#;
    let out = localize_json(content, b"file:///ws/");
    assert_eq!(
        String::from_utf8(out).unwrap(),
        r#"{"uri":"file:///ws/src/lib.rs","text":"see \"lsp-fuzz://x\"","other":"lsp-fuzz:/"}"#
    );
    // A directory is escaped as JSON before it goes into a string.
    let escaped = localize_content(br#"["lsp-fuzz://a"]"#, "file:///w\"s/");
    assert_eq!(String::from_utf8(escaped).unwrap(), r#"["file:///w\"s/a"]"#);
    let controls = localize_content(br#"["lsp-fuzz://a"]"#, "file:///w\t\u{1}\\\u{e9}/");
    assert_eq!(String::from_utf8(controls).unwrap(), "[\"file:///w\\t\\u0001\\\\\u{e9}/a\"]");
}

#[test]
fn session_bytes_ignore_a_trailing_slash() {
    let contents = vec![br#"{"uri":"lsp-fuzz://main.c"}"#.to_vec(), b"{}".to_vec()];
    let a = request_bytes(&contents, "/tmp/ws");
    let b = request_bytes(&contents, "/tmp/ws/");
    assert_eq!(a, b);
    let expected = [
        to_lsp_payload(br#"{"uri":"file:///tmp/ws/main.c"}"#),
        to_lsp_payload(b"{}"),
    ]
    .concat();
    assert_eq!(a, expected);
    assert!(a.starts_with(b"Content-Length: "));
}

#[test]
fn message_sequence_opens_each_source_file() {
    let input = LspInput {
        messages: LspMessageSequence::from_vec(vec![LspMessage::request(
            "textDocument/hover".to_owned(),
            Params::Null,
        )]),
        workspace: vec![
            WorkspaceFile { path: "Makefile".to_owned(), entry: WorkspaceEntry::Skeleton(vec![1]) },
            WorkspaceFile {
                path: "main.c".to_owned(),
                entry: WorkspaceEntry::SourceFile(TextDocument::new("c".to_owned(), b"int x;".to_vec())),
            },
        ],
    };
    let contents = input.did_open_contents().unwrap();
    assert_eq!(contents.len(), 1);
    assert_eq!(contents[0].uri, "lsp-fuzz://main.c");
    assert_eq!(contents[0].language_id, "c");
    assert_eq!(contents[0].version, 1);
    assert_eq!(contents[0].text, "int x;");
    let msgs = input.message_sequence(serde_json::Value::Bool(true), "0.1.0".to_owned()).unwrap();
    let methods: Vec<&str> = msgs.iter().map(|m| m.method.as_str()).collect();
    assert_eq!(
        methods,
        ["initialize", "initialized", "textDocument/didOpen", "textDocument/hover", "shutdown", "exit"]
    );
    match &msgs[0].params {
        Params::Initialize(p) => {
            assert_eq!(p.client_name, "lsp-fuzz");
            assert_eq!(p.client_version, "0.1.0");
            assert_eq!(p.root_uri, "lsp-fuzz://");
            assert_eq!(p.workspace_folders.len(), 1);
            assert_eq!(p.workspace_folders[0].uri, "lsp-fuzz://");
            assert_eq!(p.workspace_folders[0].name, "default_workspace");
            assert_eq!(p.capabilities, serde_json::Value::Bool(true));
            assert_eq!(p.trace, TraceValue::Off);
        }
        _ => panic!("initialize parameters were expected"),
    }
    assert!(matches!(msgs[1].params, Params::EmptyObject));
    match &msgs[2].params {
        Params::DidOpen(c) => {
            assert_eq!(c.uri, "lsp-fuzz://main.c");
            assert_eq!(c.language_id, "c");
            assert_eq!(c.version, 1);
            assert_eq!(c.text, "int x;");
        }
        _ => panic!("didOpen parameters were expected"),
    }
    assert!(matches!(msgs[4].params, Params::Null));
    assert!(matches!(msgs[5].params, Params::Null));
}

#[test]
fn positions_are_counted_line_by_line() {
    let lines = vec![2, 0, 3];
    assert_eq!(position_at(&lines, 0), (0, 0));
    assert_eq!(position_at(&lines, 1), (0, 1));
    assert_eq!(position_at(&lines, 2), (2, 0));
    assert_eq!(position_at(&lines, 4), (2, 2));
}

#[test]
fn collected_outcomes() {
    let r = collect_generated(vec![Ok(1), Err(GenerationError::NothingGenerated), Ok(2)]);
    assert_eq!(r.ok(), Some(vec![1, 2]));
    let r = collect_generated::<u8>(vec![Err(GenerationError::NothingGenerated)]);
    assert!(matches!(r, Err(GenerationError::NothingGenerated)));
    let r = collect_generated(vec![
        Ok(1),
        Err(GenerationError::Error(libafl_bolts::Error::illegal_state("first"))),
        Err(GenerationError::Error(libafl_bolts::Error::illegal_state("second"))),
    ]);
    match r {
        Err(GenerationError::Error(e)) => assert!(format!("{e:?}").contains("first")),
        _ => panic!("the first error was expected"),
    }
}

#[test]
fn generated_results_are_applied() {
    let mutator = AppendMessage::with_predefined(
        "textDocument/hover",
        MessageKind::Request,
        vec![ConstGenerator::new(serde_json::Value::Null)],
    );
    let mut rand = RomuDuoJrRand::with_seed(3);
    let mut input = LspInput { messages: LspMessageSequence::new(), workspace: vec![] };
    let r = mutator.apply_generated(&mut rand, &mut input, Ok(serde_json::Value::Bool(true)));
    assert!(matches!(r, Ok(MutationResult::Mutated)));
    assert_eq!(input.messages.len(), 1);
    assert!(matches!(&input.messages.as_slice()[0].params, Params::Json(serde_json::Value::Bool(true))));
    let r = mutator.apply_generated(&mut rand, &mut input, Err(GenerationError::NothingGenerated));
    assert!(matches!(r, Ok(MutationResult::Skipped)));
    assert_eq!(input.messages.len(), 1);
    let r = mutator.apply_generated(
        &mut rand,
        &mut input,
        Err(GenerationError::Error(libafl_bolts::Error::illegal_state("x"))),
    );
    assert!(r.is_err());
    assert_eq!(input.messages.len(), 1);
}

#[test]
fn symbol_kinds_are_numbered_from_one() {
    let kinds = all_symbol_kinds();
    assert_eq!(kinds.len(), 26);
    assert_eq!(kinds[0], 1);
    assert_eq!(kinds[25], 26);
}
