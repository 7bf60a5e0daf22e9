use libafl_bolts::rands::RomuDuoJrRand;
use lsp_fuzz::curiosity::{analyze_behavior_data, digest_ops_data, digest_range_data, OpContext};
use lsp_fuzz::feedback::{
    Diagnostic, DocumentSymbolNode, DocumentSymbolsReply, LspResponseInfo, PublishedDiagnostics,
};
use lsp_fuzz::fuzz_state::{FuzzState, HighlightGroupUsage};
use lsp_fuzz::generation::{
    ConstGenerator, FallbackGenerator, GenerationError, GeneratorBag, LspParamsGenerator,
    VecGenerator,
};
use lsp_fuzz::grammar::{get_grammar_rules, grammar_is_closed, is_valid_reference, rule_references};
use lsp_fuzz::lsp_input::{
    workspace_for_document, HighlightCapture, LspInput, SyntaxNode, TextDocument, WorkspaceEntry,
    WorkspaceFile, RUST_PROJECT_JSON,
};
use lsp_fuzz::message::{LspMessage, MessageKind, Params};
use lsp_fuzz::messages::{AppendMessage, DropRandomMessage, LspMessageSequence, MAX_MESSAGES};
use lsp_fuzz::metamodel::BaseType;
use lsp_fuzz::mutators::{
    either_mutated, FallbackMutator, InputMutator, MutationResult, OptionMutator,
    PathSegmentInput, PathSegmentMutator, SliceSwapMutator,
};
use lsp_fuzz::plans::{
    generate_selection, identifier_plan, position_plan, range_in_doc_plan, selection_plan, GeneratorsConfig,
    IdentifierGenerator, PositionGenerator, SelectionGenerator,
};
use lsp_fuzz::range_selectors::{
    descendant_for_range, diag_nodes_parent, select_range, RangeInDocGenerator, RangeSelectorKind,
};
use lsp_fuzz::selection::{
    after_range, inverted_range, line_lengths, whole_range, HighlightSteer,
    InvalidDocPositionGenerator, InvalidSelectionGenerator, NodeTypeBalancingSelection, Position, PositionSelector,
    RandomPosition, Range, TextDocumentIdentifierGenerator, TextDocumentPositionParamsGenerator,
    ValidPosition,
};
use lsp_fuzz::stages::{StatsStage, TimeoutStopStage};

fn state(seed: u64) -> FuzzState {
    FuzzState::new(RomuDuoJrRand::with_seed(seed))
}

fn pos(line: u32, character: u32) -> Position {
    Position { line, character }
}

fn range(a: (u32, u32), b: (u32, u32)) -> Range {
    Range { start: pos(a.0, a.1), end: pos(b.0, b.1) }
}

fn doc(text: &str) -> TextDocument {
    TextDocument::new("c".to_owned(), text.as_bytes().to_vec())
}

fn input_with(files: Vec<WorkspaceFile>) -> LspInput {
    LspInput { messages: LspMessageSequence::new(), workspace: files }
}

fn source(path: &str, d: TextDocument) -> WorkspaceFile {
    WorkspaceFile { path: path.to_owned(), entry: WorkspaceEntry::SourceFile(d) }
}

#[test]
fn line_lengths_follow_str_lines() {
    for text in ["", "a", "ab\ncd", "ab\r\ncde\n", "\n\n", "x\r\n\r\ny"] {
        let expected: Vec<usize> = text.lines().map(str::len).collect();
        assert_eq!(line_lengths(text.as_bytes()), expected, "{text:?}");
    }
}

#[test]
fn ranges_from_lines() {
    let lines = [3usize, 0, 5];
    assert_eq!(whole_range(&lines), range((0, 0), (2, 5)));
    assert_eq!(whole_range(&[]), range((0, 0), (0, 0)));
    assert_eq!(after_range(&lines), range((2, 5), (65536, 5)));
    assert_eq!(inverted_range(&lines), range((2, 5), (0, 0)));
}

#[test]
fn test_grammar() {
    let rules = get_grammar_rules();
    assert_eq!(rules.len(), 384);
    assert_eq!(rules[0], ("START", b"{REQUEST}".to_vec()));
    // The capability rules refer to nonterminals that no rule defines, such
    // as GENERAL_CAPABILITY, so the rule set is not closed.
    assert!(!grammar_is_closed(&rules));
    assert!(rules.iter().all(|(nt, _)| *nt != "GENERAL_CAPABILITY"));
    let defined: Vec<(&'static str, Vec<u8>)> = rules
        .iter()
        .filter(|(nt, _)| ["START", "REQUEST"].contains(nt) == false)
        .cloned()
        .collect();
    assert!(!grammar_is_closed(&defined));
    let mut closed = vec![("START", b"{NUMBER}".to_vec())];
    closed.extend(rules.iter().filter(|(nt, _)| *nt == "NUMBER" || *nt == "DIGIT").cloned());
    assert!(grammar_is_closed(&closed));
}

#[test]
fn grammar_references_follow_nautilus_tokens() {
    assert_eq!(
        rule_references(b"\\{\"a\":{NUMBER},{}\\}{X:y}"),
        vec![b"NUMBER".to_vec(), b"X:y".to_vec()]
    );
    assert!(is_valid_reference(b"JSON_VALUE"));
    assert!(is_valid_reference(b"A:b-1"));
    assert!(!is_valid_reference(b"lower"));
    assert!(!is_valid_reference(b""));
    let broken = vec![("START", b"{MISSING}".to_vec())];
    assert!(!grammar_is_closed(&broken));
}

#[test]
fn stats_line_and_timeout() {
    let stage = StatsStage::new("edges".to_owned());
    assert_eq!(stage.coverage_feedback_name(), "edges");
    let line = stage.stat_line(12, 3, 1_000_000_000, 5_500_000_000, 1000, 77);
    assert_eq!(line, b"12,3,4,1000,77\n".to_vec());
    let line = stage.stat_line(0, 0, 9, 3, 0, 0);
    assert_eq!(line, b"0,0,0,0,0\n".to_vec());
    let stop = TimeoutStopStage::new(10);
    assert!(!stop.should_stop(5, 15));
    assert!(stop.should_stop(5, 16));
    assert!(!stop.should_stop(20, 5));
}

#[test]
fn base_type_names() {
    assert_eq!(BaseType::UInteger.name(), "Uinteger");
    assert_eq!(BaseType::DocumentUri.name(), "DocumentUri");
    assert_eq!(BaseType::Null.name(), "Null");
}

#[test]
fn generator_bag_weights() {
    let mut bag = GeneratorBag::new();
    bag.push(1u8);
    bag.push_weighted(2u8, 3);
    bag.push_weighted(9u8, 0);
    bag.extend(vec![4u8, 5]);
    assert_eq!(bag.finish(), vec![1, 2, 2, 2, 4, 5]);
}

#[test]
fn selection_plans() {
    let all = GeneratorsConfig {
        ctx_awareness: true,
        grammar_ops: true,
        invalid_ranges: true,
        feedback_guidance: true,
        invalid_positions: true,
    };
    let plan = selection_plan(&all);
    assert_eq!(plan.len(), 1 + 2 + 5 + 3 + 1 + 2 + 4);
    assert_eq!(plan[0], SelectionGenerator::RangeInDoc(RangeSelectorKind::WholeRange));
    assert_eq!(
        plan[plan.len() - 1],
        SelectionGenerator::RangeInDocOrSubtree(RangeSelectorKind::SymbolsRange)
    );
    let blind = GeneratorsConfig { ctx_awareness: false, ..all };
    assert_eq!(selection_plan(&blind), vec![SelectionGenerator::InvalidSelection; 5]);
    let plain = GeneratorsConfig {
        grammar_ops: false,
        invalid_ranges: false,
        feedback_guidance: false,
        ..all
    };
    assert_eq!(selection_plan(&plain).len(), 3);
    assert_eq!(position_plan(&all).len(), 8 + 13 + 1);
    assert_eq!(position_plan(&blind), vec![PositionGenerator::InvalidDocPosition; 4]);
    assert_eq!(identifier_plan(&all), vec![IdentifierGenerator::SourceFile]);
    assert_eq!(identifier_plan(&blind), vec![IdentifierGenerator::Meaningless]);
    assert_eq!(range_in_doc_plan().len(), 6);
}

#[test]
fn workspace_for_generated_documents() {
    let mut rust_doc = doc("fn main() {}");
    rust_doc.language_id = "rust".to_owned();
    let files = workspace_for_document(rust_doc.clone(), "rs");
    assert_eq!(files.len(), 2);
    assert_eq!(files[0].path, "rust-project.json");
    assert_eq!(files[0].entry, WorkspaceEntry::Skeleton(RUST_PROJECT_JSON.as_bytes().to_vec()));
    assert_eq!(files[1].path, "src/lib.rs");
    assert_eq!(files[1].entry, WorkspaceEntry::SourceFile(rust_doc));
    let files = workspace_for_document(doc("int x;"), "c");
    assert_eq!(files.len(), 1);
    assert_eq!(files[0].path, "main.c");
}

#[test]
fn opened_documents_and_lookup() {
    let input = input_with(vec![
        source("main.c", doc("a")),
        WorkspaceFile { path: "Makefile".to_owned(), entry: WorkspaceEntry::Skeleton(vec![1]) },
        source("lib/b.c", doc("b")),
    ]);
    let opened = input.opened_documents().unwrap();
    let uris: Vec<&str> = opened.iter().map(|(u, _)| u.as_str()).collect();
    assert_eq!(uris, vec!["lsp-fuzz://main.c", "lsp-fuzz://lib/b.c"]);
    assert_eq!(input.get_text_document("lsp-fuzz://lib/b.c").unwrap().content, b"b".to_vec());
    assert!(input.get_text_document("lsp-fuzz://Makefile").is_none());
    assert!(input.get_text_document("lsp-fuzz://none").is_none());
    let bad = input_with(vec![source("a b.c", doc(""))]);
    assert!(bad.opened_documents().is_none());
    assert_eq!(LspInput::name_prefix(), "input_");
}

#[test]
fn response_info_keeps_each_place_once() {
    let published = vec![
        PublishedDiagnostics {
            uri: "file:///tmp/lsp-fuzz-workspace_1/main.c".to_owned(),
            ranges: vec![range((0, 0), (0, 1)), range((0, 0), (0, 1)), range((1, 0), (1, 2))],
        },
        PublishedDiagnostics { uri: "lsp-fuzz://x.c".to_owned(), ranges: vec![range((2, 2), (2, 3))] },
    ];
    let symbols = vec![DocumentSymbolsReply {
        uri: "lsp-fuzz://main.c".to_owned(),
        symbols: vec![DocumentSymbolNode {
            selection_range: range((0, 0), (0, 4)),
            children: Some(vec![
                DocumentSymbolNode { selection_range: range((1, 0), (1, 2)), children: None },
                DocumentSymbolNode { selection_range: range((0, 0), (0, 4)), children: Some(vec![]) },
            ]),
        }],
    }];
    let info = LspResponseInfo::from_replies(&published, &symbols);
    let diags: Vec<(String, Range)> =
        info.diagnostics().iter().map(|d| (d.uri.clone(), d.range)).collect();
    assert_eq!(
        diags,
        vec![
            ("lsp-fuzz://main.c".to_owned(), range((0, 0), (0, 1))),
            ("lsp-fuzz://main.c".to_owned(), range((1, 0), (1, 2))),
            ("lsp-fuzz://x.c".to_owned(), range((2, 2), (2, 3))),
        ]
    );
    let syms: Vec<Range> = info.symbol_ranges().iter().map(|s| s.range).collect();
    assert_eq!(syms, vec![range((0, 0), (0, 4)), range((1, 0), (1, 2))]);
    let mut more = LspResponseInfo::new();
    more.insert_diagnostic(Diagnostic { uri: "u".to_owned(), range: range((0, 0), (0, 0)) });
    more.insert_diagnostic(Diagnostic { uri: "u".to_owned(), range: range((0, 0), (0, 0)) });
    assert_eq!(more.diagnostics().len(), 1);
}

#[test]
fn highlight_usage_counts() {
    let mut usage = HighlightGroupUsage::new(vec!["a".to_owned(), "b".to_owned(), "a".to_owned()]);
    assert_eq!(usage.as_slice().len(), 2);
    usage.record_use("b");
    usage.record_use("b");
    usage.record_use("zzz");
    assert_eq!(usage.max_usage(), 2);
    assert_eq!(usage.as_slice()[1], ("b".to_owned(), 2));
    let mut rand = RomuDuoJrRand::with_seed(3);
    for _ in 0..20 {
        assert_eq!(usage.choose_rare_group(&mut rand), Some(0));
    }
    assert_eq!(HighlightGroupUsage::new(vec![]).choose_rare_group(&mut rand), None);
}

#[test]
fn highlight_steer_picks_captures_and_counts() {
    let mut d = doc("ab\ncd");
    d.highlights = vec![
        HighlightCapture { group: "keyword".to_owned(), start: pos(0, 1) },
        HighlightCapture { group: "type".to_owned(), start: pos(1, 0) },
    ];
    let steer = HighlightSteer::new(vec!["keyword".to_owned(), "type".to_owned()]);
    let mut st = state(11);
    let mut found = Vec::new();
    for _ in 0..10 {
        if let Some(p) = steer.select_position(&mut st, &d) {
            found.push(p);
        }
    }
    assert!(!found.is_empty());
    assert!(found.iter().all(|p| *p == pos(0, 1) || *p == pos(1, 0)));
    assert!(st.highlight_usage.is_some());
}

#[test]
fn node_type_balancing_positions() {
    let mut d = doc("x");
    let mut st = state(5);
    assert_eq!(NodeTypeBalancingSelection::new().select_position(&mut st, &d), None);
    d.node_signatures = vec![vec![pos(0, 0)], vec![pos(3, 4), pos(5, 6)]];
    for _ in 0..10 {
        let p = NodeTypeBalancingSelection::new().select_position(&mut st, &d).unwrap();
        assert!([pos(0, 0), pos(3, 4), pos(5, 6)].contains(&p));
    }
}

#[test]
fn position_selectors() {
    let d = doc("abc\n\nde");
    let mut st = state(7);
    for _ in 0..30 {
        let p = ValidPosition::new().select_position(&mut st, &d).unwrap();
        let lines = line_lengths(&d.content);
        assert!((p.character as usize) < lines[p.line as usize]);
        let r = RandomPosition::new(10).select_position(&mut st, &d).unwrap();
        assert!(r.line <= 10 && r.character <= 10);
    }
    assert_eq!(ValidPosition::new().select_position(&mut st, &doc("\n")), None);
    let q = InvalidDocPositionGenerator::new().random_position(&mut st.rand);
    assert!(q.line < 65536 && q.character < 65536);
}

#[test]
fn document_generators_name_source_files() {
    let input = input_with(vec![
        WorkspaceFile { path: "cfg".to_owned(), entry: WorkspaceEntry::Skeleton(vec![]) },
        source("main.c", doc("int main;")),
    ]);
    let mut st = state(1);
    let id = TextDocumentIdentifierGenerator::new().generate(&mut st, &input).unwrap();
    assert_eq!(id.uri, "lsp-fuzz://main.c");
    let gen = TextDocumentPositionParamsGenerator::new(ValidPosition::new());
    let p = gen.generate(&mut st, &input).unwrap();
    assert_eq!(p.text_document.uri, "lsp-fuzz://main.c");
    assert_eq!(p.position.line, 0);
    let empty = input_with(vec![]);
    assert!(matches!(
        TextDocumentIdentifierGenerator::new().generate(&mut st, &empty),
        Err(GenerationError::NothingGenerated)
    ));
}

#[test]
fn range_selection_kinds() {
    let mut d = doc("ab\ncde");
    let mut st = state(9);
    assert_eq!(
        select_range(&mut st, RangeSelectorKind::WholeRange, "lsp-fuzz://a", &d),
        Some(range((0, 0), (1, 3)))
    );
    assert_eq!(
        select_range(&mut st, RangeSelectorKind::InvertedRange, "lsp-fuzz://a", &d),
        Some(range((1, 3), (0, 0)))
    );
    assert_eq!(
        select_range(&mut st, RangeSelectorKind::SubtreeNodeType, "lsp-fuzz://a", &d),
        Some(range((0, 0), (1, 3)))
    );
    assert_eq!(select_range(&mut st, RangeSelectorKind::RandomValidRange, "u", &doc("")), None);
    d.nodes = vec![
        SyntaxNode { kind_id: 1, range: range((0, 0), (1, 3)), parent: None, has_error: false, is_missing: false },
        SyntaxNode { kind_id: 2, range: range((0, 0), (0, 2)), parent: Some(0), has_error: false, is_missing: false },
        SyntaxNode { kind_id: 3, range: range((0, 1), (0, 2)), parent: Some(1), has_error: false, is_missing: false },
    ];
    assert_eq!(descendant_for_range(&d.nodes, range((0, 1), (0, 1))), Some(2));
    assert_eq!(descendant_for_range(&d.nodes, range((1, 0), (1, 1))), Some(0));
    assert_eq!(descendant_for_range(&d.nodes, range((5, 0), (5, 1))), None);
    let mut info = LspResponseInfo::new();
    info.insert_diagnostic(Diagnostic { uri: "lsp-fuzz://a".to_owned(), range: range((0, 1), (0, 1)) });
    st.response_info = Some(info);
    assert_eq!(
        select_range(&mut st, RangeSelectorKind::DiagnosedRange, "lsp-fuzz://a", &d),
        Some(range((0, 1), (0, 1)))
    );
    assert_eq!(
        select_range(&mut st, RangeSelectorKind::DiagnosedParent, "lsp-fuzz://a", &d),
        Some(range((0, 0), (0, 2)))
    );
    for _ in 0..10 {
        let r = select_range(&mut st, RangeSelectorKind::SymbolsRange, "lsp-fuzz://a", &d).unwrap();
        assert!(d.nodes.iter().any(|n| n.range == r));
    }
    let input = input_with(vec![source("a", d)]);
    let sel = RangeInDocGenerator::new(RangeSelectorKind::AfterRange).generate(&mut st, &input).unwrap();
    assert_eq!(sel.0.uri, "lsp-fuzz://a");
    assert_eq!(sel.1, range((1, 3), (65536, 3)));
}

#[test]
fn vec_and_fallback_generators() {
    let input = input_with(vec![]);
    let mut st = state(2);
    let gen = VecGenerator::new(vec![ConstGenerator::new(7u8)], 5);
    for _ in 0..20 {
        match gen.generate(&mut st, &input) {
            Ok(items) => {
                assert!(!items.is_empty() && items.len() < 5);
                assert!(items.iter().all(|x| *x == 7));
            }
            Err(e) => assert!(matches!(e, GenerationError::NothingGenerated)),
        }
    }
    let none = VecGenerator::new(Vec::<ConstGenerator<u8>>::new(), 5);
    assert!(matches!(none.generate(&mut st, &input), Err(GenerationError::NothingGenerated)));
    let fallback = FallbackGenerator::new(TextDocumentIdentifierGenerator::new(), ConstGenerator::new(
        lsp_fuzz::selection::TextDocumentIdentifier { uri: "lsp-fuzz://x".to_owned() },
    ));
    assert_eq!(fallback.generate(&mut st, &input).unwrap().uri, "lsp-fuzz://x");
}

#[test]
fn slice_swap_mutator() {
    let mut st = state(4);
    let mut m = SliceSwapMutator::<u8>::new();
    let mut one = vec![1u8];
    assert_eq!(m.mutate(&mut st, &mut one).unwrap(), MutationResult::Skipped);
    let mut v = vec![1u8, 2, 3, 4];
    assert_eq!(m.mutate(&mut st, &mut v).unwrap(), MutationResult::Mutated);
    let mut sorted = v.clone();
    sorted.sort();
    assert_eq!(sorted, vec![1, 2, 3, 4]);
    let diff = v.iter().zip([1u8, 2, 3, 4].iter()).filter(|(a, b)| a != b).count();
    assert!(diff == 0 || diff == 2);
}

#[test]
fn option_and_fallback_mutators() {
    let mut st = state(6);
    let mut m = OptionMutator::new(SliceSwapMutator::<u8>::new());
    let mut none: Option<Vec<u8>> = None;
    assert_eq!(m.mutate(&mut st, &mut none).unwrap(), MutationResult::Skipped);
    let mut some = Some(vec![1u8, 2]);
    assert_eq!(m.mutate(&mut st, &mut some).unwrap(), MutationResult::Mutated);
    let mut fb = FallbackMutator::new(SliceSwapMutator::<u8>::new(), SliceSwapMutator::<u8>::new());
    let mut short = vec![1u8];
    assert_eq!(fb.mutate(&mut st, &mut short).unwrap(), MutationResult::Skipped);
    assert_eq!(either_mutated(MutationResult::Skipped, MutationResult::Mutated), MutationResult::Mutated);
    assert_eq!(either_mutated(MutationResult::Skipped, MutationResult::Skipped), MutationResult::Skipped);
}

#[test]
fn path_segment_mutations() {
    let mut st = state(8);
    let mut m = PathSegmentMutator::new();
    for seed_len in [0usize, 3] {
        let mut input = PathSegmentInput { inner: vec!['a'; seed_len] };
        for _ in 0..50 {
            let before = input.inner.clone();
            match m.mutate(&mut st, &mut input).unwrap() {
                MutationResult::Skipped => {
                    assert!(before.is_empty());
                    assert_eq!(input.inner, before);
                }
                MutationResult::Mutated => {
                    let d = input.inner.len() as isize - before.len() as isize;
                    assert!(d == 1 || d == -1);
                }
            }
            assert!(input.inner.iter().all(|c| *c != '/' && *c != '\0'));
        }
    }
}

#[test]
fn drop_and_append_messages() {
    let mut st = state(10);
    let mut input = input_with(vec![]);
    let mut drop = DropRandomMessage::new();
    assert_eq!(drop.mutate(&mut st, &mut input).unwrap(), MutationResult::Skipped);
    let generators = vec![ConstGenerator::new(serde_json::Value::Bool(true))];
    let mut append = AppendMessage::with_predefined("textDocument/hover", MessageKind::Request, generators);
    assert_eq!(append.name().as_str(), "AppendRandomlyGenerated textDocument/hover");
    for _ in 0..(MAX_MESSAGES + 5) {
        assert_eq!(append.mutate(&mut st, &mut input).unwrap(), MutationResult::Mutated);
    }
    assert_eq!(input.messages.len(), MAX_MESSAGES);
    let msgs: &[LspMessage] = input.messages.as_slice();
    assert!(msgs.iter().all(|m| m.method == "textDocument/hover" && m.kind == MessageKind::Request));
    assert_eq!(drop.mutate(&mut st, &mut input).unwrap(), MutationResult::Mutated);
    assert_eq!(input.messages.len(), MAX_MESSAGES - 1);
}

fn node(kind_id: u16, r: Range, parent: Option<usize>) -> SyntaxNode {
    SyntaxNode { kind_id, range: r, parent, has_error: false, is_missing: false }
}

#[test]
fn operation_behaviors() {
    let mut d = doc("ab\ncd");
    d.nodes = vec![
        node(10, range((0, 0), (1, 2)), None),
        node(11, range((0, 0), (0, 2)), Some(0)),
        node(12, range((1, 0), (1, 2)), Some(0)),
    ];
    let at = digest_ops_data("textDocument/hover", &d, pos(0, 1)).unwrap();
    assert_eq!((at.language_id.as_str(), at.node_kind, at.ops_method.as_str()), ("c", 11, "textDocument/hover"));
    assert!(digest_ops_data("m", &d, pos(7, 0)).is_none());
    let mut broken = d.clone();
    broken.nodes[1].has_error = true;
    assert!(digest_ops_data("m", &broken, pos(0, 1)).is_none());
    let kinds: Vec<u16> = digest_range_data("m", &d, range((0, 0), (1, 2))).iter().map(|b| b.node_kind).collect();
    assert_eq!(kinds, vec![11]);
    assert!(digest_range_data("m", &d, range((1, 0), (1, 2))).is_empty());
    let input = input_with(vec![source("main.c", d)]);
    let ops = vec![
        OpContext {
            method: "m".to_owned(),
            document: Some("lsp-fuzz://main.c".to_owned()),
            position: Some(pos(0, 1)),
            range: Some(range((0, 0), (1, 2))),
        },
        OpContext {
            method: "m".to_owned(),
            document: Some("lsp-fuzz://main.c".to_owned()),
            position: Some(pos(1, 1)),
            range: None,
        },
        OpContext { method: "m".to_owned(), document: Some("lsp-fuzz://gone.c".to_owned()), position: Some(pos(0, 0)), range: None },
        OpContext { method: "m".to_owned(), document: None, position: Some(pos(0, 0)), range: None },
    ];
    let data = analyze_behavior_data(&input, &ops);
    let mut kinds: Vec<u16> = data.iter().map(|b| b.node_kind).collect();
    kinds.sort();
    assert_eq!(kinds, vec![11, 12]);
}

#[test]
fn diagnosed_parent_positions() {
    let mut d = doc("abc");
    d.nodes = vec![
        node(1, range((0, 0), (0, 3)), None),
        node(2, range((0, 1), (0, 3)), Some(0)),
    ];
    let mut info = LspResponseInfo::new();
    info.insert_diagnostic(Diagnostic { uri: "lsp-fuzz://a".to_owned(), range: range((0, 2), (0, 2)) });
    info.insert_diagnostic(Diagnostic { uri: "lsp-fuzz://b".to_owned(), range: range((0, 2), (0, 2)) });
    info.insert_diagnostic(Diagnostic { uri: "lsp-fuzz://a".to_owned(), range: range((0, 0), (0, 0)) });
    assert_eq!(diag_nodes_parent(&info, "lsp-fuzz://a", &d), vec![pos(0, 0)]);
}

#[test]
fn invalid_generators_build_virtual_uris() {
    let mut st = state(12);
    let sel = InvalidSelectionGenerator::new().generate_with(&mut st, "abc").unwrap();
    assert_eq!(sel.0.uri, "lsp-fuzz://abc");
    assert!(sel.1.start.line < 1024 && sel.1.end.character < 1024);
    assert!(InvalidSelectionGenerator::new().generate_with(&mut st, "a b").is_none());
    let p = InvalidDocPositionGenerator::new().generate_with(&mut st, "42").unwrap();
    assert_eq!(p.text_document.uri, "lsp-fuzz://42");
    assert!(InvalidDocPositionGenerator::new().generate_with(&mut st, "%").is_none());
}

#[test]
fn corpus_names() {
    assert_eq!(LspInput::generate_name(Some(17), 5), "input_17");
    assert_eq!(LspInput::generate_name(None, 12345678901234), "input_h_12345678901234");
    assert_eq!(lsp_fuzz::json_rpc::u64_to_string(u64::MAX), u64::MAX.to_string());
}

#[test]
fn swap_requests_reorders_messages() {
    let mut st = state(13);
    let mut m = lsp_fuzz::lsp_input::SwapRequests::new(SliceSwapMutator::new());
    let mut input = input_with(vec![source("a.c", doc("x"))]);
    input.messages.push(LspMessage::request("first".to_owned(), Params::Null));
    assert_eq!(m.mutate(&mut st, &mut input).unwrap(), MutationResult::Skipped);
    input.messages.push(LspMessage::notification("second".to_owned(), Params::Null));
    assert_eq!(m.mutate(&mut st, &mut input).unwrap(), MutationResult::Mutated);
    let mut names: Vec<String> = input.messages.as_slice().iter().map(|m| m.method.clone()).collect();
    names.sort();
    assert_eq!(names, vec!["first".to_owned(), "second".to_owned()]);
    assert_eq!(input.workspace.len(), 1);
}

#[test]
fn token_and_text_generators() {
    use_generators();
}

fn use_generators() {
    let mut rand = RomuDuoJrRand::with_seed(21);
    let tokens = vec!["fn".to_owned(), "let".to_owned()];
    let gen = lsp_fuzz::generation::UTF8TokensGenerator::new();
    for _ in 0..10 {
        let t = gen.generate_from(&mut rand, Some(&tokens)).unwrap();
        assert!(tokens.contains(&t));
    }
    assert!(matches!(gen.generate_from(&mut rand, None), Err(GenerationError::NothingGenerated)));
    assert!(matches!(gen.generate_from(&mut rand, Some(&Vec::new())), Err(GenerationError::NothingGenerated)));
    let texts = lsp_fuzz::generation::TerminalTextGenerator::<()>::new();
    let t = texts.choose_text(&mut rand, vec!["a".to_owned(), "b".to_owned()]).unwrap();
    assert!(t == "a" || t == "b");
    assert!(matches!(texts.choose_text(&mut rand, Vec::new()), Err(GenerationError::NothingGenerated)));
}

#[test]
fn workspace_entry_access() {
    let mut entry = WorkspaceEntry::SourceFile(doc("abc"));
    assert_eq!(entry.len(), 3);
    assert!(entry.as_skeleton().is_none());
    assert!(entry.as_skeleton_mut().is_none());
    entry.as_source_file_mut().unwrap().content.push(b'd');
    assert_eq!(entry.as_source_file().unwrap().content, b"abcd".to_vec());
    let mut skeleton = WorkspaceEntry::Skeleton(vec![1, 2]);
    assert!(skeleton.as_source_file().is_none());
    assert!(skeleton.as_source_file_mut().is_none());
    skeleton.as_skeleton_mut().unwrap().push(3);
    assert_eq!(skeleton.as_skeleton(), Some(&[1u8, 2, 3][..]));
    assert_eq!(skeleton.len(), 3);
}

#[test]
fn message_kinds_and_sequence() {
    let request = LspMessage::request("a".to_owned(), Params::Null);
    assert!(request.is_request() && !request.is_notification());
    let note = LspMessage::notification("b".to_owned(), Params::Null);
    assert!(note.is_notification() && !note.is_request());
    let back = LspMessage::from_json_rpc(lsp_fuzz::json_rpc::JsonRPCMessage::notification(
        "c".to_owned(),
        Params::Json(serde_json::Value::Bool(false)),
    ))
    .unwrap();
    assert_eq!(back.method, "c");
    assert_eq!(back.kind, MessageKind::Notification);
    assert!(LspMessage::from_json_rpc(lsp_fuzz::json_rpc::JsonRPCMessage::response(None, None, None)).is_none());
    let mut seq = LspMessageSequence::new();
    seq.push(request);
    seq.push(note);
    seq.swap(0, 1);
    let v = seq.into_vec();
    assert_eq!(v[0].method, "b");
    assert_eq!(v[1].method, "a");
}

#[test]
fn selection_tags_generate_their_selections() {
    let input = input_with(vec![source("a.c", doc("ab\ncde"))]);
    let mut st = state(5);
    let sel = generate_selection(SelectionGenerator::RangeInDoc(RangeSelectorKind::WholeRange), &mut st, &input, "")
        .unwrap();
    assert_eq!(sel.0.uri, "lsp-fuzz://a.c");
    assert_eq!(sel.1, range((0, 0), (1, 3)));
    let empty = input_with(vec![]);
    assert!(matches!(
        generate_selection(SelectionGenerator::RangeInDoc(RangeSelectorKind::WholeRange), &mut st, &empty, ""),
        Err(GenerationError::NothingGenerated)
    ));
    assert!(matches!(
        generate_selection(
            SelectionGenerator::RangeInDocOrSubtree(RangeSelectorKind::DiagnosedRange),
            &mut st,
            &empty,
            ""
        ),
        Err(GenerationError::NothingGenerated)
    ));
    let invalid = generate_selection(SelectionGenerator::InvalidSelection, &mut st, &empty, "x/y.c").unwrap();
    assert_eq!(invalid.0.uri, "lsp-fuzz://x/y.c");
    assert!(invalid.1.start.line < 1024 && invalid.1.end.character < 1024);
}
