use lsp_fuzz::bloom::DiagnosticCode;
use lsp_fuzz::curiosity::{
    curiosity_append_metadata, curiosity_is_interesting, ObservedOpsBehaviors, OpsBehaviorData,
};
use lsp_fuzz::novelty::{novelty_is_interesting, ObservedDiagnosticCodes};

fn behavior(language_id: &str, node_kind: u16, ops_method: &str) -> OpsBehaviorData {
    OpsBehaviorData {
        language_id: language_id.to_owned(),
        node_kind,
        ops_method: ops_method.to_owned(),
    }
}

fn observed_behaviors() -> ObservedOpsBehaviors {
    let num_bits = fastbloom::optimal_size(1_000_000, 0.0001);
    ObservedOpsBehaviors::with_num_bits(num_bits, 1_000_000)
}

fn observed_codes() -> ObservedDiagnosticCodes {
    let num_bits = fastbloom::optimal_size(1_000_000, 0.001);
    ObservedDiagnosticCodes::with_num_bits(num_bits, 1_000_000)
}

#[test]
fn bloom_filter() {
    let mut observed = ObservedOpsBehaviors::with_num_bits(fastbloom::optimal_size(10, 0.01), 10);
    assert!(observed.merge(&behavior("rust", 233, "textDocument/hover")));
}

#[test]
fn merged_behavior_is_no_longer_new() {
    let mut observed = observed_behaviors();
    let hover = behavior("rust", 12, "textDocument/hover");
    assert!(!observed.contains(&hover));
    assert!(observed.merge(&hover));
    assert!(observed.contains(&hover));
    assert!(!observed.merge(&hover));
    assert!(observed.contains(&hover));
}

#[test]
fn curiosity_keeps_inputs_with_unseen_behaviors() {
    let mut observed = observed_behaviors();
    let first = vec![behavior("rust", 1, "textDocument/hover"), behavior("rust", 2, "textDocument/hover")];
    assert!(curiosity_is_interesting(&observed, &first));
    assert!(!curiosity_is_interesting(&observed, &Vec::new()));
    curiosity_append_metadata(&mut observed, &first);
    assert!(!curiosity_is_interesting(&observed, &first));
    let second = vec![behavior("rust", 2, "textDocument/hover"), behavior("c", 2, "textDocument/hover")];
    assert!(curiosity_is_interesting(&observed, &second));
    let third = vec![behavior("rust", 1, "textDocument/definition")];
    assert!(curiosity_is_interesting(&observed, &third));
}

#[test]
fn novelty_without_diagnostics_is_not_interesting() {
    let mut observed = observed_codes();
    assert!(!novelty_is_interesting(&mut observed, None));
    assert!(!novelty_is_interesting(&mut observed, Some(Vec::new())));
}

#[test]
fn novelty_records_up_to_the_first_new_code() {
    let mut observed = observed_codes();
    let e0308 = (Some(DiagnosticCode::Text("E0308".to_owned())), Some("rustc".to_owned()));
    let numbered = (Some(DiagnosticCode::Number(2322)), Some("ts".to_owned()));
    let bare = (None, None);
    assert!(novelty_is_interesting(&mut observed, Some(vec![e0308.clone(), numbered.clone()])));
    // Only the first new kind was recorded.
    assert!(!novelty_is_interesting(&mut observed, Some(vec![e0308.clone()])));
    assert!(novelty_is_interesting(&mut observed, Some(vec![e0308.clone(), numbered.clone()])));
    assert!(!novelty_is_interesting(&mut observed, Some(vec![numbered.clone(), e0308.clone()])));
    assert!(observed.merge(&bare));
    assert!(!observed.merge(&bare));
    // The same text under another source, and a number, are other kinds.
    assert!(observed.merge(&(Some(DiagnosticCode::Text("E0308".to_owned())), None)));
    assert!(observed.merge(&(Some(DiagnosticCode::Number(308)), Some("rustc".to_owned()))));
}
