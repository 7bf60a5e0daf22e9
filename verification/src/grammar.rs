//! The grammar of LSP messages that grammar-based generation draws from:
//! production rules in the format of nautilus, where `{NAME}` stands for a
//! nonterminal and `\\{`, `\\}` for literal braces.
use vstd::prelude::*;

use crate::decimal::{decimal_digits, push_decimal};
use crate::json_rpc::{append_bytes, bytes_eq};
use vstd::string::StringSliceAdditionalSpecFns;

verus! {

/// Adds the rule `nt -> format`.
fn add_rule(rules: &mut Vec<(&'static str, Vec<u8>)>, nt: &'static str, format: &[u8])
    ensures
        rules_view(final(rules)@) == rules_view(old(rules)@).push((nt, format@)),
{
    let mut bytes: Vec<u8> = Vec::new();
    append_bytes(&mut bytes, format);
    rules.push((nt, bytes));
    assert(rules_view(rules@) =~= rules_view(old(rules)@).push((nt, format@)));
}

/// `DIGIT -> 0` to `DIGIT -> 9`.
fn add_digit_rules(rules: &mut Vec<(&'static str, Vec<u8>)>)
    ensures
        rules_view(final(rules)@) == rules_view(old(rules)@) + spec_digit_rules(),
{
    let ghost start = rules_view(rules@);
    let mut i: u8 = 0;
    while i <= 9
        invariant
            i <= 10,
            rules_view(rules@) == start + spec_digit_rules().take(i as int),
        decreases 10 - i,
    {
        let digit: Vec<u8> = vec![48u8 + i];
        assert(digit@ =~= seq![(48 + i) as u8]);
        add_rule(rules, "DIGIT", digit.as_slice());
        assert(spec_digit_rules().take(i + 1) =~= spec_digit_rules().take(i as int).push(("DIGIT", digit@)));
        assert(rules_view(rules@) =~= start + spec_digit_rules().take(i + 1));
        i = i + 1;
    }
    assert(spec_digit_rules().take(10) =~= spec_digit_rules());
}

/// `CHAR -> c` for each letter `c` from `first` to `last`.
fn add_letter_rules(rules: &mut Vec<(&'static str, Vec<u8>)>, first: u8, last: u8)
    requires
        first <= last < 255,
    ensures
        rules_view(final(rules)@) == rules_view(old(rules)@) + spec_letter_rules(first, last),
{
    let ghost start = rules_view(rules@);
    let mut letter: u8 = first;
    while letter <= last
        invariant
            first <= letter <= last + 1,
            last < 255,
            rules_view(rules@) == start + spec_letter_rules(first, last).take(letter - first),
        decreases last + 1 - letter,
    {
        let bytes: Vec<u8> = vec![letter];
        assert(bytes@ =~= seq![(first + (letter - first)) as u8]);
        add_rule(rules, "CHAR", bytes.as_slice());
        assert(spec_letter_rules(first, last).take(letter - first + 1) =~= spec_letter_rules(first, last).take(
            letter - first,
        ).push(("CHAR", bytes@)));
        assert(rules_view(rules@) =~= start + spec_letter_rules(first, last).take(letter - first + 1));
        letter = letter + 1;
    }
    assert(spec_letter_rules(first, last).take(last - first + 1) =~= spec_letter_rules(first, last));
}

/// `nt -> n` for each number `n` from `first` to `last`, in decimal.
fn add_number_rules(rules: &mut Vec<(&'static str, Vec<u8>)>, nt: &'static str, first: u64, last: u64)
    requires
        first <= last < u64::MAX,
    ensures
        rules_view(final(rules)@) == rules_view(old(rules)@) + spec_number_rules(nt, first, last),
{
    let ghost start = rules_view(rules@);
    let mut n: u64 = first;
    while n <= last
        invariant
            first <= n <= last + 1,
            last < u64::MAX,
            rules_view(rules@) == start + spec_number_rules(nt, first, last).take(n - first),
        decreases last + 1 - n,
    {
        let mut text: Vec<u8> = Vec::new();
        push_decimal(&mut text, n);
        assert(text@ =~= decimal_digits(n as nat));
        add_rule(rules, nt, text.as_slice());
        assert(spec_number_rules(nt, first, last).take(n - first + 1) =~= spec_number_rules(nt, first, last).take(
            n - first,
        ).push((nt, text@)));
        assert(rules_view(rules@) =~= start + spec_number_rules(nt, first, last).take(n - first + 1));
        n = n + 1;
    }
    assert(spec_number_rules(nt, first, last).take(last - first + 1) =~= spec_number_rules(nt, first, last));
}

/// A rule by its values: the nonterminal and the bytes of its format.
pub type RuleView = (&'static str, Seq<u8>);

/// Rules by their values.
pub open spec fn rules_view(rules: Seq<(&'static str, Vec<u8>)>) -> Seq<RuleView> {
    rules.map_values(|r: (&'static str, Vec<u8>)| (r.0, r.1@))
}

/// `DIGIT -> 0` to `DIGIT -> 9`.
pub open spec fn spec_digit_rules() -> Seq<RuleView> {
    Seq::new(10, |i: int| ("DIGIT", seq![(48 + i) as u8]))
}

/// `CHAR -> c` for each byte `c` from `first` to `last`.
pub open spec fn spec_letter_rules(first: u8, last: u8) -> Seq<RuleView> {
    Seq::new((last - first + 1) as nat, |i: int| ("CHAR", seq![(first + i) as u8]))
}

/// `nt -> n` for each number `n` from `first` to `last`, in decimal.
pub open spec fn spec_number_rules(nt: &'static str, first: u64, last: u64) -> Seq<RuleView> {
    Seq::new((last - first + 1) as nat, |i: int| (nt, decimal_digits((first + i) as nat)))
}

/// `acc` followed by the rules of part 0.
#[verifier::opaque]
pub open spec fn spec_rules_part_0(acc: Seq<RuleView>) -> Seq<RuleView> {
    (((acc
        .push(("START", "{REQUEST}".spec_bytes()))
        .push(("START", "{NOTIFICATION}".spec_bytes()))
        .push(("NUMBER", "{DIGIT}".spec_bytes()))
        .push(("NUMBER", "{DIGIT}{NUMBER}".spec_bytes()))
        .push(("NUMBER", "-{NUMBER}".spec_bytes()))
        .push(("NUMBER", "{NUMBER}.{NUMBER}".spec_bytes()))
        + spec_digit_rules())
        .push(("STRING", "\"{CHAR}\"".spec_bytes()))
        .push(("STRING", "{CHAR}{STRING}".spec_bytes()))
        .push(("CHAR", "{DIGIT}".spec_bytes()))
        + spec_letter_rules(97, 122))
        + spec_letter_rules(65, 90))
        .push(("CHAR", "_".spec_bytes()))
        .push(("CHAR", "-".spec_bytes()))
        .push(("CHAR", "/".spec_bytes()))
        .push(("CHAR", ".".spec_bytes()))
        .push(("CHAR", ",".spec_bytes()))
        .push(("CHAR", ":".spec_bytes()))
        .push(("CHAR", "$".spec_bytes()))
        .push(("CHAR", "@".spec_bytes()))
        .push(("CHAR", "#".spec_bytes()))
        .push(("CHAR", "!".spec_bytes()))
        .push(("CHAR", "?".spec_bytes()))
        .push(("CHAR", "+".spec_bytes()))
        .push(("CHAR", "*".spec_bytes()))
        .push(("CHAR", "&".spec_bytes()))
        .push(("CHAR", "%".spec_bytes()))
        .push(("CHAR", "=".spec_bytes()))
        .push(("CHAR", " ".spec_bytes()))
        .push(("JSON_OBJECT", "\\{\\}".spec_bytes()))
        .push(("JSON_OBJECT", "\\{{JSON_MEMBERS}\\}".spec_bytes()))
        .push(("JSON_MEMBERS", "{JSON_MEMBER}".spec_bytes()))
        .push(("JSON_MEMBERS", "{JSON_MEMBER},{JSON_MEMBERS}".spec_bytes()))
        .push(("JSON_MEMBER", "\"{STRING_CONTENT}\":{JSON_VALUE}".spec_bytes()))
        .push(("JSON_ARRAY", "\\[\\]".spec_bytes()))
        .push(("JSON_ARRAY", "\\[{JSON_ELEMENTS}\\]".spec_bytes()))
        .push(("JSON_ELEMENTS", "{JSON_VALUE}".spec_bytes()))
        .push(("JSON_ELEMENTS", "{JSON_VALUE},{JSON_ELEMENTS}".spec_bytes()))
        .push(("JSON_VALUE", "{JSON_OBJECT}".spec_bytes()))
        .push(("JSON_VALUE", "{JSON_ARRAY}".spec_bytes()))
}

/// `acc` followed by the rules of part 1.
#[verifier::opaque]
pub open spec fn spec_rules_part_1(acc: Seq<RuleView>) -> Seq<RuleView> {
    acc
        .push(("JSON_VALUE", "\"{STRING_CONTENT}\"".spec_bytes()))
        .push(("JSON_VALUE", "{NUMBER}".spec_bytes()))
        .push(("JSON_VALUE", "true".spec_bytes()))
        .push(("JSON_VALUE", "false".spec_bytes()))
        .push(("JSON_VALUE", "null".spec_bytes()))
        .push(("STRING_CONTENT", "{CHAR}".spec_bytes()))
        .push(("STRING_CONTENT", "{CHAR}{STRING_CONTENT}".spec_bytes()))
        .push(("PARAMS", "{INITIALIZE_PARAMS}".spec_bytes()))
        .push(("PARAMS", "{TEXT_DOCUMENT_PARAMS}".spec_bytes()))
        .push(("PARAMS", "{WORKSPACE_PARAMS}".spec_bytes()))
        .push(("PARAMS", "null".spec_bytes()))
        .push(("REQUEST", "\\{\"jsonrpc\":\"2.0\",\"id\":{NUMBER},\"method\":\"initialize\",\"params\":{INITIALIZE_PARAMS}\\}".spec_bytes()))
        .push(("REQUEST", "\\{\"jsonrpc\":\"2.0\",\"id\":{NUMBER},\"method\":\"shutdown\",\"params\":null\\}".spec_bytes()))
        .push(("REQUEST", "\\{\"jsonrpc\":\"2.0\",\"id\":{NUMBER},\"method\":\"textDocument/willSaveWaitUntil\",\"params\":{WILL_SAVE_PARAMS}\\}".spec_bytes()))
        .push(("REQUEST", "\\{\"jsonrpc\":\"2.0\",\"id\":{NUMBER},\"method\":\"textDocument/completion\",\"params\":{COMPLETION_PARAMS}\\}".spec_bytes()))
        .push(("REQUEST", "\\{\"jsonrpc\":\"2.0\",\"id\":{NUMBER},\"method\":\"completionItem/resolve\",\"params\":{COMPLETION_ITEM}\\}".spec_bytes()))
        .push(("REQUEST", "\\{\"jsonrpc\":\"2.0\",\"id\":{NUMBER},\"method\":\"textDocument/hover\",\"params\":{HOVER_PARAMS}\\}".spec_bytes()))
        .push(("REQUEST", "\\{\"jsonrpc\":\"2.0\",\"id\":{NUMBER},\"method\":\"textDocument/signatureHelp\",\"params\":{SIGNATURE_HELP_PARAMS}\\}".spec_bytes()))
        .push(("REQUEST", "\\{\"jsonrpc\":\"2.0\",\"id\":{NUMBER},\"method\":\"textDocument/definition\",\"params\":{DEFINITION_PARAMS}\\}".spec_bytes()))
        .push(("REQUEST", "\\{\"jsonrpc\":\"2.0\",\"id\":{NUMBER},\"method\":\"textDocument/documentSymbol\",\"params\":{DOCUMENT_SYMBOL_PARAMS}\\}".spec_bytes()))
        .push(("REQUEST", "\\{\"jsonrpc\":\"2.0\",\"id\":{NUMBER},\"method\":\"textDocument/codeAction\",\"params\":{CODE_ACTION_PARAMS}\\}".spec_bytes()))
        .push(("REQUEST", "\\{\"jsonrpc\":\"2.0\",\"id\":{NUMBER},\"method\":\"textDocument/formatting\",\"params\":{FORMATTING_PARAMS}\\}".spec_bytes()))
        .push(("REQUEST", "\\{\"jsonrpc\":\"2.0\",\"id\":{NUMBER},\"method\":\"textDocument/rename\",\"params\":{RENAME_PARAMS}\\}".spec_bytes()))
        .push(("REQUEST", "\\{\"jsonrpc\":\"2.0\",\"id\":{NUMBER},\"method\":\"textDocument/rangeFormatting\",\"params\":{RANGE_FORMATTING_PARAMS}\\}".spec_bytes()))
        .push(("REQUEST", "\\{\"jsonrpc\":\"2.0\",\"id\":{NUMBER},\"method\":\"textDocument/references\",\"params\":{REFERENCE_PARAMS}\\}".spec_bytes()))
        .push(("REQUEST", "\\{\"jsonrpc\":\"2.0\",\"id\":{NUMBER},\"method\":\"textDocument/implementation\",\"params\":{IMPLEMENTATION_PARAMS}\\}".spec_bytes()))
        .push(("REQUEST", "\\{\"jsonrpc\":\"2.0\",\"id\":{NUMBER},\"method\":\"workspace/symbol\",\"params\":{WORKSPACE_SYMBOL_PARAMS}\\}".spec_bytes()))
        .push(("REQUEST", "\\{\"jsonrpc\":\"2.0\",\"id\":{NUMBER},\"method\":\"textDocument/documentHighlight\",\"params\":{DOCUMENT_HIGHLIGHT_PARAMS}\\}".spec_bytes()))
        .push(("REQUEST", "\\{\"jsonrpc\":\"2.0\",\"id\":{NUMBER},\"method\":\"textDocument/typeDefinition\",\"params\":{TYPE_DEFINITION_PARAMS}\\}".spec_bytes()))
        .push(("REQUEST", "\\{\"jsonrpc\":\"2.0\",\"id\":{NUMBER},\"method\":\"textDocument/declaration\",\"params\":{DECLARATION_PARAMS}\\}".spec_bytes()))
        .push(("REQUEST", "\\{\"jsonrpc\":\"2.0\",\"id\":{NUMBER},\"method\":\"textDocument/foldingRange\",\"params\":{FOLDING_RANGE_PARAMS}\\}".spec_bytes()))
        .push(("REQUEST", "\\{\"jsonrpc\":\"2.0\",\"id\":{NUMBER},\"method\":\"textDocument/selectionRange\",\"params\":{SELECTION_RANGE_PARAMS}\\}".spec_bytes()))
        .push(("REQUEST", "\\{\"jsonrpc\":\"2.0\",\"id\":{NUMBER},\"method\":\"textDocument/linkedEditingRange\",\"params\":{LINKED_EDITING_RANGE_PARAMS}\\}".spec_bytes()))
        .push(("REQUEST", "\\{\"jsonrpc\":\"2.0\",\"id\":{NUMBER},\"method\":\"textDocument/prepareRename\",\"params\":{PREPARE_RENAME_PARAMS}\\}".spec_bytes()))
        .push(("REQUEST", "\\{\"jsonrpc\":\"2.0\",\"id\":{NUMBER},\"method\":\"textDocument/codeLens\",\"params\":{CODE_LENS_PARAMS}\\}".spec_bytes()))
        .push(("REQUEST", "\\{\"jsonrpc\":\"2.0\",\"id\":{NUMBER},\"method\":\"textDocument/documentColor\",\"params\":{DOCUMENT_COLOR_PARAMS}\\}".spec_bytes()))
        .push(("REQUEST", "\\{\"jsonrpc\":\"2.0\",\"id\":{NUMBER},\"method\":\"textDocument/colorPresentation\",\"params\":{COLOR_PRESENTATION_PARAMS}\\}".spec_bytes()))
        .push(("REQUEST", "\\{\"jsonrpc\":\"2.0\",\"id\":{NUMBER},\"method\":\"textDocument/prepareCallHierarchy\",\"params\":{PREPARE_CALL_HIERARCHY_PARAMS}\\}".spec_bytes()))
        .push(("REQUEST", "\\{\"jsonrpc\":\"2.0\",\"id\":{NUMBER},\"method\":\"textDocument/semanticTokens/full\",\"params\":{SEMANTIC_TOKENS_PARAMS}\\}".spec_bytes()))
        .push(("REQUEST", "\\{\"jsonrpc\":\"2.0\",\"id\":{NUMBER},\"method\":\"textDocument/moniker\",\"params\":{MONIKER_PARAMS}\\}".spec_bytes()))
}

/// `acc` followed by the rules of part 2.
#[verifier::opaque]
pub open spec fn spec_rules_part_2(acc: Seq<RuleView>) -> Seq<RuleView> {
    acc
        .push(("REQUEST", "\\{\"jsonrpc\":\"2.0\",\"id\":{NUMBER},\"method\":\"textDocument/inlineValue\",\"params\":{INLINE_VALUE_PARAMS}\\}".spec_bytes()))
        .push(("REQUEST", "\\{\"jsonrpc\":\"2.0\",\"id\":{NUMBER},\"method\":\"workspace/willCreateFiles\",\"params\":{CREATE_FILES_PARAMS}\\}".spec_bytes()))
        .push(("REQUEST", "\\{\"jsonrpc\":\"2.0\",\"id\":{NUMBER},\"method\":\"workspace/executeCommand\",\"params\":{EXECUTE_COMMAND_PARAMS}\\}".spec_bytes()))
        .push(("REQUEST", "\\{\"jsonrpc\":\"2.0\",\"id\":{NUMBER},\"method\":\"textDocument/onTypeFormatting\",\"params\":{ON_TYPE_FORMATTING_PARAMS}\\}".spec_bytes()))
        .push(("REQUEST", "\\{\"jsonrpc\":\"2.0\",\"id\":{NUMBER},\"method\":\"textDocument/documentLink\",\"params\":{DOCUMENT_LINK_PARAMS}\\}".spec_bytes()))
        .push(("REQUEST", "\\{\"jsonrpc\":\"2.0\",\"id\":{NUMBER},\"method\":\"documentLink/resolve\",\"params\":{DOCUMENT_LINK}\\}".spec_bytes()))
        .push(("REQUEST", "\\{\"jsonrpc\":\"2.0\",\"id\":{NUMBER},\"method\":\"codeLens/resolve\",\"params\":{CODE_LENS}\\}".spec_bytes()))
        .push(("REQUEST", "\\{\"jsonrpc\":\"2.0\",\"id\":{NUMBER},\"method\":\"workspace/willRenameFiles\",\"params\":{RENAME_FILES_PARAMS}\\}".spec_bytes()))
        .push(("REQUEST", "\\{\"jsonrpc\":\"2.0\",\"id\":{NUMBER},\"method\":\"workspace/willDeleteFiles\",\"params\":{DELETE_FILES_PARAMS}\\}".spec_bytes()))
        .push(("REQUEST", "\\{\"jsonrpc\":\"2.0\",\"id\":{NUMBER},\"method\":\"callHierarchy/incomingCalls\",\"params\":{CALL_HIERARCHY_INCOMING_CALLS_PARAMS}\\}".spec_bytes()))
        .push(("REQUEST", "\\{\"jsonrpc\":\"2.0\",\"id\":{NUMBER},\"method\":\"callHierarchy/outgoingCalls\",\"params\":{CALL_HIERARCHY_OUTGOING_CALLS_PARAMS}\\}".spec_bytes()))
        .push(("REQUEST", "\\{\"jsonrpc\":\"2.0\",\"id\":{NUMBER},\"method\":\"textDocument/semanticTokens/range\",\"params\":{SEMANTIC_TOKENS_RANGE_PARAMS}\\}".spec_bytes()))
        .push(("REQUEST", "\\{\"jsonrpc\":\"2.0\",\"id\":{NUMBER},\"method\":\"textDocument/semanticTokens/full/delta\",\"params\":{SEMANTIC_TOKENS_DELTA_PARAMS}\\}".spec_bytes()))
        .push(("REQUEST", "\\{\"jsonrpc\":\"2.0\",\"id\":{NUMBER},\"method\":\"inlineCompletion/resolve\",\"params\":{INLINE_COMPLETION_ITEM}\\}".spec_bytes()))
        .push(("REQUEST", "\\{\"jsonrpc\":\"2.0\",\"id\":{NUMBER},\"method\":\"textDocument/inlineCompletion\",\"params\":{INLINE_COMPLETION_PARAMS}\\}".spec_bytes()))
        .push(("NOTIFICATION", "\\{\"jsonrpc\":\"2.0\",\"method\":\"initialized\",\"params\":{}\\}".spec_bytes()))
        .push(("NOTIFICATION", "\\{\"jsonrpc\":\"2.0\",\"method\":\"exit\",\"params\":null\\}".spec_bytes()))
        .push(("NOTIFICATION", "\\{\"jsonrpc\":\"2.0\",\"method\":\"textDocument/didOpen\",\"params\":{DID_OPEN_PARAMS}\\}".spec_bytes()))
        .push(("NOTIFICATION", "\\{\"jsonrpc\":\"2.0\",\"method\":\"textDocument/didChange\",\"params\":{DID_CHANGE_PARAMS}\\}".spec_bytes()))
        .push(("NOTIFICATION", "\\{\"jsonrpc\":\"2.0\",\"method\":\"textDocument/didSave\",\"params\":{DID_SAVE_PARAMS}\\}".spec_bytes()))
        .push(("NOTIFICATION", "\\{\"jsonrpc\":\"2.0\",\"method\":\"textDocument/didClose\",\"params\":{TEXT_DOCUMENT_PARAMS}\\}".spec_bytes()))
        .push(("NOTIFICATION", "\\{\"jsonrpc\":\"2.0\",\"method\":\"textDocument/willSave\",\"params\":{WILL_SAVE_PARAMS}\\}".spec_bytes()))
        .push(("NOTIFICATION", "\\{\"jsonrpc\":\"2.0\",\"method\":\"workspace/didChangeConfiguration\",\"params\":{WORKSPACE_PARAMS}\\}".spec_bytes()))
        .push(("NOTIFICATION", "\\{\"jsonrpc\":\"2.0\",\"method\":\"workspace/didChangeWatchedFiles\",\"params\":{DID_CHANGE_WATCHED_FILES_PARAMS}\\}".spec_bytes()))
        .push(("NOTIFICATION", "\\{\"jsonrpc\":\"2.0\",\"method\":\"/cancelRequest\",\"params\":{CANCEL_PARAMS}\\}".spec_bytes()))
        .push(("NOTIFICATION", "\\{\"jsonrpc\":\"2.0\",\"method\":\"$/progress\",\"params\":{PROGRESS_PARAMS}\\}".spec_bytes()))
        .push(("NOTIFICATION", "\\{\"jsonrpc\":\"2.0\",\"method\":\"$/setTrace\",\"params\":{SET_TRACE_PARAMS}\\}".spec_bytes()))
        .push(("NOTIFICATION", "\\{\"jsonrpc\":\"2.0\",\"method\":\"$/logTrace\",\"params\":{LOG_TRACE_PARAMS}\\}".spec_bytes()))
        .push(("NOTIFICATION", "\\{\"jsonrpc\":\"2.0\",\"method\":\"workspace/didCreateFiles\",\"params\":{CREATE_FILES_PARAMS}\\}".spec_bytes()))
        .push(("NOTIFICATION", "\\{\"jsonrpc\":\"2.0\",\"method\":\"workspace/didRenameFiles\",\"params\":{RENAME_FILES_PARAMS}\\}".spec_bytes()))
        .push(("NOTIFICATION", "\\{\"jsonrpc\":\"2.0\",\"method\":\"workspace/didDeleteFiles\",\"params\":{DELETE_FILES_PARAMS}\\}".spec_bytes()))
        .push(("NOTIFICATION", "\\{\"jsonrpc\":\"2.0\",\"method\":\"notebookDocument/didOpen\",\"params\":{NOTEBOOK_DOCUMENT_DID_OPEN_PARAMS}\\}".spec_bytes()))
        .push(("NOTIFICATION", "\\{\"jsonrpc\":\"2.0\",\"method\":\"notebookDocument/didChange\",\"params\":{NOTEBOOK_DOCUMENT_DID_CHANGE_PARAMS}\\}".spec_bytes()))
        .push(("NOTIFICATION", "\\{\"jsonrpc\":\"2.0\",\"method\":\"notebookDocument/didSave\",\"params\":{NOTEBOOK_DOCUMENT_DID_SAVE_PARAMS}\\}".spec_bytes()))
        .push(("NOTIFICATION", "\\{\"jsonrpc\":\"2.0\",\"method\":\"notebookDocument/didClose\",\"params\":{NOTEBOOK_DOCUMENT_DID_CLOSE_PARAMS}\\}".spec_bytes()))
        .push(("TEXT_DOCUMENT_ITEM", "\\{\"uri\":\"{URI}\",\"languageId\":\"{LANGUAGE_ID}\",\"version\":{NUMBER},\"text\":\"{TEXT}\"\\}".spec_bytes()))
        .push(("URI", "file:///{STRING_CONTENT}".spec_bytes()))
        .push(("LANGUAGE_ID", "rust".spec_bytes()))
        .push(("LANGUAGE_ID", "python".spec_bytes()))
        .push(("LANGUAGE_ID", "javascript".spec_bytes()))
}

/// `acc` followed by the rules of part 3.
#[verifier::opaque]
pub open spec fn spec_rules_part_3(acc: Seq<RuleView>) -> Seq<RuleView> {
    acc
        .push(("LANGUAGE_ID", "typescript".spec_bytes()))
        .push(("LANGUAGE_ID", "c".spec_bytes()))
        .push(("LANGUAGE_ID", "cpp".spec_bytes()))
        .push(("TEXT", "{STRING_CONTENT}".spec_bytes()))
        .push(("INITIALIZE_PARAMS", "\\{\"processId\":{NUMBER},\"rootUri\":\"file:///path/to/workspace\",\"capabilities\":{CLIENT_CAPABILITIES}\\}".spec_bytes()))
        .push(("CLIENT_CAPABILITIES", "\\{\"workspace\":{WORKSPACE_CAPABILITY},\"textDocument\":{TEXT_DOCUMENT_CAPABILITY},\"window\":{WINDOW_CAPABILITY},\"general\":{GENERAL_CAPABILITY}\\}".spec_bytes()))
        .push(("WORKSPACE_CAPABILITY", "\\{\"applyEdit\":true,\"workspaceEdit\":{WORKSPACE_EDIT_CAPABILITY},\"didChangeConfiguration\":{DYNAMIC_REGISTRATION},\"didChangeWatchedFiles\":{DYNAMIC_REGISTRATION},\"symbol\":{SYMBOL_CAPABILITY},\"executeCommand\":{DYNAMIC_REGISTRATION},\"workspaceFolders\":true,\"configuration\":true\\}".spec_bytes()))
        .push(("WORKSPACE_EDIT_CAPABILITY", "\\{\"documentChanges\":true\\}".spec_bytes()))
        .push(("TEXT_DOCUMENT_CAPABILITY", "\\{\"synchronization\":{SYNC_CAPABILITY},\"completion\":{COMPLETION_CAPABILITY},\"hover\":{HOVER_CAPABILITY},\"signatureHelp\":{SIGNATURE_HELP_CAPABILITY},\"declaration\":{DECLARATION_CAPABILITY},\"definition\":{DEFINITION_CAPABILITY},\"typeDefinition\":{TYPE_DEFINITION_CAPABILITY},\"implementation\":{IMPLEMENTATION_CAPABILITY},\"references\":{REFERENCES_CAPABILITY},\"documentHighlight\":{DOCUMENT_HIGHLIGHT_CAPABILITY},\"documentSymbol\":{DOCUMENT_SYMBOL_CAPABILITY},\"codeAction\":{CODE_ACTION_CAPABILITY},\"codeLens\":{CODE_LENS_CAPABILITY},\"formatting\":{FORMATTING_CAPABILITY},\"rangeFormatting\":{RANGE_FORMATTING_CAPABILITY},\"onTypeFormatting\":{ON_TYPE_FORMATTING_CAPABILITY},\"rename\":{RENAME_CAPABILITY},\"publishDiagnostics\":{PUBLISH_DIAGNOSTICS_CAPABILITY},\"foldingRange\":{FOLDING_RANGE_CAPABILITY},\"selectionRange\":{SELECTION_RANGE_CAPABILITY},\"linkedEditingRange\":{LINKED_EDITING_RANGE_CAPABILITY},\"callHierarchy\":{CALL_HIERARCHY_CAPABILITY},\"semanticTokens\":{SEMANTIC_TOKENS_CAPABILITY},\"moniker\":{MONIKER_CAPABILITY},\"inlayHint\":{INLAY_HINT_CAPABILITY}\\}".spec_bytes()))
        .push(("SYNC_CAPABILITY", "\\{\"dynamicRegistration\":true,\"willSave\":true,\"willSaveWaitUntil\":true,\"didSave\":true\\}".spec_bytes()))
        .push(("COMPLETION_CAPABILITY", "\\{\"dynamicRegistration\":true,\"completionItem\":{COMPLETION_ITEM_CAPABILITY}\\}".spec_bytes()))
        .push(("COMPLETION_ITEM_CAPABILITY", "\\{\"snippetSupport\":true,\"commitCharactersSupport\":true\\}".spec_bytes()))
        .push(("TEXT_DOCUMENT_PARAMS", "\\{\"textDocument\":{TEXT_DOCUMENT_IDENTIFIER}\\}".spec_bytes()))
        .push(("VERSIONED_TEXT_DOCUMENT_IDENTIFIER", "\\{\"uri\":\"{URI}\",\"version\":{NUMBER}\\}".spec_bytes()))
        .push(("OPTIONAL_VERSIONED_TEXT_DOCUMENT_IDENTIFIER", "\\{\"uri\":\"{URI}\",\"version\":{NUMBER}\\}".spec_bytes()))
        .push(("OPTIONAL_VERSIONED_TEXT_DOCUMENT_IDENTIFIER", "\\{\"uri\":\"{URI}\",\"version\":null\\}".spec_bytes()))
        .push(("TEXT_DOCUMENT_IDENTIFIER", "\\{\"uri\":\"{URI}\",\"version\":{NUMBER}\\}".spec_bytes()))
        .push(("POSITION", "\\{\"line\":{NUMBER},\"character\":{NUMBER}\\}".spec_bytes()))
        .push(("TEXT_DOCUMENT_POSITION_PARAMS", "\\{\"textDocument\":{TEXT_DOCUMENT_IDENTIFIER},\"position\":{POSITION}\\}".spec_bytes()))
        .push(("RANGE", "\\{\"start\":{POSITION},\"end\":{POSITION}\\}".spec_bytes()))
        .push(("COMPLETION_PARAMS", "{TEXT_DOCUMENT_POSITION_PARAMS}".spec_bytes()))
        .push(("COMPLETION_PARAMS", "\\{\"textDocument\":{TEXT_DOCUMENT_IDENTIFIER},\"position\":{POSITION},\"context\":{COMPLETION_CONTEXT}\\}".spec_bytes()))
        .push(("COMPLETION_CONTEXT", "\\{\"triggerKind\":{NUMBER},\"triggerCharacter\":\"{CHAR}\"\\}".spec_bytes()))
        .push(("COMPLETION_ITEM", "\\{\"label\":\"{STRING_CONTENT}\",\"kind\":{NUMBER},\"detail\":\"{STRING_CONTENT}\",\"documentation\":\"{STRING_CONTENT}\",\"deprecated\":false,\"preselect\":false,\"sortText\":\"{STRING_CONTENT}\",\"filterText\":\"{STRING_CONTENT}\",\"insertText\":\"{STRING_CONTENT}\",\"insertTextFormat\":{NUMBER},\"textEdit\":{TEXT_EDIT},\"additionalTextEdits\":[{TEXT_EDIT}],\"commitCharacters\":[\"{CHAR}\"],\"command\":{COMMAND},\"data\":{JSON_VALUE}\\}".spec_bytes()))
        .push(("TEXT_EDIT", "\\{\"range\":{RANGE},\"newText\":\"{STRING_CONTENT}\"\\}".spec_bytes()))
        .push(("HOVER_PARAMS", "{TEXT_DOCUMENT_POSITION_PARAMS}".spec_bytes()))
        .push(("HOVER", "\\{\"contents\":{MARKUP_CONTENT},\"range\":{RANGE}\\}".spec_bytes()))
        .push(("MARKUP_CONTENT", "\\{\"kind\":\"markdown\",\"value\":\"{STRING_CONTENT}\"\\}".spec_bytes()))
        .push(("MARKUP_CONTENT", "\\{\"kind\":\"plaintext\",\"value\":\"{STRING_CONTENT}\"\\}".spec_bytes()))
        .push(("SIGNATURE_HELP_PARAMS", "{TEXT_DOCUMENT_POSITION_PARAMS}".spec_bytes()))
        .push(("SIGNATURE_HELP_CONTEXT", "\\{\"isRetrigger\":true,\"triggerCharacter\":\"{CHAR}\",\"activeSignatureHelp\":{SIGNATURE_HELP}\\}".spec_bytes()))
        .push(("SIGNATURE_HELP", "\\{\"signatures\":[{SIGNATURE_INFORMATION}],\"activeSignature\":{NUMBER},\"activeParameter\":{NUMBER}\\}".spec_bytes()))
        .push(("SIGNATURE_INFORMATION", "\\{\"label\":\"{STRING_CONTENT}\",\"documentation\":\"{STRING_CONTENT}\",\"parameters\":[{PARAMETER_INFORMATION}]\\}".spec_bytes()))
        .push(("PARAMETER_INFORMATION", "\\{\"label\":\"{STRING_CONTENT}\",\"documentation\":\"{STRING_CONTENT}\"\\}".spec_bytes()))
        .push(("DEFINITION_PARAMS", "{TEXT_DOCUMENT_POSITION_PARAMS}".spec_bytes()))
        .push(("LOCATION", "\\{\"uri\":\"{URI}\",\"range\":{RANGE}\\}".spec_bytes()))
        .push(("LOCATION_LINK", "\\{\"originSelectionRange\":{RANGE},\"targetUri\":\"{URI}\",\"targetRange\":{RANGE},\"targetSelectionRange\":{RANGE}\\}".spec_bytes()))
        .push(("REFERENCE_PARAMS", "\\{\"textDocument\":{TEXT_DOCUMENT_IDENTIFIER},\"position\":{POSITION},\"context\":{REFERENCE_CONTEXT}\\}".spec_bytes()))
        .push(("REFERENCE_CONTEXT", "\\{\"includeDeclaration\":true\\}".spec_bytes()))
        .push(("DOCUMENT_SYMBOL_PARAMS", "{TEXT_DOCUMENT_PARAMS}".spec_bytes()))
}

/// `acc` followed by the rules of part 4.
#[verifier::opaque]
pub open spec fn spec_rules_part_4(acc: Seq<RuleView>) -> Seq<RuleView> {
    ((((((acc
        .push(("CODE_ACTION_PARAMS", "\\{\"textDocument\":{TEXT_DOCUMENT_IDENTIFIER},\"range\":{RANGE},\"context\":{CODE_ACTION_CONTEXT}\\}".spec_bytes()))
        .push(("CODE_ACTION_CONTEXT", "\\{\"diagnostics\":[{DIAGNOSTIC}]\\}".spec_bytes()))
        .push(("DIAGNOSTIC", "\\{\"range\":{RANGE},\"severity\":{NUMBER},\"code\":{NUMBER},\"source\":\"{STRING_CONTENT}\",\"message\":\"{STRING_CONTENT}\",\"tags\":[{NUMBER}],\"relatedInformation\":[{DIAGNOSTIC_RELATED_INFORMATION}]\\}".spec_bytes()))
        .push(("DIAGNOSTIC_RELATED_INFORMATION", "\\{\"location\":{LOCATION},\"message\":\"{STRING_CONTENT}\"\\}".spec_bytes()))
        .push(("FORMATTING_PARAMS", "\\{\"textDocument\":{TEXT_DOCUMENT_IDENTIFIER},\"options\":{FORMATTING_OPTIONS}\\}".spec_bytes()))
        .push(("FORMATTING_OPTIONS", "\\{\"tabSize\":{NUMBER},\"insertSpaces\":true\\}".spec_bytes()))
        .push(("RANGE_FORMATTING_PARAMS", "\\{\"textDocument\":{TEXT_DOCUMENT_IDENTIFIER},\"range\":{RANGE},\"options\":{FORMATTING_OPTIONS}\\}".spec_bytes()))
        .push(("RENAME_PARAMS", "\\{\"textDocument\":{TEXT_DOCUMENT_IDENTIFIER},\"position\":{POSITION},\"newName\":\"{STRING_CONTENT}\"\\}".spec_bytes()))
        .push(("PREPARE_RENAME_PARAMS", "{TEXT_DOCUMENT_POSITION_PARAMS}".spec_bytes()))
        .push(("IMPLEMENTATION_PARAMS", "{TEXT_DOCUMENT_POSITION_PARAMS}".spec_bytes()))
        .push(("TYPE_DEFINITION_PARAMS", "{TEXT_DOCUMENT_POSITION_PARAMS}".spec_bytes()))
        .push(("DECLARATION_PARAMS", "{TEXT_DOCUMENT_POSITION_PARAMS}".spec_bytes()))
        .push(("DOCUMENT_HIGHLIGHT_PARAMS", "{TEXT_DOCUMENT_POSITION_PARAMS}".spec_bytes()))
        .push(("FOLDING_RANGE_PARAMS", "{TEXT_DOCUMENT_PARAMS}".spec_bytes()))
        .push(("SELECTION_RANGE_PARAMS", "\\{\"textDocument\":{TEXT_DOCUMENT_IDENTIFIER},\"positions\":[{POSITION}]\\}".spec_bytes()))
        .push(("LINKED_EDITING_RANGE_PARAMS", "{TEXT_DOCUMENT_POSITION_PARAMS}".spec_bytes()))
        .push(("CODE_LENS_PARAMS", "{TEXT_DOCUMENT_PARAMS}".spec_bytes()))
        .push(("DOCUMENT_COLOR_PARAMS", "{TEXT_DOCUMENT_PARAMS}".spec_bytes()))
        .push(("COLOR_PRESENTATION_PARAMS", "\\{\"textDocument\":{TEXT_DOCUMENT_IDENTIFIER},\"color\":{COLOR},\"range\":{RANGE}\\}".spec_bytes()))
        .push(("COLOR", "\\{\"red\":{NUMBER},\"green\":{NUMBER},\"blue\":{NUMBER},\"alpha\":{NUMBER}\\}".spec_bytes()))
        .push(("PREPARE_CALL_HIERARCHY_PARAMS", "{TEXT_DOCUMENT_POSITION_PARAMS}".spec_bytes()))
        .push(("SEMANTIC_TOKENS_PARAMS", "{TEXT_DOCUMENT_PARAMS}".spec_bytes()))
        .push(("MONIKER_PARAMS", "{TEXT_DOCUMENT_POSITION_PARAMS}".spec_bytes()))
        .push(("MONIKER", "\\{\"scheme\":\"{STRING_CONTENT}\",\"identifier\":\"{STRING_CONTENT}\",\"unique\":{NUMBER},\"kind\":{NUMBER}\\}".spec_bytes()))
        .push(("INLINE_VALUE_PARAMS", "\\{\"textDocument\":{TEXT_DOCUMENT_IDENTIFIER},\"range\":{RANGE}\\}".spec_bytes()))
        .push(("CREATE_FILES_PARAMS", "\\{\"files\":[{FILE_CREATE}]\\}".spec_bytes()))
        .push(("FILE_CREATE", "\\{\"uri\":\"{URI}\"\\}".spec_bytes()))
        .push(("EXECUTE_COMMAND_PARAMS", "\\{\"command\":\"{STRING_CONTENT}\",\"arguments\":[{JSON_VALUE}]\\}".spec_bytes()))
        + spec_number_rules("SYMBOL_KIND", 1, 26))
        + spec_number_rules("COMPLETION_ITEM_KIND", 1, 25))
        + spec_number_rules("TEXT_DOCUMENT_SYNC_KIND", 0, 2))
        + spec_number_rules("DIAGNOSTIC_SEVERITY", 1, 4))
        + spec_number_rules("INSERT_TEXT_FORMAT", 1, 2))
        + spec_number_rules("DOCUMENT_HIGHLIGHT_KIND", 1, 3))
        .push(("CODE_ACTION_KIND", "\"quickfix\"".spec_bytes()))
        .push(("CODE_ACTION_KIND", "\"refactor\"".spec_bytes()))
        .push(("CODE_ACTION_KIND", "\"refactor.extract\"".spec_bytes()))
        .push(("CODE_ACTION_KIND", "\"refactor.inline\"".spec_bytes()))
        .push(("CODE_ACTION_KIND", "\"refactor.rewrite\"".spec_bytes()))
        .push(("CODE_ACTION_KIND", "\"source\"".spec_bytes()))
}

/// `acc` followed by the rules of part 5.
#[verifier::opaque]
pub open spec fn spec_rules_part_5(acc: Seq<RuleView>) -> Seq<RuleView> {
    acc
        .push(("CODE_ACTION_KIND", "\"source.organizeImports\"".spec_bytes()))
        .push(("CODE_ACTION_KIND", "\"source.fixAll\"".spec_bytes()))
        .push(("MARKUP_KIND", "\"plaintext\"".spec_bytes()))
        .push(("MARKUP_KIND", "\"markdown\"".spec_bytes()))
        .push(("TEXT_DOCUMENT_REGISTRATION_OPTIONS", "\\{\"documentSelector\":[{DOCUMENT_FILTER}]\\}".spec_bytes()))
        .push(("DOCUMENT_FILTER", "\\{\"language\":\"{LANGUAGE_ID}\",\"scheme\":\"{URI_SCHEME}\",\"pattern\":\"**/*.{FILE_EXT}\"\\}".spec_bytes()))
        .push(("URI_SCHEME", "file".spec_bytes()))
        .push(("URI_SCHEME", "untitled".spec_bytes()))
        .push(("URI_SCHEME", "git".spec_bytes()))
        .push(("STATIC_REGISTRATION_OPTIONS", "\\{\"id\":\"{STRING_CONTENT}\"\\}".spec_bytes()))
        .push(("WORK_DONE_PROGRESS_OPTIONS", "\\{\"workDoneProgress\":true\\}".spec_bytes()))
        .push(("WORK_DONE_PROGRESS_OPTIONS", "\\{\"workDoneProgress\":false\\}".spec_bytes()))
        .push(("CODE_ACTION_REGISTRATION_OPTIONS", "\\{\"documentSelector\":[{DOCUMENT_FILTER}],\"codeActionKinds\":[{CODE_ACTION_KIND}]\\}".spec_bytes()))
        .push(("COMPLETION_REGISTRATION_OPTIONS", "\\{\"documentSelector\":[{DOCUMENT_FILTER}],\"triggerCharacters\":[\".\",[\":\"],[\"/\"]],\"allCommitCharacters\":[\".\",[\":\"],[\"/\"]],\"resolveProvider\":true\\}".spec_bytes()))
        .push(("SIGNATURE_HELP_REGISTRATION_OPTIONS", "\\{\"documentSelector\":[{DOCUMENT_FILTER}],\"triggerCharacters\":[\".\",[\":\"],[\"/\"]],\"retriggerCharacters\":[\".\",[\":\"],[\"/\"]]\\}".spec_bytes()))
        .push(("DID_OPEN_PARAMS", "\\{\"textDocument\":{TEXT_DOCUMENT_ITEM}\\}".spec_bytes()))
        .push(("DID_CHANGE_PARAMS", "\\{\"textDocument\":{TEXT_DOCUMENT_IDENTIFIER},\"contentChanges\":[{TEXT_DOCUMENT_CONTENT_CHANGE_EVENT}]\\}".spec_bytes()))
        .push(("TEXT_DOCUMENT_CONTENT_CHANGE_EVENT", "\\{\"text\":\"{TEXT}\"\\}".spec_bytes()))
        .push(("DID_SAVE_PARAMS", "\\{\"textDocument\":{TEXT_DOCUMENT_IDENTIFIER},\"text\":\"{TEXT}\"\\}".spec_bytes()))
        .push(("WILL_SAVE_PARAMS", "\\{\"textDocument\":{TEXT_DOCUMENT_IDENTIFIER},\"reason\":{NUMBER}\\}".spec_bytes()))
        .push(("WORKSPACE_PARAMS", "\\{\"settings\":{JSON_OBJECT}\\}".spec_bytes()))
        .push(("DID_CHANGE_WATCHED_FILES_PARAMS", "\\{\"changes\":[{FILE_EVENT}]\\}".spec_bytes()))
        .push(("FILE_EVENT", "\\{\"uri\":\"{URI}\",\"type\":{NUMBER}\\}".spec_bytes()))
        .push(("CANCEL_PARAMS", "\\{\"id\":{NUMBER}\\}".spec_bytes()))
        .push(("WORKSPACE_SYMBOL_PARAMS", "\\{\"query\":\"{STRING_CONTENT}\"\\}".spec_bytes()))
        .push(("ON_TYPE_FORMATTING_PARAMS", "\\{\"textDocument\":{TEXT_DOCUMENT_IDENTIFIER},\"position\":{POSITION},\"ch\":\"{CHAR}\",\"options\":{FORMATTING_OPTIONS}\\}".spec_bytes()))
        .push(("DOCUMENT_LINK_PARAMS", "{TEXT_DOCUMENT_PARAMS}".spec_bytes()))
        .push(("DOCUMENT_LINK", "\\{\"range\":{RANGE},\"target\":\"{URI}\",\"tooltip\":\"{STRING_CONTENT}\",\"data\":{JSON_VALUE}\\}".spec_bytes()))
        .push(("CODE_LENS", "\\{\"range\":{RANGE},\"command\":{COMMAND},\"data\":{JSON_VALUE}\\}".spec_bytes()))
        .push(("COMMAND", "\\{\"title\":\"{STRING_CONTENT}\",\"command\":\"{STRING_CONTENT}\",\"arguments\":[{JSON_VALUE}]\\}".spec_bytes()))
        .push(("RENAME_FILES_PARAMS", "\\{\"files\":[{FILE_RENAME}]\\}".spec_bytes()))
        .push(("FILE_RENAME", "\\{\"oldUri\":\"{URI}\",\"newUri\":\"{URI}\"\\}".spec_bytes()))
        .push(("DELETE_FILES_PARAMS", "\\{\"files\":[{FILE_DELETE}]\\}".spec_bytes()))
        .push(("FILE_DELETE", "\\{\"uri\":\"{URI}\"\\}".spec_bytes()))
        .push(("CALL_HIERARCHY_ITEM", "\\{\"name\":\"{STRING_CONTENT}\",\"kind\":{NUMBER},\"uri\":\"{URI}\",\"range\":{RANGE},\"selectionRange\":{RANGE},\"data\":{JSON_VALUE}\\}".spec_bytes()))
        .push(("CALL_HIERARCHY_INCOMING_CALLS_PARAMS", "\\{\"item\":{CALL_HIERARCHY_ITEM}\\}".spec_bytes()))
        .push(("CALL_HIERARCHY_OUTGOING_CALLS_PARAMS", "\\{\"item\":{CALL_HIERARCHY_ITEM}\\}".spec_bytes()))
        .push(("CALL_HIERARCHY_INCOMING_CALL", "\\{\"from\":{CALL_HIERARCHY_ITEM},\"fromRanges\":[{RANGE}]\\}".spec_bytes()))
        .push(("CALL_HIERARCHY_OUTGOING_CALL", "\\{\"to\":{CALL_HIERARCHY_ITEM},\"fromRanges\":[{RANGE}]\\}".spec_bytes()))
        .push(("SEMANTIC_TOKENS_RANGE_PARAMS", "\\{\"textDocument\":{TEXT_DOCUMENT_IDENTIFIER},\"range\":{RANGE}\\}".spec_bytes()))
}

/// `acc` followed by the rules of part 6.
#[verifier::opaque]
pub open spec fn spec_rules_part_6(acc: Seq<RuleView>) -> Seq<RuleView> {
    acc
        .push(("SEMANTIC_TOKENS_DELTA_PARAMS", "\\{\"textDocument\":{TEXT_DOCUMENT_IDENTIFIER},\"previousResultId\":\"{STRING_CONTENT}\"\\}".spec_bytes()))
        .push(("SEMANTIC_TOKENS", "\\{\"resultId\":\"{STRING_CONTENT}\",\"data\":[{NUMBER}]\\}".spec_bytes()))
        .push(("INLINE_COMPLETION_PARAMS", "{TEXT_DOCUMENT_POSITION_PARAMS}".spec_bytes()))
        .push(("INLINE_COMPLETION_ITEM", "\\{\"insertText\":\"{STRING_CONTENT}\",\"range\":{RANGE}\\}".spec_bytes()))
        .push(("PROGRESS_PARAMS", "\\{\"token\":{JSON_VALUE},\"value\":{JSON_OBJECT}\\}".spec_bytes()))
        .push(("SET_TRACE_PARAMS", "\\{\"value\":\"{STRING_CONTENT}\"\\}".spec_bytes()))
        .push(("LOG_TRACE_PARAMS", "\\{\"message\":\"{STRING_CONTENT}\",\"verbose\":\"{STRING_CONTENT}\"\\}".spec_bytes()))
        .push(("REQUEST", "\\{\"jsonrpc\":\"2.0\",\"id\":{NUMBER},\"method\":\"workspace/workspaceFolders\",\"params\":null\\}".spec_bytes()))
        .push(("REQUEST", "\\{\"jsonrpc\":\"2.0\",\"id\":{NUMBER},\"method\":\"workspace/configuration\",\"params\":{CONFIGURATION_PARAMS}\\}".spec_bytes()))
        .push(("NOTIFICATION", "\\{\"jsonrpc\":\"2.0\",\"method\":\"workspace/didChangeWorkspaceFolders\",\"params\":{WORKSPACE_FOLDERS_CHANGE_EVENT}\\}".spec_bytes()))
        .push(("REQUEST", "\\{\"jsonrpc\":\"2.0\",\"id\":{NUMBER},\"method\":\"textDocument/inlayHint\",\"params\":{INLAY_HINT_PARAMS}\\}".spec_bytes()))
        .push(("CONFIGURATION_PARAMS", "\\{\"items\":[{CONFIGURATION_ITEM}]\\}".spec_bytes()))
        .push(("CONFIGURATION_ITEM", "\\{\"scopeUri\":\"{URI}\",\"section\":\"{STRING_CONTENT}\"\\}".spec_bytes()))
        .push(("WORKSPACE_FOLDERS_CHANGE_EVENT", "\\{\"added\":[{WORKSPACE_FOLDER}],\"removed\":[{WORKSPACE_FOLDER}]\\}".spec_bytes()))
        .push(("WORKSPACE_FOLDER", "\\{\"uri\":\"{URI}\",\"name\":\"{STRING_CONTENT}\"\\}".spec_bytes()))
        .push(("INLAY_HINT_PARAMS", "{TEXT_DOCUMENT_POSITION_PARAMS}".spec_bytes()))
        .push(("NOTEBOOK_DOCUMENT_DID_OPEN_PARAMS", "\\{\"notebookDocument\":{NOTEBOOK_DOCUMENT},\"cellTextDocuments\":[{TEXT_DOCUMENT_ITEM}]\\}".spec_bytes()))
        .push(("NOTEBOOK_DOCUMENT_DID_CHANGE_PARAMS", "\\{\"notebookDocument\":{NOTEBOOK_DOCUMENT_IDENTIFIER},\"change\":{NOTEBOOK_DOCUMENT_CHANGE_EVENT}\\}".spec_bytes()))
        .push(("NOTEBOOK_DOCUMENT_DID_SAVE_PARAMS", "\\{\"notebookDocument\":{NOTEBOOK_DOCUMENT_IDENTIFIER}\\}".spec_bytes()))
        .push(("NOTEBOOK_DOCUMENT_DID_CLOSE_PARAMS", "\\{\"notebookDocument\":{NOTEBOOK_DOCUMENT_IDENTIFIER},\"cellTextDocuments\":[{TEXT_DOCUMENT_IDENTIFIER}]\\}".spec_bytes()))
        .push(("NOTEBOOK_DOCUMENT", "\\{\"uri\":\"{URI}\",\"notebookType\":\"{STRING_CONTENT}\",\"version\":{NUMBER},\"cells\":[{NOTEBOOK_CELL}]\\}".spec_bytes()))
        .push(("NOTEBOOK_DOCUMENT_IDENTIFIER", "\\{\"uri\":\"{URI}\",\"version\":{NUMBER}\\}".spec_bytes()))
        .push(("NOTEBOOK_DOCUMENT_CHANGE_EVENT", "\\{\"cells\":{CELLS_CHANGE_EVENT}\\}".spec_bytes()))
        .push(("CELLS_CHANGE_EVENT", "\\{\"structure\":{CELLS_STRUCTURE_CHANGE_EVENT},\"data\":[{NOTEBOOK_CELL}],\"textContent\":[{CELL_TEXT_CONTENT_CHANGE_EVENT}]\\}".spec_bytes()))
        .push(("CELLS_STRUCTURE_CHANGE_EVENT", "\\{\"array\":{ARRAY_CHANGE_EVENT},\"didOpen\":[{TEXT_DOCUMENT_ITEM}],\"didClose\":[{TEXT_DOCUMENT_IDENTIFIER}]\\}".spec_bytes()))
        .push(("ARRAY_CHANGE_EVENT", "\\{\"start\":{NUMBER},\"deleteCount\":{NUMBER},\"cells\":[{NOTEBOOK_CELL}]\\}".spec_bytes()))
        .push(("CELL_TEXT_CONTENT_CHANGE_EVENT", "\\{\"document\":{TEXT_DOCUMENT_IDENTIFIER},\"changes\":[{TEXT_DOCUMENT_CONTENT_CHANGE_EVENT}]\\}".spec_bytes()))
        .push(("NOTEBOOK_CELL", "\\{\"kind\":{NUMBER},\"document\":\"{URI}\"\\}".spec_bytes()))
}

/// The production rules of the LSP message grammar, in order.
pub open spec fn spec_grammar_rules() -> Seq<RuleView> {
    spec_rules_part_6(
        spec_rules_part_5(
            spec_rules_part_4(
                spec_rules_part_3(spec_rules_part_2(spec_rules_part_1(spec_rules_part_0(Seq::empty())))),
            ),
        ),
    )
}

fn add_rules_part_0(rules: &mut Vec<(&'static str, Vec<u8>)>)
    ensures
        rules_view(final(rules)@) == spec_rules_part_0(rules_view(old(rules)@)),
{
    proof {
        reveal(spec_rules_part_0);
    }
    add_rule(rules, "START", "{REQUEST}".as_bytes());
    add_rule(rules, "START", "{NOTIFICATION}".as_bytes());
    add_rule(rules, "NUMBER", "{DIGIT}".as_bytes());
    add_rule(rules, "NUMBER", "{DIGIT}{NUMBER}".as_bytes());
    add_rule(rules, "NUMBER", "-{NUMBER}".as_bytes());
    add_rule(rules, "NUMBER", "{NUMBER}.{NUMBER}".as_bytes());
    add_digit_rules(rules);
    add_rule(rules, "STRING", "\"{CHAR}\"".as_bytes());
    add_rule(rules, "STRING", "{CHAR}{STRING}".as_bytes());
    add_rule(rules, "CHAR", "{DIGIT}".as_bytes());
    add_letter_rules(rules, 97u8, 122u8);
    add_letter_rules(rules, 65u8, 90u8);
    add_rule(rules, "CHAR", "_".as_bytes());
    add_rule(rules, "CHAR", "-".as_bytes());
    add_rule(rules, "CHAR", "/".as_bytes());
    add_rule(rules, "CHAR", ".".as_bytes());
    add_rule(rules, "CHAR", ",".as_bytes());
    add_rule(rules, "CHAR", ":".as_bytes());
    add_rule(rules, "CHAR", "$".as_bytes());
    add_rule(rules, "CHAR", "@".as_bytes());
    add_rule(rules, "CHAR", "#".as_bytes());
    add_rule(rules, "CHAR", "!".as_bytes());
    add_rule(rules, "CHAR", "?".as_bytes());
    add_rule(rules, "CHAR", "+".as_bytes());
    add_rule(rules, "CHAR", "*".as_bytes());
    add_rule(rules, "CHAR", "&".as_bytes());
    add_rule(rules, "CHAR", "%".as_bytes());
    add_rule(rules, "CHAR", "=".as_bytes());
    add_rule(rules, "CHAR", " ".as_bytes());
    add_rule(rules, "JSON_OBJECT", "\\{\\}".as_bytes());
    add_rule(rules, "JSON_OBJECT", "\\{{JSON_MEMBERS}\\}".as_bytes());
    add_rule(rules, "JSON_MEMBERS", "{JSON_MEMBER}".as_bytes());
    add_rule(rules, "JSON_MEMBERS", "{JSON_MEMBER},{JSON_MEMBERS}".as_bytes());
    add_rule(rules, "JSON_MEMBER", "\"{STRING_CONTENT}\":{JSON_VALUE}".as_bytes());
    add_rule(rules, "JSON_ARRAY", "\\[\\]".as_bytes());
    add_rule(rules, "JSON_ARRAY", "\\[{JSON_ELEMENTS}\\]".as_bytes());
    add_rule(rules, "JSON_ELEMENTS", "{JSON_VALUE}".as_bytes());
    add_rule(rules, "JSON_ELEMENTS", "{JSON_VALUE},{JSON_ELEMENTS}".as_bytes());
    add_rule(rules, "JSON_VALUE", "{JSON_OBJECT}".as_bytes());
    add_rule(rules, "JSON_VALUE", "{JSON_ARRAY}".as_bytes());
}

fn add_rules_part_1(rules: &mut Vec<(&'static str, Vec<u8>)>)
    ensures
        rules_view(final(rules)@) == spec_rules_part_1(rules_view(old(rules)@)),
{
    proof {
        reveal(spec_rules_part_1);
    }
    add_rule(rules, "JSON_VALUE", "\"{STRING_CONTENT}\"".as_bytes());
    add_rule(rules, "JSON_VALUE", "{NUMBER}".as_bytes());
    add_rule(rules, "JSON_VALUE", "true".as_bytes());
    add_rule(rules, "JSON_VALUE", "false".as_bytes());
    add_rule(rules, "JSON_VALUE", "null".as_bytes());
    add_rule(rules, "STRING_CONTENT", "{CHAR}".as_bytes());
    add_rule(rules, "STRING_CONTENT", "{CHAR}{STRING_CONTENT}".as_bytes());
    add_rule(rules, "PARAMS", "{INITIALIZE_PARAMS}".as_bytes());
    add_rule(rules, "PARAMS", "{TEXT_DOCUMENT_PARAMS}".as_bytes());
    add_rule(rules, "PARAMS", "{WORKSPACE_PARAMS}".as_bytes());
    add_rule(rules, "PARAMS", "null".as_bytes());
    add_rule(rules, "REQUEST", "\\{\"jsonrpc\":\"2.0\",\"id\":{NUMBER},\"method\":\"initialize\",\"params\":{INITIALIZE_PARAMS}\\}".as_bytes());
    add_rule(rules, "REQUEST", "\\{\"jsonrpc\":\"2.0\",\"id\":{NUMBER},\"method\":\"shutdown\",\"params\":null\\}".as_bytes());
    add_rule(rules, "REQUEST", "\\{\"jsonrpc\":\"2.0\",\"id\":{NUMBER},\"method\":\"textDocument/willSaveWaitUntil\",\"params\":{WILL_SAVE_PARAMS}\\}".as_bytes());
    add_rule(rules, "REQUEST", "\\{\"jsonrpc\":\"2.0\",\"id\":{NUMBER},\"method\":\"textDocument/completion\",\"params\":{COMPLETION_PARAMS}\\}".as_bytes());
    add_rule(rules, "REQUEST", "\\{\"jsonrpc\":\"2.0\",\"id\":{NUMBER},\"method\":\"completionItem/resolve\",\"params\":{COMPLETION_ITEM}\\}".as_bytes());
    add_rule(rules, "REQUEST", "\\{\"jsonrpc\":\"2.0\",\"id\":{NUMBER},\"method\":\"textDocument/hover\",\"params\":{HOVER_PARAMS}\\}".as_bytes());
    add_rule(rules, "REQUEST", "\\{\"jsonrpc\":\"2.0\",\"id\":{NUMBER},\"method\":\"textDocument/signatureHelp\",\"params\":{SIGNATURE_HELP_PARAMS}\\}".as_bytes());
    add_rule(rules, "REQUEST", "\\{\"jsonrpc\":\"2.0\",\"id\":{NUMBER},\"method\":\"textDocument/definition\",\"params\":{DEFINITION_PARAMS}\\}".as_bytes());
    add_rule(rules, "REQUEST", "\\{\"jsonrpc\":\"2.0\",\"id\":{NUMBER},\"method\":\"textDocument/documentSymbol\",\"params\":{DOCUMENT_SYMBOL_PARAMS}\\}".as_bytes());
    add_rule(rules, "REQUEST", "\\{\"jsonrpc\":\"2.0\",\"id\":{NUMBER},\"method\":\"textDocument/codeAction\",\"params\":{CODE_ACTION_PARAMS}\\}".as_bytes());
    add_rule(rules, "REQUEST", "\\{\"jsonrpc\":\"2.0\",\"id\":{NUMBER},\"method\":\"textDocument/formatting\",\"params\":{FORMATTING_PARAMS}\\}".as_bytes());
    add_rule(rules, "REQUEST", "\\{\"jsonrpc\":\"2.0\",\"id\":{NUMBER},\"method\":\"textDocument/rename\",\"params\":{RENAME_PARAMS}\\}".as_bytes());
    add_rule(rules, "REQUEST", "\\{\"jsonrpc\":\"2.0\",\"id\":{NUMBER},\"method\":\"textDocument/rangeFormatting\",\"params\":{RANGE_FORMATTING_PARAMS}\\}".as_bytes());
    add_rule(rules, "REQUEST", "\\{\"jsonrpc\":\"2.0\",\"id\":{NUMBER},\"method\":\"textDocument/references\",\"params\":{REFERENCE_PARAMS}\\}".as_bytes());
    add_rule(rules, "REQUEST", "\\{\"jsonrpc\":\"2.0\",\"id\":{NUMBER},\"method\":\"textDocument/implementation\",\"params\":{IMPLEMENTATION_PARAMS}\\}".as_bytes());
    add_rule(rules, "REQUEST", "\\{\"jsonrpc\":\"2.0\",\"id\":{NUMBER},\"method\":\"workspace/symbol\",\"params\":{WORKSPACE_SYMBOL_PARAMS}\\}".as_bytes());
    add_rule(rules, "REQUEST", "\\{\"jsonrpc\":\"2.0\",\"id\":{NUMBER},\"method\":\"textDocument/documentHighlight\",\"params\":{DOCUMENT_HIGHLIGHT_PARAMS}\\}".as_bytes());
    add_rule(rules, "REQUEST", "\\{\"jsonrpc\":\"2.0\",\"id\":{NUMBER},\"method\":\"textDocument/typeDefinition\",\"params\":{TYPE_DEFINITION_PARAMS}\\}".as_bytes());
    add_rule(rules, "REQUEST", "\\{\"jsonrpc\":\"2.0\",\"id\":{NUMBER},\"method\":\"textDocument/declaration\",\"params\":{DECLARATION_PARAMS}\\}".as_bytes());
    add_rule(rules, "REQUEST", "\\{\"jsonrpc\":\"2.0\",\"id\":{NUMBER},\"method\":\"textDocument/foldingRange\",\"params\":{FOLDING_RANGE_PARAMS}\\}".as_bytes());
    add_rule(rules, "REQUEST", "\\{\"jsonrpc\":\"2.0\",\"id\":{NUMBER},\"method\":\"textDocument/selectionRange\",\"params\":{SELECTION_RANGE_PARAMS}\\}".as_bytes());
    add_rule(rules, "REQUEST", "\\{\"jsonrpc\":\"2.0\",\"id\":{NUMBER},\"method\":\"textDocument/linkedEditingRange\",\"params\":{LINKED_EDITING_RANGE_PARAMS}\\}".as_bytes());
    add_rule(rules, "REQUEST", "\\{\"jsonrpc\":\"2.0\",\"id\":{NUMBER},\"method\":\"textDocument/prepareRename\",\"params\":{PREPARE_RENAME_PARAMS}\\}".as_bytes());
    add_rule(rules, "REQUEST", "\\{\"jsonrpc\":\"2.0\",\"id\":{NUMBER},\"method\":\"textDocument/codeLens\",\"params\":{CODE_LENS_PARAMS}\\}".as_bytes());
    add_rule(rules, "REQUEST", "\\{\"jsonrpc\":\"2.0\",\"id\":{NUMBER},\"method\":\"textDocument/documentColor\",\"params\":{DOCUMENT_COLOR_PARAMS}\\}".as_bytes());
    add_rule(rules, "REQUEST", "\\{\"jsonrpc\":\"2.0\",\"id\":{NUMBER},\"method\":\"textDocument/colorPresentation\",\"params\":{COLOR_PRESENTATION_PARAMS}\\}".as_bytes());
    add_rule(rules, "REQUEST", "\\{\"jsonrpc\":\"2.0\",\"id\":{NUMBER},\"method\":\"textDocument/prepareCallHierarchy\",\"params\":{PREPARE_CALL_HIERARCHY_PARAMS}\\}".as_bytes());
    add_rule(rules, "REQUEST", "\\{\"jsonrpc\":\"2.0\",\"id\":{NUMBER},\"method\":\"textDocument/semanticTokens/full\",\"params\":{SEMANTIC_TOKENS_PARAMS}\\}".as_bytes());
    add_rule(rules, "REQUEST", "\\{\"jsonrpc\":\"2.0\",\"id\":{NUMBER},\"method\":\"textDocument/moniker\",\"params\":{MONIKER_PARAMS}\\}".as_bytes());
}

fn add_rules_part_2(rules: &mut Vec<(&'static str, Vec<u8>)>)
    ensures
        rules_view(final(rules)@) == spec_rules_part_2(rules_view(old(rules)@)),
{
    proof {
        reveal(spec_rules_part_2);
    }
    add_rule(rules, "REQUEST", "\\{\"jsonrpc\":\"2.0\",\"id\":{NUMBER},\"method\":\"textDocument/inlineValue\",\"params\":{INLINE_VALUE_PARAMS}\\}".as_bytes());
    add_rule(rules, "REQUEST", "\\{\"jsonrpc\":\"2.0\",\"id\":{NUMBER},\"method\":\"workspace/willCreateFiles\",\"params\":{CREATE_FILES_PARAMS}\\}".as_bytes());
    add_rule(rules, "REQUEST", "\\{\"jsonrpc\":\"2.0\",\"id\":{NUMBER},\"method\":\"workspace/executeCommand\",\"params\":{EXECUTE_COMMAND_PARAMS}\\}".as_bytes());
    add_rule(rules, "REQUEST", "\\{\"jsonrpc\":\"2.0\",\"id\":{NUMBER},\"method\":\"textDocument/onTypeFormatting\",\"params\":{ON_TYPE_FORMATTING_PARAMS}\\}".as_bytes());
    add_rule(rules, "REQUEST", "\\{\"jsonrpc\":\"2.0\",\"id\":{NUMBER},\"method\":\"textDocument/documentLink\",\"params\":{DOCUMENT_LINK_PARAMS}\\}".as_bytes());
    add_rule(rules, "REQUEST", "\\{\"jsonrpc\":\"2.0\",\"id\":{NUMBER},\"method\":\"documentLink/resolve\",\"params\":{DOCUMENT_LINK}\\}".as_bytes());
    add_rule(rules, "REQUEST", "\\{\"jsonrpc\":\"2.0\",\"id\":{NUMBER},\"method\":\"codeLens/resolve\",\"params\":{CODE_LENS}\\}".as_bytes());
    add_rule(rules, "REQUEST", "\\{\"jsonrpc\":\"2.0\",\"id\":{NUMBER},\"method\":\"workspace/willRenameFiles\",\"params\":{RENAME_FILES_PARAMS}\\}".as_bytes());
    add_rule(rules, "REQUEST", "\\{\"jsonrpc\":\"2.0\",\"id\":{NUMBER},\"method\":\"workspace/willDeleteFiles\",\"params\":{DELETE_FILES_PARAMS}\\}".as_bytes());
    add_rule(rules, "REQUEST", "\\{\"jsonrpc\":\"2.0\",\"id\":{NUMBER},\"method\":\"callHierarchy/incomingCalls\",\"params\":{CALL_HIERARCHY_INCOMING_CALLS_PARAMS}\\}".as_bytes());
    add_rule(rules, "REQUEST", "\\{\"jsonrpc\":\"2.0\",\"id\":{NUMBER},\"method\":\"callHierarchy/outgoingCalls\",\"params\":{CALL_HIERARCHY_OUTGOING_CALLS_PARAMS}\\}".as_bytes());
    add_rule(rules, "REQUEST", "\\{\"jsonrpc\":\"2.0\",\"id\":{NUMBER},\"method\":\"textDocument/semanticTokens/range\",\"params\":{SEMANTIC_TOKENS_RANGE_PARAMS}\\}".as_bytes());
    add_rule(rules, "REQUEST", "\\{\"jsonrpc\":\"2.0\",\"id\":{NUMBER},\"method\":\"textDocument/semanticTokens/full/delta\",\"params\":{SEMANTIC_TOKENS_DELTA_PARAMS}\\}".as_bytes());
    add_rule(rules, "REQUEST", "\\{\"jsonrpc\":\"2.0\",\"id\":{NUMBER},\"method\":\"inlineCompletion/resolve\",\"params\":{INLINE_COMPLETION_ITEM}\\}".as_bytes());
    add_rule(rules, "REQUEST", "\\{\"jsonrpc\":\"2.0\",\"id\":{NUMBER},\"method\":\"textDocument/inlineCompletion\",\"params\":{INLINE_COMPLETION_PARAMS}\\}".as_bytes());
    add_rule(rules, "NOTIFICATION", "\\{\"jsonrpc\":\"2.0\",\"method\":\"initialized\",\"params\":{}\\}".as_bytes());
    add_rule(rules, "NOTIFICATION", "\\{\"jsonrpc\":\"2.0\",\"method\":\"exit\",\"params\":null\\}".as_bytes());
    add_rule(rules, "NOTIFICATION", "\\{\"jsonrpc\":\"2.0\",\"method\":\"textDocument/didOpen\",\"params\":{DID_OPEN_PARAMS}\\}".as_bytes());
    add_rule(rules, "NOTIFICATION", "\\{\"jsonrpc\":\"2.0\",\"method\":\"textDocument/didChange\",\"params\":{DID_CHANGE_PARAMS}\\}".as_bytes());
    add_rule(rules, "NOTIFICATION", "\\{\"jsonrpc\":\"2.0\",\"method\":\"textDocument/didSave\",\"params\":{DID_SAVE_PARAMS}\\}".as_bytes());
    add_rule(rules, "NOTIFICATION", "\\{\"jsonrpc\":\"2.0\",\"method\":\"textDocument/didClose\",\"params\":{TEXT_DOCUMENT_PARAMS}\\}".as_bytes());
    add_rule(rules, "NOTIFICATION", "\\{\"jsonrpc\":\"2.0\",\"method\":\"textDocument/willSave\",\"params\":{WILL_SAVE_PARAMS}\\}".as_bytes());
    add_rule(rules, "NOTIFICATION", "\\{\"jsonrpc\":\"2.0\",\"method\":\"workspace/didChangeConfiguration\",\"params\":{WORKSPACE_PARAMS}\\}".as_bytes());
    add_rule(rules, "NOTIFICATION", "\\{\"jsonrpc\":\"2.0\",\"method\":\"workspace/didChangeWatchedFiles\",\"params\":{DID_CHANGE_WATCHED_FILES_PARAMS}\\}".as_bytes());
    add_rule(rules, "NOTIFICATION", "\\{\"jsonrpc\":\"2.0\",\"method\":\"/cancelRequest\",\"params\":{CANCEL_PARAMS}\\}".as_bytes());
    add_rule(rules, "NOTIFICATION", "\\{\"jsonrpc\":\"2.0\",\"method\":\"$/progress\",\"params\":{PROGRESS_PARAMS}\\}".as_bytes());
    add_rule(rules, "NOTIFICATION", "\\{\"jsonrpc\":\"2.0\",\"method\":\"$/setTrace\",\"params\":{SET_TRACE_PARAMS}\\}".as_bytes());
    add_rule(rules, "NOTIFICATION", "\\{\"jsonrpc\":\"2.0\",\"method\":\"$/logTrace\",\"params\":{LOG_TRACE_PARAMS}\\}".as_bytes());
    add_rule(rules, "NOTIFICATION", "\\{\"jsonrpc\":\"2.0\",\"method\":\"workspace/didCreateFiles\",\"params\":{CREATE_FILES_PARAMS}\\}".as_bytes());
    add_rule(rules, "NOTIFICATION", "\\{\"jsonrpc\":\"2.0\",\"method\":\"workspace/didRenameFiles\",\"params\":{RENAME_FILES_PARAMS}\\}".as_bytes());
    add_rule(rules, "NOTIFICATION", "\\{\"jsonrpc\":\"2.0\",\"method\":\"workspace/didDeleteFiles\",\"params\":{DELETE_FILES_PARAMS}\\}".as_bytes());
    add_rule(rules, "NOTIFICATION", "\\{\"jsonrpc\":\"2.0\",\"method\":\"notebookDocument/didOpen\",\"params\":{NOTEBOOK_DOCUMENT_DID_OPEN_PARAMS}\\}".as_bytes());
    add_rule(rules, "NOTIFICATION", "\\{\"jsonrpc\":\"2.0\",\"method\":\"notebookDocument/didChange\",\"params\":{NOTEBOOK_DOCUMENT_DID_CHANGE_PARAMS}\\}".as_bytes());
    add_rule(rules, "NOTIFICATION", "\\{\"jsonrpc\":\"2.0\",\"method\":\"notebookDocument/didSave\",\"params\":{NOTEBOOK_DOCUMENT_DID_SAVE_PARAMS}\\}".as_bytes());
    add_rule(rules, "NOTIFICATION", "\\{\"jsonrpc\":\"2.0\",\"method\":\"notebookDocument/didClose\",\"params\":{NOTEBOOK_DOCUMENT_DID_CLOSE_PARAMS}\\}".as_bytes());
    add_rule(rules, "TEXT_DOCUMENT_ITEM", "\\{\"uri\":\"{URI}\",\"languageId\":\"{LANGUAGE_ID}\",\"version\":{NUMBER},\"text\":\"{TEXT}\"\\}".as_bytes());
    add_rule(rules, "URI", "file:///{STRING_CONTENT}".as_bytes());
    add_rule(rules, "LANGUAGE_ID", "rust".as_bytes());
    add_rule(rules, "LANGUAGE_ID", "python".as_bytes());
    add_rule(rules, "LANGUAGE_ID", "javascript".as_bytes());
}

fn add_rules_part_3(rules: &mut Vec<(&'static str, Vec<u8>)>)
    ensures
        rules_view(final(rules)@) == spec_rules_part_3(rules_view(old(rules)@)),
{
    proof {
        reveal(spec_rules_part_3);
    }
    add_rule(rules, "LANGUAGE_ID", "typescript".as_bytes());
    add_rule(rules, "LANGUAGE_ID", "c".as_bytes());
    add_rule(rules, "LANGUAGE_ID", "cpp".as_bytes());
    add_rule(rules, "TEXT", "{STRING_CONTENT}".as_bytes());
    add_rule(rules, "INITIALIZE_PARAMS", "\\{\"processId\":{NUMBER},\"rootUri\":\"file:///path/to/workspace\",\"capabilities\":{CLIENT_CAPABILITIES}\\}".as_bytes());
    add_rule(rules, "CLIENT_CAPABILITIES", "\\{\"workspace\":{WORKSPACE_CAPABILITY},\"textDocument\":{TEXT_DOCUMENT_CAPABILITY},\"window\":{WINDOW_CAPABILITY},\"general\":{GENERAL_CAPABILITY}\\}".as_bytes());
    add_rule(rules, "WORKSPACE_CAPABILITY", "\\{\"applyEdit\":true,\"workspaceEdit\":{WORKSPACE_EDIT_CAPABILITY},\"didChangeConfiguration\":{DYNAMIC_REGISTRATION},\"didChangeWatchedFiles\":{DYNAMIC_REGISTRATION},\"symbol\":{SYMBOL_CAPABILITY},\"executeCommand\":{DYNAMIC_REGISTRATION},\"workspaceFolders\":true,\"configuration\":true\\}".as_bytes());
    add_rule(rules, "WORKSPACE_EDIT_CAPABILITY", "\\{\"documentChanges\":true\\}".as_bytes());
    add_rule(rules, "TEXT_DOCUMENT_CAPABILITY", "\\{\"synchronization\":{SYNC_CAPABILITY},\"completion\":{COMPLETION_CAPABILITY},\"hover\":{HOVER_CAPABILITY},\"signatureHelp\":{SIGNATURE_HELP_CAPABILITY},\"declaration\":{DECLARATION_CAPABILITY},\"definition\":{DEFINITION_CAPABILITY},\"typeDefinition\":{TYPE_DEFINITION_CAPABILITY},\"implementation\":{IMPLEMENTATION_CAPABILITY},\"references\":{REFERENCES_CAPABILITY},\"documentHighlight\":{DOCUMENT_HIGHLIGHT_CAPABILITY},\"documentSymbol\":{DOCUMENT_SYMBOL_CAPABILITY},\"codeAction\":{CODE_ACTION_CAPABILITY},\"codeLens\":{CODE_LENS_CAPABILITY},\"formatting\":{FORMATTING_CAPABILITY},\"rangeFormatting\":{RANGE_FORMATTING_CAPABILITY},\"onTypeFormatting\":{ON_TYPE_FORMATTING_CAPABILITY},\"rename\":{RENAME_CAPABILITY},\"publishDiagnostics\":{PUBLISH_DIAGNOSTICS_CAPABILITY},\"foldingRange\":{FOLDING_RANGE_CAPABILITY},\"selectionRange\":{SELECTION_RANGE_CAPABILITY},\"linkedEditingRange\":{LINKED_EDITING_RANGE_CAPABILITY},\"callHierarchy\":{CALL_HIERARCHY_CAPABILITY},\"semanticTokens\":{SEMANTIC_TOKENS_CAPABILITY},\"moniker\":{MONIKER_CAPABILITY},\"inlayHint\":{INLAY_HINT_CAPABILITY}\\}".as_bytes());
    add_rule(rules, "SYNC_CAPABILITY", "\\{\"dynamicRegistration\":true,\"willSave\":true,\"willSaveWaitUntil\":true,\"didSave\":true\\}".as_bytes());
    add_rule(rules, "COMPLETION_CAPABILITY", "\\{\"dynamicRegistration\":true,\"completionItem\":{COMPLETION_ITEM_CAPABILITY}\\}".as_bytes());
    add_rule(rules, "COMPLETION_ITEM_CAPABILITY", "\\{\"snippetSupport\":true,\"commitCharactersSupport\":true\\}".as_bytes());
    add_rule(rules, "TEXT_DOCUMENT_PARAMS", "\\{\"textDocument\":{TEXT_DOCUMENT_IDENTIFIER}\\}".as_bytes());
    add_rule(rules, "VERSIONED_TEXT_DOCUMENT_IDENTIFIER", "\\{\"uri\":\"{URI}\",\"version\":{NUMBER}\\}".as_bytes());
    add_rule(rules, "OPTIONAL_VERSIONED_TEXT_DOCUMENT_IDENTIFIER", "\\{\"uri\":\"{URI}\",\"version\":{NUMBER}\\}".as_bytes());
    add_rule(rules, "OPTIONAL_VERSIONED_TEXT_DOCUMENT_IDENTIFIER", "\\{\"uri\":\"{URI}\",\"version\":null\\}".as_bytes());
    add_rule(rules, "TEXT_DOCUMENT_IDENTIFIER", "\\{\"uri\":\"{URI}\",\"version\":{NUMBER}\\}".as_bytes());
    add_rule(rules, "POSITION", "\\{\"line\":{NUMBER},\"character\":{NUMBER}\\}".as_bytes());
    add_rule(rules, "TEXT_DOCUMENT_POSITION_PARAMS", "\\{\"textDocument\":{TEXT_DOCUMENT_IDENTIFIER},\"position\":{POSITION}\\}".as_bytes());
    add_rule(rules, "RANGE", "\\{\"start\":{POSITION},\"end\":{POSITION}\\}".as_bytes());
    add_rule(rules, "COMPLETION_PARAMS", "{TEXT_DOCUMENT_POSITION_PARAMS}".as_bytes());
    add_rule(rules, "COMPLETION_PARAMS", "\\{\"textDocument\":{TEXT_DOCUMENT_IDENTIFIER},\"position\":{POSITION},\"context\":{COMPLETION_CONTEXT}\\}".as_bytes());
    add_rule(rules, "COMPLETION_CONTEXT", "\\{\"triggerKind\":{NUMBER},\"triggerCharacter\":\"{CHAR}\"\\}".as_bytes());
    add_rule(rules, "COMPLETION_ITEM", "\\{\"label\":\"{STRING_CONTENT}\",\"kind\":{NUMBER},\"detail\":\"{STRING_CONTENT}\",\"documentation\":\"{STRING_CONTENT}\",\"deprecated\":false,\"preselect\":false,\"sortText\":\"{STRING_CONTENT}\",\"filterText\":\"{STRING_CONTENT}\",\"insertText\":\"{STRING_CONTENT}\",\"insertTextFormat\":{NUMBER},\"textEdit\":{TEXT_EDIT},\"additionalTextEdits\":[{TEXT_EDIT}],\"commitCharacters\":[\"{CHAR}\"],\"command\":{COMMAND},\"data\":{JSON_VALUE}\\}".as_bytes());
    add_rule(rules, "TEXT_EDIT", "\\{\"range\":{RANGE},\"newText\":\"{STRING_CONTENT}\"\\}".as_bytes());
    add_rule(rules, "HOVER_PARAMS", "{TEXT_DOCUMENT_POSITION_PARAMS}".as_bytes());
    add_rule(rules, "HOVER", "\\{\"contents\":{MARKUP_CONTENT},\"range\":{RANGE}\\}".as_bytes());
    add_rule(rules, "MARKUP_CONTENT", "\\{\"kind\":\"markdown\",\"value\":\"{STRING_CONTENT}\"\\}".as_bytes());
    add_rule(rules, "MARKUP_CONTENT", "\\{\"kind\":\"plaintext\",\"value\":\"{STRING_CONTENT}\"\\}".as_bytes());
    add_rule(rules, "SIGNATURE_HELP_PARAMS", "{TEXT_DOCUMENT_POSITION_PARAMS}".as_bytes());
    add_rule(rules, "SIGNATURE_HELP_CONTEXT", "\\{\"isRetrigger\":true,\"triggerCharacter\":\"{CHAR}\",\"activeSignatureHelp\":{SIGNATURE_HELP}\\}".as_bytes());
    add_rule(rules, "SIGNATURE_HELP", "\\{\"signatures\":[{SIGNATURE_INFORMATION}],\"activeSignature\":{NUMBER},\"activeParameter\":{NUMBER}\\}".as_bytes());
    add_rule(rules, "SIGNATURE_INFORMATION", "\\{\"label\":\"{STRING_CONTENT}\",\"documentation\":\"{STRING_CONTENT}\",\"parameters\":[{PARAMETER_INFORMATION}]\\}".as_bytes());
    add_rule(rules, "PARAMETER_INFORMATION", "\\{\"label\":\"{STRING_CONTENT}\",\"documentation\":\"{STRING_CONTENT}\"\\}".as_bytes());
    add_rule(rules, "DEFINITION_PARAMS", "{TEXT_DOCUMENT_POSITION_PARAMS}".as_bytes());
    add_rule(rules, "LOCATION", "\\{\"uri\":\"{URI}\",\"range\":{RANGE}\\}".as_bytes());
    add_rule(rules, "LOCATION_LINK", "\\{\"originSelectionRange\":{RANGE},\"targetUri\":\"{URI}\",\"targetRange\":{RANGE},\"targetSelectionRange\":{RANGE}\\}".as_bytes());
    add_rule(rules, "REFERENCE_PARAMS", "\\{\"textDocument\":{TEXT_DOCUMENT_IDENTIFIER},\"position\":{POSITION},\"context\":{REFERENCE_CONTEXT}\\}".as_bytes());
    add_rule(rules, "REFERENCE_CONTEXT", "\\{\"includeDeclaration\":true\\}".as_bytes());
    add_rule(rules, "DOCUMENT_SYMBOL_PARAMS", "{TEXT_DOCUMENT_PARAMS}".as_bytes());
}

fn add_rules_part_4(rules: &mut Vec<(&'static str, Vec<u8>)>)
    ensures
        rules_view(final(rules)@) == spec_rules_part_4(rules_view(old(rules)@)),
{
    proof {
        reveal(spec_rules_part_4);
    }
    add_rule(rules, "CODE_ACTION_PARAMS", "\\{\"textDocument\":{TEXT_DOCUMENT_IDENTIFIER},\"range\":{RANGE},\"context\":{CODE_ACTION_CONTEXT}\\}".as_bytes());
    add_rule(rules, "CODE_ACTION_CONTEXT", "\\{\"diagnostics\":[{DIAGNOSTIC}]\\}".as_bytes());
    add_rule(rules, "DIAGNOSTIC", "\\{\"range\":{RANGE},\"severity\":{NUMBER},\"code\":{NUMBER},\"source\":\"{STRING_CONTENT}\",\"message\":\"{STRING_CONTENT}\",\"tags\":[{NUMBER}],\"relatedInformation\":[{DIAGNOSTIC_RELATED_INFORMATION}]\\}".as_bytes());
    add_rule(rules, "DIAGNOSTIC_RELATED_INFORMATION", "\\{\"location\":{LOCATION},\"message\":\"{STRING_CONTENT}\"\\}".as_bytes());
    add_rule(rules, "FORMATTING_PARAMS", "\\{\"textDocument\":{TEXT_DOCUMENT_IDENTIFIER},\"options\":{FORMATTING_OPTIONS}\\}".as_bytes());
    add_rule(rules, "FORMATTING_OPTIONS", "\\{\"tabSize\":{NUMBER},\"insertSpaces\":true\\}".as_bytes());
    add_rule(rules, "RANGE_FORMATTING_PARAMS", "\\{\"textDocument\":{TEXT_DOCUMENT_IDENTIFIER},\"range\":{RANGE},\"options\":{FORMATTING_OPTIONS}\\}".as_bytes());
    add_rule(rules, "RENAME_PARAMS", "\\{\"textDocument\":{TEXT_DOCUMENT_IDENTIFIER},\"position\":{POSITION},\"newName\":\"{STRING_CONTENT}\"\\}".as_bytes());
    add_rule(rules, "PREPARE_RENAME_PARAMS", "{TEXT_DOCUMENT_POSITION_PARAMS}".as_bytes());
    add_rule(rules, "IMPLEMENTATION_PARAMS", "{TEXT_DOCUMENT_POSITION_PARAMS}".as_bytes());
    add_rule(rules, "TYPE_DEFINITION_PARAMS", "{TEXT_DOCUMENT_POSITION_PARAMS}".as_bytes());
    add_rule(rules, "DECLARATION_PARAMS", "{TEXT_DOCUMENT_POSITION_PARAMS}".as_bytes());
    add_rule(rules, "DOCUMENT_HIGHLIGHT_PARAMS", "{TEXT_DOCUMENT_POSITION_PARAMS}".as_bytes());
    add_rule(rules, "FOLDING_RANGE_PARAMS", "{TEXT_DOCUMENT_PARAMS}".as_bytes());
    add_rule(rules, "SELECTION_RANGE_PARAMS", "\\{\"textDocument\":{TEXT_DOCUMENT_IDENTIFIER},\"positions\":[{POSITION}]\\}".as_bytes());
    add_rule(rules, "LINKED_EDITING_RANGE_PARAMS", "{TEXT_DOCUMENT_POSITION_PARAMS}".as_bytes());
    add_rule(rules, "CODE_LENS_PARAMS", "{TEXT_DOCUMENT_PARAMS}".as_bytes());
    add_rule(rules, "DOCUMENT_COLOR_PARAMS", "{TEXT_DOCUMENT_PARAMS}".as_bytes());
    add_rule(rules, "COLOR_PRESENTATION_PARAMS", "\\{\"textDocument\":{TEXT_DOCUMENT_IDENTIFIER},\"color\":{COLOR},\"range\":{RANGE}\\}".as_bytes());
    add_rule(rules, "COLOR", "\\{\"red\":{NUMBER},\"green\":{NUMBER},\"blue\":{NUMBER},\"alpha\":{NUMBER}\\}".as_bytes());
    add_rule(rules, "PREPARE_CALL_HIERARCHY_PARAMS", "{TEXT_DOCUMENT_POSITION_PARAMS}".as_bytes());
    add_rule(rules, "SEMANTIC_TOKENS_PARAMS", "{TEXT_DOCUMENT_PARAMS}".as_bytes());
    add_rule(rules, "MONIKER_PARAMS", "{TEXT_DOCUMENT_POSITION_PARAMS}".as_bytes());
    add_rule(rules, "MONIKER", "\\{\"scheme\":\"{STRING_CONTENT}\",\"identifier\":\"{STRING_CONTENT}\",\"unique\":{NUMBER},\"kind\":{NUMBER}\\}".as_bytes());
    add_rule(rules, "INLINE_VALUE_PARAMS", "\\{\"textDocument\":{TEXT_DOCUMENT_IDENTIFIER},\"range\":{RANGE}\\}".as_bytes());
    add_rule(rules, "CREATE_FILES_PARAMS", "\\{\"files\":[{FILE_CREATE}]\\}".as_bytes());
    add_rule(rules, "FILE_CREATE", "\\{\"uri\":\"{URI}\"\\}".as_bytes());
    add_rule(rules, "EXECUTE_COMMAND_PARAMS", "\\{\"command\":\"{STRING_CONTENT}\",\"arguments\":[{JSON_VALUE}]\\}".as_bytes());
    add_number_rules(rules, "SYMBOL_KIND", 1, 26);
    add_number_rules(rules, "COMPLETION_ITEM_KIND", 1, 25);
    add_number_rules(rules, "TEXT_DOCUMENT_SYNC_KIND", 0, 2);
    add_number_rules(rules, "DIAGNOSTIC_SEVERITY", 1, 4);
    add_number_rules(rules, "INSERT_TEXT_FORMAT", 1, 2);
    add_number_rules(rules, "DOCUMENT_HIGHLIGHT_KIND", 1, 3);
    add_rule(rules, "CODE_ACTION_KIND", "\"quickfix\"".as_bytes());
    add_rule(rules, "CODE_ACTION_KIND", "\"refactor\"".as_bytes());
    add_rule(rules, "CODE_ACTION_KIND", "\"refactor.extract\"".as_bytes());
    add_rule(rules, "CODE_ACTION_KIND", "\"refactor.inline\"".as_bytes());
    add_rule(rules, "CODE_ACTION_KIND", "\"refactor.rewrite\"".as_bytes());
    add_rule(rules, "CODE_ACTION_KIND", "\"source\"".as_bytes());
}

fn add_rules_part_5(rules: &mut Vec<(&'static str, Vec<u8>)>)
    ensures
        rules_view(final(rules)@) == spec_rules_part_5(rules_view(old(rules)@)),
{
    proof {
        reveal(spec_rules_part_5);
    }
    add_rule(rules, "CODE_ACTION_KIND", "\"source.organizeImports\"".as_bytes());
    add_rule(rules, "CODE_ACTION_KIND", "\"source.fixAll\"".as_bytes());
    add_rule(rules, "MARKUP_KIND", "\"plaintext\"".as_bytes());
    add_rule(rules, "MARKUP_KIND", "\"markdown\"".as_bytes());
    add_rule(rules, "TEXT_DOCUMENT_REGISTRATION_OPTIONS", "\\{\"documentSelector\":[{DOCUMENT_FILTER}]\\}".as_bytes());
    add_rule(rules, "DOCUMENT_FILTER", "\\{\"language\":\"{LANGUAGE_ID}\",\"scheme\":\"{URI_SCHEME}\",\"pattern\":\"**/*.{FILE_EXT}\"\\}".as_bytes());
    add_rule(rules, "URI_SCHEME", "file".as_bytes());
    add_rule(rules, "URI_SCHEME", "untitled".as_bytes());
    add_rule(rules, "URI_SCHEME", "git".as_bytes());
    add_rule(rules, "STATIC_REGISTRATION_OPTIONS", "\\{\"id\":\"{STRING_CONTENT}\"\\}".as_bytes());
    add_rule(rules, "WORK_DONE_PROGRESS_OPTIONS", "\\{\"workDoneProgress\":true\\}".as_bytes());
    add_rule(rules, "WORK_DONE_PROGRESS_OPTIONS", "\\{\"workDoneProgress\":false\\}".as_bytes());
    add_rule(rules, "CODE_ACTION_REGISTRATION_OPTIONS", "\\{\"documentSelector\":[{DOCUMENT_FILTER}],\"codeActionKinds\":[{CODE_ACTION_KIND}]\\}".as_bytes());
    add_rule(rules, "COMPLETION_REGISTRATION_OPTIONS", "\\{\"documentSelector\":[{DOCUMENT_FILTER}],\"triggerCharacters\":[\".\",[\":\"],[\"/\"]],\"allCommitCharacters\":[\".\",[\":\"],[\"/\"]],\"resolveProvider\":true\\}".as_bytes());
    add_rule(rules, "SIGNATURE_HELP_REGISTRATION_OPTIONS", "\\{\"documentSelector\":[{DOCUMENT_FILTER}],\"triggerCharacters\":[\".\",[\":\"],[\"/\"]],\"retriggerCharacters\":[\".\",[\":\"],[\"/\"]]\\}".as_bytes());
    add_rule(rules, "DID_OPEN_PARAMS", "\\{\"textDocument\":{TEXT_DOCUMENT_ITEM}\\}".as_bytes());
    add_rule(rules, "DID_CHANGE_PARAMS", "\\{\"textDocument\":{TEXT_DOCUMENT_IDENTIFIER},\"contentChanges\":[{TEXT_DOCUMENT_CONTENT_CHANGE_EVENT}]\\}".as_bytes());
    add_rule(rules, "TEXT_DOCUMENT_CONTENT_CHANGE_EVENT", "\\{\"text\":\"{TEXT}\"\\}".as_bytes());
    add_rule(rules, "DID_SAVE_PARAMS", "\\{\"textDocument\":{TEXT_DOCUMENT_IDENTIFIER},\"text\":\"{TEXT}\"\\}".as_bytes());
    add_rule(rules, "WILL_SAVE_PARAMS", "\\{\"textDocument\":{TEXT_DOCUMENT_IDENTIFIER},\"reason\":{NUMBER}\\}".as_bytes());
    add_rule(rules, "WORKSPACE_PARAMS", "\\{\"settings\":{JSON_OBJECT}\\}".as_bytes());
    add_rule(rules, "DID_CHANGE_WATCHED_FILES_PARAMS", "\\{\"changes\":[{FILE_EVENT}]\\}".as_bytes());
    add_rule(rules, "FILE_EVENT", "\\{\"uri\":\"{URI}\",\"type\":{NUMBER}\\}".as_bytes());
    add_rule(rules, "CANCEL_PARAMS", "\\{\"id\":{NUMBER}\\}".as_bytes());
    add_rule(rules, "WORKSPACE_SYMBOL_PARAMS", "\\{\"query\":\"{STRING_CONTENT}\"\\}".as_bytes());
    add_rule(rules, "ON_TYPE_FORMATTING_PARAMS", "\\{\"textDocument\":{TEXT_DOCUMENT_IDENTIFIER},\"position\":{POSITION},\"ch\":\"{CHAR}\",\"options\":{FORMATTING_OPTIONS}\\}".as_bytes());
    add_rule(rules, "DOCUMENT_LINK_PARAMS", "{TEXT_DOCUMENT_PARAMS}".as_bytes());
    add_rule(rules, "DOCUMENT_LINK", "\\{\"range\":{RANGE},\"target\":\"{URI}\",\"tooltip\":\"{STRING_CONTENT}\",\"data\":{JSON_VALUE}\\}".as_bytes());
    add_rule(rules, "CODE_LENS", "\\{\"range\":{RANGE},\"command\":{COMMAND},\"data\":{JSON_VALUE}\\}".as_bytes());
    add_rule(rules, "COMMAND", "\\{\"title\":\"{STRING_CONTENT}\",\"command\":\"{STRING_CONTENT}\",\"arguments\":[{JSON_VALUE}]\\}".as_bytes());
    add_rule(rules, "RENAME_FILES_PARAMS", "\\{\"files\":[{FILE_RENAME}]\\}".as_bytes());
    add_rule(rules, "FILE_RENAME", "\\{\"oldUri\":\"{URI}\",\"newUri\":\"{URI}\"\\}".as_bytes());
    add_rule(rules, "DELETE_FILES_PARAMS", "\\{\"files\":[{FILE_DELETE}]\\}".as_bytes());
    add_rule(rules, "FILE_DELETE", "\\{\"uri\":\"{URI}\"\\}".as_bytes());
    add_rule(rules, "CALL_HIERARCHY_ITEM", "\\{\"name\":\"{STRING_CONTENT}\",\"kind\":{NUMBER},\"uri\":\"{URI}\",\"range\":{RANGE},\"selectionRange\":{RANGE},\"data\":{JSON_VALUE}\\}".as_bytes());
    add_rule(rules, "CALL_HIERARCHY_INCOMING_CALLS_PARAMS", "\\{\"item\":{CALL_HIERARCHY_ITEM}\\}".as_bytes());
    add_rule(rules, "CALL_HIERARCHY_OUTGOING_CALLS_PARAMS", "\\{\"item\":{CALL_HIERARCHY_ITEM}\\}".as_bytes());
    add_rule(rules, "CALL_HIERARCHY_INCOMING_CALL", "\\{\"from\":{CALL_HIERARCHY_ITEM},\"fromRanges\":[{RANGE}]\\}".as_bytes());
    add_rule(rules, "CALL_HIERARCHY_OUTGOING_CALL", "\\{\"to\":{CALL_HIERARCHY_ITEM},\"fromRanges\":[{RANGE}]\\}".as_bytes());
    add_rule(rules, "SEMANTIC_TOKENS_RANGE_PARAMS", "\\{\"textDocument\":{TEXT_DOCUMENT_IDENTIFIER},\"range\":{RANGE}\\}".as_bytes());
}

fn add_rules_part_6(rules: &mut Vec<(&'static str, Vec<u8>)>)
    ensures
        rules_view(final(rules)@) == spec_rules_part_6(rules_view(old(rules)@)),
{
    proof {
        reveal(spec_rules_part_6);
    }
    add_rule(rules, "SEMANTIC_TOKENS_DELTA_PARAMS", "\\{\"textDocument\":{TEXT_DOCUMENT_IDENTIFIER},\"previousResultId\":\"{STRING_CONTENT}\"\\}".as_bytes());
    add_rule(rules, "SEMANTIC_TOKENS", "\\{\"resultId\":\"{STRING_CONTENT}\",\"data\":[{NUMBER}]\\}".as_bytes());
    add_rule(rules, "INLINE_COMPLETION_PARAMS", "{TEXT_DOCUMENT_POSITION_PARAMS}".as_bytes());
    add_rule(rules, "INLINE_COMPLETION_ITEM", "\\{\"insertText\":\"{STRING_CONTENT}\",\"range\":{RANGE}\\}".as_bytes());
    add_rule(rules, "PROGRESS_PARAMS", "\\{\"token\":{JSON_VALUE},\"value\":{JSON_OBJECT}\\}".as_bytes());
    add_rule(rules, "SET_TRACE_PARAMS", "\\{\"value\":\"{STRING_CONTENT}\"\\}".as_bytes());
    add_rule(rules, "LOG_TRACE_PARAMS", "\\{\"message\":\"{STRING_CONTENT}\",\"verbose\":\"{STRING_CONTENT}\"\\}".as_bytes());
    add_rule(rules, "REQUEST", "\\{\"jsonrpc\":\"2.0\",\"id\":{NUMBER},\"method\":\"workspace/workspaceFolders\",\"params\":null\\}".as_bytes());
    add_rule(rules, "REQUEST", "\\{\"jsonrpc\":\"2.0\",\"id\":{NUMBER},\"method\":\"workspace/configuration\",\"params\":{CONFIGURATION_PARAMS}\\}".as_bytes());
    add_rule(rules, "NOTIFICATION", "\\{\"jsonrpc\":\"2.0\",\"method\":\"workspace/didChangeWorkspaceFolders\",\"params\":{WORKSPACE_FOLDERS_CHANGE_EVENT}\\}".as_bytes());
    add_rule(rules, "REQUEST", "\\{\"jsonrpc\":\"2.0\",\"id\":{NUMBER},\"method\":\"textDocument/inlayHint\",\"params\":{INLAY_HINT_PARAMS}\\}".as_bytes());
    add_rule(rules, "CONFIGURATION_PARAMS", "\\{\"items\":[{CONFIGURATION_ITEM}]\\}".as_bytes());
    add_rule(rules, "CONFIGURATION_ITEM", "\\{\"scopeUri\":\"{URI}\",\"section\":\"{STRING_CONTENT}\"\\}".as_bytes());
    add_rule(rules, "WORKSPACE_FOLDERS_CHANGE_EVENT", "\\{\"added\":[{WORKSPACE_FOLDER}],\"removed\":[{WORKSPACE_FOLDER}]\\}".as_bytes());
    add_rule(rules, "WORKSPACE_FOLDER", "\\{\"uri\":\"{URI}\",\"name\":\"{STRING_CONTENT}\"\\}".as_bytes());
    add_rule(rules, "INLAY_HINT_PARAMS", "{TEXT_DOCUMENT_POSITION_PARAMS}".as_bytes());
    add_rule(rules, "NOTEBOOK_DOCUMENT_DID_OPEN_PARAMS", "\\{\"notebookDocument\":{NOTEBOOK_DOCUMENT},\"cellTextDocuments\":[{TEXT_DOCUMENT_ITEM}]\\}".as_bytes());
    add_rule(rules, "NOTEBOOK_DOCUMENT_DID_CHANGE_PARAMS", "\\{\"notebookDocument\":{NOTEBOOK_DOCUMENT_IDENTIFIER},\"change\":{NOTEBOOK_DOCUMENT_CHANGE_EVENT}\\}".as_bytes());
    add_rule(rules, "NOTEBOOK_DOCUMENT_DID_SAVE_PARAMS", "\\{\"notebookDocument\":{NOTEBOOK_DOCUMENT_IDENTIFIER}\\}".as_bytes());
    add_rule(rules, "NOTEBOOK_DOCUMENT_DID_CLOSE_PARAMS", "\\{\"notebookDocument\":{NOTEBOOK_DOCUMENT_IDENTIFIER},\"cellTextDocuments\":[{TEXT_DOCUMENT_IDENTIFIER}]\\}".as_bytes());
    add_rule(rules, "NOTEBOOK_DOCUMENT", "\\{\"uri\":\"{URI}\",\"notebookType\":\"{STRING_CONTENT}\",\"version\":{NUMBER},\"cells\":[{NOTEBOOK_CELL}]\\}".as_bytes());
    add_rule(rules, "NOTEBOOK_DOCUMENT_IDENTIFIER", "\\{\"uri\":\"{URI}\",\"version\":{NUMBER}\\}".as_bytes());
    add_rule(rules, "NOTEBOOK_DOCUMENT_CHANGE_EVENT", "\\{\"cells\":{CELLS_CHANGE_EVENT}\\}".as_bytes());
    add_rule(rules, "CELLS_CHANGE_EVENT", "\\{\"structure\":{CELLS_STRUCTURE_CHANGE_EVENT},\"data\":[{NOTEBOOK_CELL}],\"textContent\":[{CELL_TEXT_CONTENT_CHANGE_EVENT}]\\}".as_bytes());
    add_rule(rules, "CELLS_STRUCTURE_CHANGE_EVENT", "\\{\"array\":{ARRAY_CHANGE_EVENT},\"didOpen\":[{TEXT_DOCUMENT_ITEM}],\"didClose\":[{TEXT_DOCUMENT_IDENTIFIER}]\\}".as_bytes());
    add_rule(rules, "ARRAY_CHANGE_EVENT", "\\{\"start\":{NUMBER},\"deleteCount\":{NUMBER},\"cells\":[{NOTEBOOK_CELL}]\\}".as_bytes());
    add_rule(rules, "CELL_TEXT_CONTENT_CHANGE_EVENT", "\\{\"document\":{TEXT_DOCUMENT_IDENTIFIER},\"changes\":[{TEXT_DOCUMENT_CONTENT_CHANGE_EVENT}]\\}".as_bytes());
    add_rule(rules, "NOTEBOOK_CELL", "\\{\"kind\":{NUMBER},\"document\":\"{URI}\"\\}".as_bytes());
}

proof fn lemma_rules_part_0_len(acc: Seq<RuleView>)
    ensures
        spec_rules_part_0(acc).len() == acc.len() + 99,
{
    reveal(spec_rules_part_0);
}

proof fn lemma_rules_part_1_len(acc: Seq<RuleView>)
    ensures
        spec_rules_part_1(acc).len() == acc.len() + 40,
{
    reveal(spec_rules_part_1);
}

proof fn lemma_rules_part_2_len(acc: Seq<RuleView>)
    ensures
        spec_rules_part_2(acc).len() == acc.len() + 40,
{
    reveal(spec_rules_part_2);
}

proof fn lemma_rules_part_3_len(acc: Seq<RuleView>)
    ensures
        spec_rules_part_3(acc).len() == acc.len() + 40,
{
    reveal(spec_rules_part_3);
}

proof fn lemma_rules_part_4_len(acc: Seq<RuleView>)
    ensures
        spec_rules_part_4(acc).len() == acc.len() + 97,
{
    reveal(spec_rules_part_4);
}

proof fn lemma_rules_part_5_len(acc: Seq<RuleView>)
    ensures
        spec_rules_part_5(acc).len() == acc.len() + 40,
{
    reveal(spec_rules_part_5);
}

proof fn lemma_rules_part_6_len(acc: Seq<RuleView>)
    ensures
        spec_rules_part_6(acc).len() == acc.len() + 28,
{
    reveal(spec_rules_part_6);
}

/// There are 384 rules.
pub proof fn lemma_grammar_rules_len()
    ensures
        spec_grammar_rules().len() == 384,
{
    let p0 = spec_rules_part_0(Seq::empty());
    lemma_rules_part_0_len(Seq::empty());
    lemma_rules_part_1_len(p0);
    let p1 = spec_rules_part_1(p0);
    lemma_rules_part_2_len(p1);
    let p2 = spec_rules_part_2(p1);
    lemma_rules_part_3_len(p2);
    let p3 = spec_rules_part_3(p2);
    lemma_rules_part_4_len(p3);
    let p4 = spec_rules_part_4(p3);
    lemma_rules_part_5_len(p4);
    let p5 = spec_rules_part_5(p4);
    lemma_rules_part_6_len(p5);
}

/// The production rules of the LSP message grammar, in the order they are
/// added to a nautilus context.
pub fn get_grammar_rules() -> (r: Vec<(&'static str, Vec<u8>)>)
    ensures
        rules_view(r@) == spec_grammar_rules(),
        r@.len() == 384,
{
    let mut rules: Vec<(&'static str, Vec<u8>)> = Vec::new();
    assert(rules_view(rules@) =~= Seq::<RuleView>::empty());
    add_rules_part_0(&mut rules);
    add_rules_part_1(&mut rules);
    add_rules_part_2(&mut rules);
    add_rules_part_3(&mut rules);
    add_rules_part_4(&mut rules);
    add_rules_part_5(&mut rules);
    add_rules_part_6(&mut rules);
    proof {
        lemma_grammar_rules_len();
    }
    rules
}

// ---------------------------------------------------------------------------
// The digit rules
// ---------------------------------------------------------------------------

/// From index `from` on, every rule named `DIGIT` has a one-byte format that
/// is an ASCII decimal digit.
pub open spec fn digit_formats_from(rules: Seq<RuleView>, from: int) -> bool {
    forall|i: int|
        0 <= i && from <= i < rules.len() && (#[trigger] rules[i]).0@ == "DIGIT"@ ==> rules[i].1.len() == 1 && 48
            <= rules[i].1[0] <= 57
}

broadcast proof fn lemma_digit_formats_push(s: Seq<RuleView>, r: RuleView, from: int)
    requires
        digit_formats_from(s, from),
        r.0@ == "DIGIT"@ ==> r.1.len() == 1 && 48 <= r.1[0] <= 57,
    ensures
        #[trigger] digit_formats_from(s.push(r), from),
{
    assert forall|i: int| 0 <= i && from <= i < s.push(r).len() && (#[trigger] s.push(r)[i]).0@ == "DIGIT"@ implies s.push(
        r,
    )[i].1.len() == 1 && 48 <= s.push(r)[i].1[0] <= 57 by {
        if i < s.len() {
            assert(s.push(r)[i] == s[i]);
        } else {
            assert(s.push(r)[i] == r);
        }
    }
}

broadcast proof fn lemma_digit_formats_concat(s: Seq<RuleView>, t: Seq<RuleView>, from: int)
    requires
        digit_formats_from(s, from),
        digit_formats_from(t, 0),
    ensures
        #[trigger] digit_formats_from(s + t, from),
{
    assert forall|i: int| 0 <= i && from <= i < (s + t).len() && (#[trigger] (s + t)[i]).0@ == "DIGIT"@ implies (s
        + t)[i].1.len() == 1 && 48 <= (s + t)[i].1[0] <= 57 by {
        if i < s.len() {
            assert((s + t)[i] == s[i]);
        } else {
            assert((s + t)[i] == t[i - s.len()]);
        }
    }
}

proof fn lemma_named_rules_not_digit(nt: &'static str, first: u64, last: u64, a: u8, b: u8)
    requires
        nt@ != "DIGIT"@,
    ensures
        digit_formats_from(spec_number_rules(nt, first, last), 0),
        digit_formats_from(spec_letter_rules(a, b), 0),
{
    reveal_strlit("CHAR");
    reveal_strlit("DIGIT");
    assert("CHAR"@.len() == 4 && "DIGIT"@.len() == 5);
    assert forall|i: int| 0 <= i < spec_letter_rules(a, b).len() implies (#[trigger] spec_letter_rules(a, b)[i]).0@
        != "DIGIT"@ by {
        assert(spec_letter_rules(a, b)[i].0 == "CHAR");
    }
}

#[verifier::rlimit(80)]
#[verifier::spinoff_prover]
proof fn lemma_part_0_digit_formats(acc: Seq<RuleView>)
    requires
        digit_formats_from(acc, 0),
    ensures
        digit_formats_from(spec_rules_part_0(acc), 0),
        forall|i: int| 0 <= i < acc.len() ==> #[trigger] spec_rules_part_0(acc)[i] == acc[i],
{
    broadcast use lemma_digit_formats_push, lemma_digit_formats_concat;
    reveal(spec_rules_part_0);
    reveal_strlit("DIGIT");
    assert("DIGIT"@.len() == 5);
    reveal_strlit("CHAR");
    assert("CHAR"@.len() == 4);
    assert("CHAR"@ != "DIGIT"@);
    reveal_strlit("JSON_ARRAY");
    assert("JSON_ARRAY"@.len() == 10);
    assert("JSON_ARRAY"@ != "DIGIT"@);
    reveal_strlit("JSON_ELEMENTS");
    assert("JSON_ELEMENTS"@.len() == 13);
    assert("JSON_ELEMENTS"@ != "DIGIT"@);
    reveal_strlit("JSON_MEMBER");
    assert("JSON_MEMBER"@.len() == 11);
    assert("JSON_MEMBER"@ != "DIGIT"@);
    reveal_strlit("JSON_MEMBERS");
    assert("JSON_MEMBERS"@.len() == 12);
    assert("JSON_MEMBERS"@ != "DIGIT"@);
    reveal_strlit("JSON_OBJECT");
    assert("JSON_OBJECT"@.len() == 11);
    assert("JSON_OBJECT"@ != "DIGIT"@);
    reveal_strlit("JSON_VALUE");
    assert("JSON_VALUE"@.len() == 10);
    assert("JSON_VALUE"@ != "DIGIT"@);
    reveal_strlit("NUMBER");
    assert("NUMBER"@.len() == 6);
    assert("NUMBER"@ != "DIGIT"@);
    reveal_strlit("START");
    assert("START"@[0] == 'S' && "DIGIT"@[0] == 'D');
    assert("START"@ != "DIGIT"@);
    reveal_strlit("STRING");
    assert("STRING"@.len() == 6);
    assert("STRING"@ != "DIGIT"@);
    assert forall|i: int| 0 <= i < spec_digit_rules().len() implies (#[trigger] spec_digit_rules()[i]).1.len() == 1
        && 48 <= spec_digit_rules()[i].1[0] <= 57 by {}
    lemma_named_rules_not_digit("CHAR", 0, 0, 97, 122);
    lemma_named_rules_not_digit("CHAR", 0, 0, 65, 90);
}

#[verifier::rlimit(80)]
#[verifier::spinoff_prover]
proof fn lemma_part_1_digit_formats(acc: Seq<RuleView>)
    requires
        digit_formats_from(acc, 0),
    ensures
        digit_formats_from(spec_rules_part_1(acc), 0),
        forall|i: int| 0 <= i < acc.len() ==> #[trigger] spec_rules_part_1(acc)[i] == acc[i],
{
    broadcast use lemma_digit_formats_push, lemma_digit_formats_concat;
    reveal(spec_rules_part_1);
    reveal_strlit("DIGIT");
    assert("DIGIT"@.len() == 5);
    reveal_strlit("JSON_VALUE");
    assert("JSON_VALUE"@.len() == 10);
    assert("JSON_VALUE"@ != "DIGIT"@);
    reveal_strlit("PARAMS");
    assert("PARAMS"@.len() == 6);
    assert("PARAMS"@ != "DIGIT"@);
    reveal_strlit("REQUEST");
    assert("REQUEST"@.len() == 7);
    assert("REQUEST"@ != "DIGIT"@);
    reveal_strlit("STRING_CONTENT");
    assert("STRING_CONTENT"@.len() == 14);
    assert("STRING_CONTENT"@ != "DIGIT"@);
}

#[verifier::rlimit(80)]
#[verifier::spinoff_prover]
proof fn lemma_part_2_digit_formats(acc: Seq<RuleView>)
    requires
        digit_formats_from(acc, 0),
    ensures
        digit_formats_from(spec_rules_part_2(acc), 0),
        forall|i: int| 0 <= i < acc.len() ==> #[trigger] spec_rules_part_2(acc)[i] == acc[i],
{
    broadcast use lemma_digit_formats_push, lemma_digit_formats_concat;
    reveal(spec_rules_part_2);
    reveal_strlit("DIGIT");
    assert("DIGIT"@.len() == 5);
    reveal_strlit("LANGUAGE_ID");
    assert("LANGUAGE_ID"@.len() == 11);
    assert("LANGUAGE_ID"@ != "DIGIT"@);
    reveal_strlit("NOTIFICATION");
    assert("NOTIFICATION"@.len() == 12);
    assert("NOTIFICATION"@ != "DIGIT"@);
    reveal_strlit("REQUEST");
    assert("REQUEST"@.len() == 7);
    assert("REQUEST"@ != "DIGIT"@);
    reveal_strlit("TEXT_DOCUMENT_ITEM");
    assert("TEXT_DOCUMENT_ITEM"@.len() == 18);
    assert("TEXT_DOCUMENT_ITEM"@ != "DIGIT"@);
    reveal_strlit("URI");
    assert("URI"@.len() == 3);
    assert("URI"@ != "DIGIT"@);
}

#[verifier::rlimit(80)]
#[verifier::spinoff_prover]
proof fn lemma_part_3_digit_formats(acc: Seq<RuleView>)
    requires
        digit_formats_from(acc, 0),
    ensures
        digit_formats_from(spec_rules_part_3(acc), 0),
        forall|i: int| 0 <= i < acc.len() ==> #[trigger] spec_rules_part_3(acc)[i] == acc[i],
{
    broadcast use lemma_digit_formats_push, lemma_digit_formats_concat;
    reveal(spec_rules_part_3);
    reveal_strlit("DIGIT");
    assert("DIGIT"@.len() == 5);
    reveal_strlit("CLIENT_CAPABILITIES");
    assert("CLIENT_CAPABILITIES"@.len() == 19);
    assert("CLIENT_CAPABILITIES"@ != "DIGIT"@);
    reveal_strlit("COMPLETION_CAPABILITY");
    assert("COMPLETION_CAPABILITY"@.len() == 21);
    assert("COMPLETION_CAPABILITY"@ != "DIGIT"@);
    reveal_strlit("COMPLETION_CONTEXT");
    assert("COMPLETION_CONTEXT"@.len() == 18);
    assert("COMPLETION_CONTEXT"@ != "DIGIT"@);
    reveal_strlit("COMPLETION_ITEM");
    assert("COMPLETION_ITEM"@.len() == 15);
    assert("COMPLETION_ITEM"@ != "DIGIT"@);
    reveal_strlit("COMPLETION_ITEM_CAPABILITY");
    assert("COMPLETION_ITEM_CAPABILITY"@.len() == 26);
    assert("COMPLETION_ITEM_CAPABILITY"@ != "DIGIT"@);
    reveal_strlit("COMPLETION_PARAMS");
    assert("COMPLETION_PARAMS"@.len() == 17);
    assert("COMPLETION_PARAMS"@ != "DIGIT"@);
    reveal_strlit("DEFINITION_PARAMS");
    assert("DEFINITION_PARAMS"@.len() == 17);
    assert("DEFINITION_PARAMS"@ != "DIGIT"@);
    reveal_strlit("DOCUMENT_SYMBOL_PARAMS");
    assert("DOCUMENT_SYMBOL_PARAMS"@.len() == 22);
    assert("DOCUMENT_SYMBOL_PARAMS"@ != "DIGIT"@);
    reveal_strlit("HOVER");
    assert("HOVER"@[0] == 'H' && "DIGIT"@[0] == 'D');
    assert("HOVER"@ != "DIGIT"@);
    reveal_strlit("HOVER_PARAMS");
    assert("HOVER_PARAMS"@.len() == 12);
    assert("HOVER_PARAMS"@ != "DIGIT"@);
    reveal_strlit("INITIALIZE_PARAMS");
    assert("INITIALIZE_PARAMS"@.len() == 17);
    assert("INITIALIZE_PARAMS"@ != "DIGIT"@);
    reveal_strlit("LANGUAGE_ID");
    assert("LANGUAGE_ID"@.len() == 11);
    assert("LANGUAGE_ID"@ != "DIGIT"@);
    reveal_strlit("LOCATION");
    assert("LOCATION"@.len() == 8);
    assert("LOCATION"@ != "DIGIT"@);
    reveal_strlit("LOCATION_LINK");
    assert("LOCATION_LINK"@.len() == 13);
    assert("LOCATION_LINK"@ != "DIGIT"@);
    reveal_strlit("MARKUP_CONTENT");
    assert("MARKUP_CONTENT"@.len() == 14);
    assert("MARKUP_CONTENT"@ != "DIGIT"@);
    reveal_strlit("OPTIONAL_VERSIONED_TEXT_DOCUMENT_IDENTIFIER");
    assert("OPTIONAL_VERSIONED_TEXT_DOCUMENT_IDENTIFIER"@.len() == 43);
    assert("OPTIONAL_VERSIONED_TEXT_DOCUMENT_IDENTIFIER"@ != "DIGIT"@);
    reveal_strlit("PARAMETER_INFORMATION");
    assert("PARAMETER_INFORMATION"@.len() == 21);
    assert("PARAMETER_INFORMATION"@ != "DIGIT"@);
    reveal_strlit("POSITION");
    assert("POSITION"@.len() == 8);
    assert("POSITION"@ != "DIGIT"@);
    reveal_strlit("RANGE");
    assert("RANGE"@[0] == 'R' && "DIGIT"@[0] == 'D');
    assert("RANGE"@ != "DIGIT"@);
    reveal_strlit("REFERENCE_CONTEXT");
    assert("REFERENCE_CONTEXT"@.len() == 17);
    assert("REFERENCE_CONTEXT"@ != "DIGIT"@);
    reveal_strlit("REFERENCE_PARAMS");
    assert("REFERENCE_PARAMS"@.len() == 16);
    assert("REFERENCE_PARAMS"@ != "DIGIT"@);
    reveal_strlit("SIGNATURE_HELP");
    assert("SIGNATURE_HELP"@.len() == 14);
    assert("SIGNATURE_HELP"@ != "DIGIT"@);
    reveal_strlit("SIGNATURE_HELP_CONTEXT");
    assert("SIGNATURE_HELP_CONTEXT"@.len() == 22);
    assert("SIGNATURE_HELP_CONTEXT"@ != "DIGIT"@);
    reveal_strlit("SIGNATURE_HELP_PARAMS");
    assert("SIGNATURE_HELP_PARAMS"@.len() == 21);
    assert("SIGNATURE_HELP_PARAMS"@ != "DIGIT"@);
    reveal_strlit("SIGNATURE_INFORMATION");
    assert("SIGNATURE_INFORMATION"@.len() == 21);
    assert("SIGNATURE_INFORMATION"@ != "DIGIT"@);
    reveal_strlit("SYNC_CAPABILITY");
    assert("SYNC_CAPABILITY"@.len() == 15);
    assert("SYNC_CAPABILITY"@ != "DIGIT"@);
    reveal_strlit("TEXT");
    assert("TEXT"@.len() == 4);
    assert("TEXT"@ != "DIGIT"@);
    reveal_strlit("TEXT_DOCUMENT_CAPABILITY");
    assert("TEXT_DOCUMENT_CAPABILITY"@.len() == 24);
    assert("TEXT_DOCUMENT_CAPABILITY"@ != "DIGIT"@);
    reveal_strlit("TEXT_DOCUMENT_IDENTIFIER");
    assert("TEXT_DOCUMENT_IDENTIFIER"@.len() == 24);
    assert("TEXT_DOCUMENT_IDENTIFIER"@ != "DIGIT"@);
    reveal_strlit("TEXT_DOCUMENT_PARAMS");
    assert("TEXT_DOCUMENT_PARAMS"@.len() == 20);
    assert("TEXT_DOCUMENT_PARAMS"@ != "DIGIT"@);
    reveal_strlit("TEXT_DOCUMENT_POSITION_PARAMS");
    assert("TEXT_DOCUMENT_POSITION_PARAMS"@.len() == 29);
    assert("TEXT_DOCUMENT_POSITION_PARAMS"@ != "DIGIT"@);
    reveal_strlit("TEXT_EDIT");
    assert("TEXT_EDIT"@.len() == 9);
    assert("TEXT_EDIT"@ != "DIGIT"@);
    reveal_strlit("VERSIONED_TEXT_DOCUMENT_IDENTIFIER");
    assert("VERSIONED_TEXT_DOCUMENT_IDENTIFIER"@.len() == 34);
    assert("VERSIONED_TEXT_DOCUMENT_IDENTIFIER"@ != "DIGIT"@);
    reveal_strlit("WORKSPACE_CAPABILITY");
    assert("WORKSPACE_CAPABILITY"@.len() == 20);
    assert("WORKSPACE_CAPABILITY"@ != "DIGIT"@);
    reveal_strlit("WORKSPACE_EDIT_CAPABILITY");
    assert("WORKSPACE_EDIT_CAPABILITY"@.len() == 25);
    assert("WORKSPACE_EDIT_CAPABILITY"@ != "DIGIT"@);
}

#[verifier::rlimit(80)]
#[verifier::spinoff_prover]
proof fn lemma_part_4_digit_formats(acc: Seq<RuleView>)
    requires
        digit_formats_from(acc, 0),
    ensures
        digit_formats_from(spec_rules_part_4(acc), 0),
        forall|i: int| 0 <= i < acc.len() ==> #[trigger] spec_rules_part_4(acc)[i] == acc[i],
{
    broadcast use lemma_digit_formats_push, lemma_digit_formats_concat;
    reveal(spec_rules_part_4);
    reveal_strlit("DIGIT");
    assert("DIGIT"@.len() == 5);
    reveal_strlit("CODE_ACTION_CONTEXT");
    assert("CODE_ACTION_CONTEXT"@.len() == 19);
    assert("CODE_ACTION_CONTEXT"@ != "DIGIT"@);
    reveal_strlit("CODE_ACTION_KIND");
    assert("CODE_ACTION_KIND"@.len() == 16);
    assert("CODE_ACTION_KIND"@ != "DIGIT"@);
    reveal_strlit("CODE_ACTION_PARAMS");
    assert("CODE_ACTION_PARAMS"@.len() == 18);
    assert("CODE_ACTION_PARAMS"@ != "DIGIT"@);
    reveal_strlit("CODE_LENS_PARAMS");
    assert("CODE_LENS_PARAMS"@.len() == 16);
    assert("CODE_LENS_PARAMS"@ != "DIGIT"@);
    reveal_strlit("COLOR");
    assert("COLOR"@[0] == 'C' && "DIGIT"@[0] == 'D');
    assert("COLOR"@ != "DIGIT"@);
    reveal_strlit("COLOR_PRESENTATION_PARAMS");
    assert("COLOR_PRESENTATION_PARAMS"@.len() == 25);
    assert("COLOR_PRESENTATION_PARAMS"@ != "DIGIT"@);
    reveal_strlit("COMPLETION_ITEM_KIND");
    assert("COMPLETION_ITEM_KIND"@.len() == 20);
    assert("COMPLETION_ITEM_KIND"@ != "DIGIT"@);
    reveal_strlit("CREATE_FILES_PARAMS");
    assert("CREATE_FILES_PARAMS"@.len() == 19);
    assert("CREATE_FILES_PARAMS"@ != "DIGIT"@);
    reveal_strlit("DECLARATION_PARAMS");
    assert("DECLARATION_PARAMS"@.len() == 18);
    assert("DECLARATION_PARAMS"@ != "DIGIT"@);
    reveal_strlit("DIAGNOSTIC");
    assert("DIAGNOSTIC"@.len() == 10);
    assert("DIAGNOSTIC"@ != "DIGIT"@);
    reveal_strlit("DIAGNOSTIC_RELATED_INFORMATION");
    assert("DIAGNOSTIC_RELATED_INFORMATION"@.len() == 30);
    assert("DIAGNOSTIC_RELATED_INFORMATION"@ != "DIGIT"@);
    reveal_strlit("DIAGNOSTIC_SEVERITY");
    assert("DIAGNOSTIC_SEVERITY"@.len() == 19);
    assert("DIAGNOSTIC_SEVERITY"@ != "DIGIT"@);
    reveal_strlit("DOCUMENT_COLOR_PARAMS");
    assert("DOCUMENT_COLOR_PARAMS"@.len() == 21);
    assert("DOCUMENT_COLOR_PARAMS"@ != "DIGIT"@);
    reveal_strlit("DOCUMENT_HIGHLIGHT_KIND");
    assert("DOCUMENT_HIGHLIGHT_KIND"@.len() == 23);
    assert("DOCUMENT_HIGHLIGHT_KIND"@ != "DIGIT"@);
    reveal_strlit("DOCUMENT_HIGHLIGHT_PARAMS");
    assert("DOCUMENT_HIGHLIGHT_PARAMS"@.len() == 25);
    assert("DOCUMENT_HIGHLIGHT_PARAMS"@ != "DIGIT"@);
    reveal_strlit("EXECUTE_COMMAND_PARAMS");
    assert("EXECUTE_COMMAND_PARAMS"@.len() == 22);
    assert("EXECUTE_COMMAND_PARAMS"@ != "DIGIT"@);
    reveal_strlit("FILE_CREATE");
    assert("FILE_CREATE"@.len() == 11);
    assert("FILE_CREATE"@ != "DIGIT"@);
    reveal_strlit("FOLDING_RANGE_PARAMS");
    assert("FOLDING_RANGE_PARAMS"@.len() == 20);
    assert("FOLDING_RANGE_PARAMS"@ != "DIGIT"@);
    reveal_strlit("FORMATTING_OPTIONS");
    assert("FORMATTING_OPTIONS"@.len() == 18);
    assert("FORMATTING_OPTIONS"@ != "DIGIT"@);
    reveal_strlit("FORMATTING_PARAMS");
    assert("FORMATTING_PARAMS"@.len() == 17);
    assert("FORMATTING_PARAMS"@ != "DIGIT"@);
    reveal_strlit("IMPLEMENTATION_PARAMS");
    assert("IMPLEMENTATION_PARAMS"@.len() == 21);
    assert("IMPLEMENTATION_PARAMS"@ != "DIGIT"@);
    reveal_strlit("INLINE_VALUE_PARAMS");
    assert("INLINE_VALUE_PARAMS"@.len() == 19);
    assert("INLINE_VALUE_PARAMS"@ != "DIGIT"@);
    reveal_strlit("INSERT_TEXT_FORMAT");
    assert("INSERT_TEXT_FORMAT"@.len() == 18);
    assert("INSERT_TEXT_FORMAT"@ != "DIGIT"@);
    reveal_strlit("LINKED_EDITING_RANGE_PARAMS");
    assert("LINKED_EDITING_RANGE_PARAMS"@.len() == 27);
    assert("LINKED_EDITING_RANGE_PARAMS"@ != "DIGIT"@);
    reveal_strlit("MONIKER");
    assert("MONIKER"@.len() == 7);
    assert("MONIKER"@ != "DIGIT"@);
    reveal_strlit("MONIKER_PARAMS");
    assert("MONIKER_PARAMS"@.len() == 14);
    assert("MONIKER_PARAMS"@ != "DIGIT"@);
    reveal_strlit("PREPARE_CALL_HIERARCHY_PARAMS");
    assert("PREPARE_CALL_HIERARCHY_PARAMS"@.len() == 29);
    assert("PREPARE_CALL_HIERARCHY_PARAMS"@ != "DIGIT"@);
    reveal_strlit("PREPARE_RENAME_PARAMS");
    assert("PREPARE_RENAME_PARAMS"@.len() == 21);
    assert("PREPARE_RENAME_PARAMS"@ != "DIGIT"@);
    reveal_strlit("RANGE_FORMATTING_PARAMS");
    assert("RANGE_FORMATTING_PARAMS"@.len() == 23);
    assert("RANGE_FORMATTING_PARAMS"@ != "DIGIT"@);
    reveal_strlit("RENAME_PARAMS");
    assert("RENAME_PARAMS"@.len() == 13);
    assert("RENAME_PARAMS"@ != "DIGIT"@);
    reveal_strlit("SELECTION_RANGE_PARAMS");
    assert("SELECTION_RANGE_PARAMS"@.len() == 22);
    assert("SELECTION_RANGE_PARAMS"@ != "DIGIT"@);
    reveal_strlit("SEMANTIC_TOKENS_PARAMS");
    assert("SEMANTIC_TOKENS_PARAMS"@.len() == 22);
    assert("SEMANTIC_TOKENS_PARAMS"@ != "DIGIT"@);
    reveal_strlit("SYMBOL_KIND");
    assert("SYMBOL_KIND"@.len() == 11);
    assert("SYMBOL_KIND"@ != "DIGIT"@);
    reveal_strlit("TEXT_DOCUMENT_SYNC_KIND");
    assert("TEXT_DOCUMENT_SYNC_KIND"@.len() == 23);
    assert("TEXT_DOCUMENT_SYNC_KIND"@ != "DIGIT"@);
    reveal_strlit("TYPE_DEFINITION_PARAMS");
    assert("TYPE_DEFINITION_PARAMS"@.len() == 22);
    assert("TYPE_DEFINITION_PARAMS"@ != "DIGIT"@);
    lemma_named_rules_not_digit("SYMBOL_KIND", 1, 26, 0, 0);
    lemma_named_rules_not_digit("COMPLETION_ITEM_KIND", 1, 25, 0, 0);
    lemma_named_rules_not_digit("TEXT_DOCUMENT_SYNC_KIND", 0, 2, 0, 0);
    lemma_named_rules_not_digit("DIAGNOSTIC_SEVERITY", 1, 4, 0, 0);
    lemma_named_rules_not_digit("INSERT_TEXT_FORMAT", 1, 2, 0, 0);
    lemma_named_rules_not_digit("DOCUMENT_HIGHLIGHT_KIND", 1, 3, 0, 0);
}

#[verifier::rlimit(80)]
#[verifier::spinoff_prover]
proof fn lemma_part_5_digit_formats(acc: Seq<RuleView>)
    requires
        digit_formats_from(acc, 0),
    ensures
        digit_formats_from(spec_rules_part_5(acc), 0),
        forall|i: int| 0 <= i < acc.len() ==> #[trigger] spec_rules_part_5(acc)[i] == acc[i],
{
    broadcast use lemma_digit_formats_push, lemma_digit_formats_concat;
    reveal(spec_rules_part_5);
    reveal_strlit("DIGIT");
    assert("DIGIT"@.len() == 5);
    reveal_strlit("CALL_HIERARCHY_INCOMING_CALL");
    assert("CALL_HIERARCHY_INCOMING_CALL"@.len() == 28);
    assert("CALL_HIERARCHY_INCOMING_CALL"@ != "DIGIT"@);
    reveal_strlit("CALL_HIERARCHY_INCOMING_CALLS_PARAMS");
    assert("CALL_HIERARCHY_INCOMING_CALLS_PARAMS"@.len() == 36);
    assert("CALL_HIERARCHY_INCOMING_CALLS_PARAMS"@ != "DIGIT"@);
    reveal_strlit("CALL_HIERARCHY_ITEM");
    assert("CALL_HIERARCHY_ITEM"@.len() == 19);
    assert("CALL_HIERARCHY_ITEM"@ != "DIGIT"@);
    reveal_strlit("CALL_HIERARCHY_OUTGOING_CALL");
    assert("CALL_HIERARCHY_OUTGOING_CALL"@.len() == 28);
    assert("CALL_HIERARCHY_OUTGOING_CALL"@ != "DIGIT"@);
    reveal_strlit("CALL_HIERARCHY_OUTGOING_CALLS_PARAMS");
    assert("CALL_HIERARCHY_OUTGOING_CALLS_PARAMS"@.len() == 36);
    assert("CALL_HIERARCHY_OUTGOING_CALLS_PARAMS"@ != "DIGIT"@);
    reveal_strlit("CANCEL_PARAMS");
    assert("CANCEL_PARAMS"@.len() == 13);
    assert("CANCEL_PARAMS"@ != "DIGIT"@);
    reveal_strlit("CODE_ACTION_KIND");
    assert("CODE_ACTION_KIND"@.len() == 16);
    assert("CODE_ACTION_KIND"@ != "DIGIT"@);
    reveal_strlit("CODE_ACTION_REGISTRATION_OPTIONS");
    assert("CODE_ACTION_REGISTRATION_OPTIONS"@.len() == 32);
    assert("CODE_ACTION_REGISTRATION_OPTIONS"@ != "DIGIT"@);
    reveal_strlit("CODE_LENS");
    assert("CODE_LENS"@.len() == 9);
    assert("CODE_LENS"@ != "DIGIT"@);
    reveal_strlit("COMMAND");
    assert("COMMAND"@.len() == 7);
    assert("COMMAND"@ != "DIGIT"@);
    reveal_strlit("COMPLETION_REGISTRATION_OPTIONS");
    assert("COMPLETION_REGISTRATION_OPTIONS"@.len() == 31);
    assert("COMPLETION_REGISTRATION_OPTIONS"@ != "DIGIT"@);
    reveal_strlit("DELETE_FILES_PARAMS");
    assert("DELETE_FILES_PARAMS"@.len() == 19);
    assert("DELETE_FILES_PARAMS"@ != "DIGIT"@);
    reveal_strlit("DID_CHANGE_PARAMS");
    assert("DID_CHANGE_PARAMS"@.len() == 17);
    assert("DID_CHANGE_PARAMS"@ != "DIGIT"@);
    reveal_strlit("DID_CHANGE_WATCHED_FILES_PARAMS");
    assert("DID_CHANGE_WATCHED_FILES_PARAMS"@.len() == 31);
    assert("DID_CHANGE_WATCHED_FILES_PARAMS"@ != "DIGIT"@);
    reveal_strlit("DID_OPEN_PARAMS");
    assert("DID_OPEN_PARAMS"@.len() == 15);
    assert("DID_OPEN_PARAMS"@ != "DIGIT"@);
    reveal_strlit("DID_SAVE_PARAMS");
    assert("DID_SAVE_PARAMS"@.len() == 15);
    assert("DID_SAVE_PARAMS"@ != "DIGIT"@);
    reveal_strlit("DOCUMENT_FILTER");
    assert("DOCUMENT_FILTER"@.len() == 15);
    assert("DOCUMENT_FILTER"@ != "DIGIT"@);
    reveal_strlit("DOCUMENT_LINK");
    assert("DOCUMENT_LINK"@.len() == 13);
    assert("DOCUMENT_LINK"@ != "DIGIT"@);
    reveal_strlit("DOCUMENT_LINK_PARAMS");
    assert("DOCUMENT_LINK_PARAMS"@.len() == 20);
    assert("DOCUMENT_LINK_PARAMS"@ != "DIGIT"@);
    reveal_strlit("FILE_DELETE");
    assert("FILE_DELETE"@.len() == 11);
    assert("FILE_DELETE"@ != "DIGIT"@);
    reveal_strlit("FILE_EVENT");
    assert("FILE_EVENT"@.len() == 10);
    assert("FILE_EVENT"@ != "DIGIT"@);
    reveal_strlit("FILE_RENAME");
    assert("FILE_RENAME"@.len() == 11);
    assert("FILE_RENAME"@ != "DIGIT"@);
    reveal_strlit("MARKUP_KIND");
    assert("MARKUP_KIND"@.len() == 11);
    assert("MARKUP_KIND"@ != "DIGIT"@);
    reveal_strlit("ON_TYPE_FORMATTING_PARAMS");
    assert("ON_TYPE_FORMATTING_PARAMS"@.len() == 25);
    assert("ON_TYPE_FORMATTING_PARAMS"@ != "DIGIT"@);
    reveal_strlit("RENAME_FILES_PARAMS");
    assert("RENAME_FILES_PARAMS"@.len() == 19);
    assert("RENAME_FILES_PARAMS"@ != "DIGIT"@);
    reveal_strlit("SEMANTIC_TOKENS_RANGE_PARAMS");
    assert("SEMANTIC_TOKENS_RANGE_PARAMS"@.len() == 28);
    assert("SEMANTIC_TOKENS_RANGE_PARAMS"@ != "DIGIT"@);
    reveal_strlit("SIGNATURE_HELP_REGISTRATION_OPTIONS");
    assert("SIGNATURE_HELP_REGISTRATION_OPTIONS"@.len() == 35);
    assert("SIGNATURE_HELP_REGISTRATION_OPTIONS"@ != "DIGIT"@);
    reveal_strlit("STATIC_REGISTRATION_OPTIONS");
    assert("STATIC_REGISTRATION_OPTIONS"@.len() == 27);
    assert("STATIC_REGISTRATION_OPTIONS"@ != "DIGIT"@);
    reveal_strlit("TEXT_DOCUMENT_CONTENT_CHANGE_EVENT");
    assert("TEXT_DOCUMENT_CONTENT_CHANGE_EVENT"@.len() == 34);
    assert("TEXT_DOCUMENT_CONTENT_CHANGE_EVENT"@ != "DIGIT"@);
    reveal_strlit("TEXT_DOCUMENT_REGISTRATION_OPTIONS");
    assert("TEXT_DOCUMENT_REGISTRATION_OPTIONS"@.len() == 34);
    assert("TEXT_DOCUMENT_REGISTRATION_OPTIONS"@ != "DIGIT"@);
    reveal_strlit("URI_SCHEME");
    assert("URI_SCHEME"@.len() == 10);
    assert("URI_SCHEME"@ != "DIGIT"@);
    reveal_strlit("WILL_SAVE_PARAMS");
    assert("WILL_SAVE_PARAMS"@.len() == 16);
    assert("WILL_SAVE_PARAMS"@ != "DIGIT"@);
    reveal_strlit("WORKSPACE_PARAMS");
    assert("WORKSPACE_PARAMS"@.len() == 16);
    assert("WORKSPACE_PARAMS"@ != "DIGIT"@);
    reveal_strlit("WORKSPACE_SYMBOL_PARAMS");
    assert("WORKSPACE_SYMBOL_PARAMS"@.len() == 23);
    assert("WORKSPACE_SYMBOL_PARAMS"@ != "DIGIT"@);
    reveal_strlit("WORK_DONE_PROGRESS_OPTIONS");
    assert("WORK_DONE_PROGRESS_OPTIONS"@.len() == 26);
    assert("WORK_DONE_PROGRESS_OPTIONS"@ != "DIGIT"@);
}

#[verifier::rlimit(80)]
#[verifier::spinoff_prover]
proof fn lemma_part_6_digit_formats(acc: Seq<RuleView>)
    requires
        digit_formats_from(acc, 0),
    ensures
        digit_formats_from(spec_rules_part_6(acc), 0),
        forall|i: int| 0 <= i < acc.len() ==> #[trigger] spec_rules_part_6(acc)[i] == acc[i],
{
    broadcast use lemma_digit_formats_push, lemma_digit_formats_concat;
    reveal(spec_rules_part_6);
    reveal_strlit("DIGIT");
    assert("DIGIT"@.len() == 5);
    reveal_strlit("ARRAY_CHANGE_EVENT");
    assert("ARRAY_CHANGE_EVENT"@.len() == 18);
    assert("ARRAY_CHANGE_EVENT"@ != "DIGIT"@);
    reveal_strlit("CELLS_CHANGE_EVENT");
    assert("CELLS_CHANGE_EVENT"@.len() == 18);
    assert("CELLS_CHANGE_EVENT"@ != "DIGIT"@);
    reveal_strlit("CELLS_STRUCTURE_CHANGE_EVENT");
    assert("CELLS_STRUCTURE_CHANGE_EVENT"@.len() == 28);
    assert("CELLS_STRUCTURE_CHANGE_EVENT"@ != "DIGIT"@);
    reveal_strlit("CELL_TEXT_CONTENT_CHANGE_EVENT");
    assert("CELL_TEXT_CONTENT_CHANGE_EVENT"@.len() == 30);
    assert("CELL_TEXT_CONTENT_CHANGE_EVENT"@ != "DIGIT"@);
    reveal_strlit("CONFIGURATION_ITEM");
    assert("CONFIGURATION_ITEM"@.len() == 18);
    assert("CONFIGURATION_ITEM"@ != "DIGIT"@);
    reveal_strlit("CONFIGURATION_PARAMS");
    assert("CONFIGURATION_PARAMS"@.len() == 20);
    assert("CONFIGURATION_PARAMS"@ != "DIGIT"@);
    reveal_strlit("INLAY_HINT_PARAMS");
    assert("INLAY_HINT_PARAMS"@.len() == 17);
    assert("INLAY_HINT_PARAMS"@ != "DIGIT"@);
    reveal_strlit("INLINE_COMPLETION_ITEM");
    assert("INLINE_COMPLETION_ITEM"@.len() == 22);
    assert("INLINE_COMPLETION_ITEM"@ != "DIGIT"@);
    reveal_strlit("INLINE_COMPLETION_PARAMS");
    assert("INLINE_COMPLETION_PARAMS"@.len() == 24);
    assert("INLINE_COMPLETION_PARAMS"@ != "DIGIT"@);
    reveal_strlit("LOG_TRACE_PARAMS");
    assert("LOG_TRACE_PARAMS"@.len() == 16);
    assert("LOG_TRACE_PARAMS"@ != "DIGIT"@);
    reveal_strlit("NOTEBOOK_CELL");
    assert("NOTEBOOK_CELL"@.len() == 13);
    assert("NOTEBOOK_CELL"@ != "DIGIT"@);
    reveal_strlit("NOTEBOOK_DOCUMENT");
    assert("NOTEBOOK_DOCUMENT"@.len() == 17);
    assert("NOTEBOOK_DOCUMENT"@ != "DIGIT"@);
    reveal_strlit("NOTEBOOK_DOCUMENT_CHANGE_EVENT");
    assert("NOTEBOOK_DOCUMENT_CHANGE_EVENT"@.len() == 30);
    assert("NOTEBOOK_DOCUMENT_CHANGE_EVENT"@ != "DIGIT"@);
    reveal_strlit("NOTEBOOK_DOCUMENT_DID_CHANGE_PARAMS");
    assert("NOTEBOOK_DOCUMENT_DID_CHANGE_PARAMS"@.len() == 35);
    assert("NOTEBOOK_DOCUMENT_DID_CHANGE_PARAMS"@ != "DIGIT"@);
    reveal_strlit("NOTEBOOK_DOCUMENT_DID_CLOSE_PARAMS");
    assert("NOTEBOOK_DOCUMENT_DID_CLOSE_PARAMS"@.len() == 34);
    assert("NOTEBOOK_DOCUMENT_DID_CLOSE_PARAMS"@ != "DIGIT"@);
    reveal_strlit("NOTEBOOK_DOCUMENT_DID_OPEN_PARAMS");
    assert("NOTEBOOK_DOCUMENT_DID_OPEN_PARAMS"@.len() == 33);
    assert("NOTEBOOK_DOCUMENT_DID_OPEN_PARAMS"@ != "DIGIT"@);
    reveal_strlit("NOTEBOOK_DOCUMENT_DID_SAVE_PARAMS");
    assert("NOTEBOOK_DOCUMENT_DID_SAVE_PARAMS"@.len() == 33);
    assert("NOTEBOOK_DOCUMENT_DID_SAVE_PARAMS"@ != "DIGIT"@);
    reveal_strlit("NOTEBOOK_DOCUMENT_IDENTIFIER");
    assert("NOTEBOOK_DOCUMENT_IDENTIFIER"@.len() == 28);
    assert("NOTEBOOK_DOCUMENT_IDENTIFIER"@ != "DIGIT"@);
    reveal_strlit("NOTIFICATION");
    assert("NOTIFICATION"@.len() == 12);
    assert("NOTIFICATION"@ != "DIGIT"@);
    reveal_strlit("PROGRESS_PARAMS");
    assert("PROGRESS_PARAMS"@.len() == 15);
    assert("PROGRESS_PARAMS"@ != "DIGIT"@);
    reveal_strlit("REQUEST");
    assert("REQUEST"@.len() == 7);
    assert("REQUEST"@ != "DIGIT"@);
    reveal_strlit("SEMANTIC_TOKENS");
    assert("SEMANTIC_TOKENS"@.len() == 15);
    assert("SEMANTIC_TOKENS"@ != "DIGIT"@);
    reveal_strlit("SEMANTIC_TOKENS_DELTA_PARAMS");
    assert("SEMANTIC_TOKENS_DELTA_PARAMS"@.len() == 28);
    assert("SEMANTIC_TOKENS_DELTA_PARAMS"@ != "DIGIT"@);
    reveal_strlit("SET_TRACE_PARAMS");
    assert("SET_TRACE_PARAMS"@.len() == 16);
    assert("SET_TRACE_PARAMS"@ != "DIGIT"@);
    reveal_strlit("WORKSPACE_FOLDER");
    assert("WORKSPACE_FOLDER"@.len() == 16);
    assert("WORKSPACE_FOLDER"@ != "DIGIT"@);
    reveal_strlit("WORKSPACE_FOLDERS_CHANGE_EVENT");
    assert("WORKSPACE_FOLDERS_CHANGE_EVENT"@.len() == 30);
    assert("WORKSPACE_FOLDERS_CHANGE_EVENT"@ != "DIGIT"@);
}

/// Some rule is `DIGIT -> d`, the one-byte format `d`.
pub open spec fn has_digit_rule(rules: Seq<RuleView>, d: u8) -> bool {
    exists|i: int| 0 <= i < rules.len() && (#[trigger] rules[i]).0@ == "DIGIT"@ && rules[i].1 == seq![d]
}

/// The digits of the grammar: every rule named `DIGIT` turns it into one
/// byte that is an ASCII decimal digit, and each digit `0` to `9` has such a
/// rule.
pub proof fn lemma_grammar_digits()
    ensures
        forall|i: int|
            0 <= i < spec_grammar_rules().len() && (#[trigger] spec_grammar_rules()[i]).0@ == "DIGIT"@
                ==> spec_grammar_rules()[i].1.len() == 1 && 48 <= spec_grammar_rules()[i].1[0] <= 57,
        forall|d: u8| 48 <= d <= 57 ==> #[trigger] has_digit_rule(spec_grammar_rules(), d),
{
    let e = Seq::<RuleView>::empty();
    lemma_part_0_digit_formats(e);
    let p0 = spec_rules_part_0(e);
    lemma_part_1_digit_formats(p0);
    let p1 = spec_rules_part_1(p0);
    lemma_part_2_digit_formats(p1);
    let p2 = spec_rules_part_2(p1);
    lemma_part_3_digit_formats(p2);
    let p3 = spec_rules_part_3(p2);
    lemma_part_4_digit_formats(p3);
    let p4 = spec_rules_part_4(p3);
    lemma_part_5_digit_formats(p4);
    let p5 = spec_rules_part_5(p4);
    lemma_part_6_digit_formats(p5);
    lemma_rules_part_0_len(e);
    lemma_rules_part_1_len(p0);
    lemma_rules_part_2_len(p1);
    lemma_rules_part_3_len(p2);
    lemma_rules_part_4_len(p3);
    lemma_rules_part_5_len(p4);
    lemma_grammar_rules_len();
    assert forall|d: u8| 48 <= d <= 57 implies #[trigger] has_digit_rule(spec_grammar_rules(), d) by {
        let j = (d - 48) as int;
        let i = 6 + j;
        lemma_part_0_digit(e, j);
        assert(p0[i] == spec_digit_rules()[j]);
        assert(p1[i] == p0[i]);
        assert(p2[i] == p1[i]);
        assert(p3[i] == p2[i]);
        assert(p4[i] == p3[i]);
        assert(p5[i] == p4[i]);
        assert(spec_grammar_rules()[i] == p5[i]);
        assert(spec_digit_rules()[j].1 =~= seq![d]);
        assert(spec_grammar_rules()[i].0@ == "DIGIT"@);
        assert(spec_grammar_rules()[i].1 == seq![d]);
        assert(0 <= i < spec_grammar_rules().len());
    }
}

/// The digit rules of part 0 stand right after its first six rules.
proof fn lemma_part_0_digit(acc: Seq<RuleView>, j: int)
    requires
        0 <= j < 10,
    ensures
        spec_rules_part_0(acc)[acc.len() + 6 + j] == spec_digit_rules()[j],
{
    reveal(spec_rules_part_0);
}

// ---------------------------------------------------------------------------
// Checking that every nonterminal a rule refers to is defined
// ---------------------------------------------------------------------------

/// The first index from `from` on that holds `}` or `\`.
pub open spec fn stop_from(f: Seq<u8>, from: int) -> Option<int>
    decreases f.len() - from,
{
    if from < 0 || from >= f.len() {
        None
    } else if f[from] == 125u8 || f[from] == 92u8 {
        Some(from)
    } else {
        stop_from(f, from + 1)
    }
}

pub proof fn lemma_stop_from_bounds(f: Seq<u8>, from: int)
    ensures
        stop_from(f, from) matches Some(j) ==> from <= j < f.len() && (f[j] == 125u8 || f[j] == 92u8),
        stop_from(f, from) matches Some(j) ==> forall|k: int| from <= k < j ==> f[k] != 125u8 && f[k] != 92u8,
        stop_from(f, from) is None && 0 <= from ==> forall|k: int| from <= k < f.len() ==> f[k] != 125u8 && f[k] != 92u8,
    decreases f.len() - from,
{
    if 0 <= from < f.len() && !(f[from] == 125u8 || f[from] == 92u8) {
        lemma_stop_from_bounds(f, from + 1);
    }
}

/// The nonterminal references of a rule format from index `i` on, as the
/// nautilus tokenizer finds them: `{` with a non-empty body free of `}` and
/// `\` up to the next `}` is a reference; `\{` and `\}` are literal braces;
/// any other `{` is dropped.
pub open spec fn refs_from(f: Seq<u8>, i: int) -> Seq<Seq<u8>>
    decreases f.len() - i,
{
    if i < 0 || i >= f.len() {
        Seq::empty()
    } else if f[i] == 123u8 {
        match stop_from(f, i + 1) {
            Some(j) => {
                proof {
                    lemma_stop_from_bounds(f, i + 1);
                }
                if f[j] == 125u8 && j > i + 1 {
                    seq![f.subrange(i + 1, j)] + refs_from(f, j + 1)
                } else {
                    refs_from(f, i + 1)
                }
            },
            None => refs_from(f, i + 1),
        }
    } else if f[i] == 92u8 && i + 1 < f.len() && (f[i + 1] == 123u8 || f[i + 1] == 125u8) {
        refs_from(f, i + 2)
    } else {
        refs_from(f, i + 1)
    }
}

/// The nonterminal references of a rule format.
pub open spec fn references(f: Seq<u8>) -> Seq<Seq<u8>> {
    refs_from(f, 0)
}

pub open spec fn is_upper(b: u8) -> bool {
    65u8 <= b <= 90u8
}

/// `[a-zA-Z_-0-9]`
pub open spec fn is_name_byte(b: u8) -> bool {
    (65u8 <= b <= 90u8) || (97u8 <= b <= 122u8) || (48u8 <= b <= 57u8) || b == 95u8 || b == 45u8
}

/// Where the name of a reference ends: at its first `:`, else at its end.
pub open spec fn name_end(r: Seq<u8>, from: int) -> int
    decreases r.len() - from,
{
    if from < 0 || from >= r.len() {
        r.len() as int
    } else if r[from] == 58u8 {
        from
    } else {
        name_end(r, from + 1)
    }
}

/// A reference body nautilus accepts: a name that starts with a capital
/// letter, then optionally `:` and a description, both of `[a-zA-Z_-0-9]`.
pub open spec fn valid_reference(r: Seq<u8>) -> bool {
    let k = name_end(r, 0);
    &&& r.len() > 0
    &&& is_upper(r[0])
    &&& forall|i: int| 1 <= i < k ==> is_name_byte(#[trigger] r[i])
    &&& forall|i: int| k < i < r.len() ==> is_name_byte(#[trigger] r[i])
}

/// The nonterminal a reference names.
pub open spec fn reference_name(r: Seq<u8>) -> Seq<u8> {
    r.take(name_end(r, 0))
}

/// Some rule has `name` on its left-hand side.
pub open spec fn defines(rules: Seq<(&'static str, Vec<u8>)>, name: Seq<u8>) -> bool {
    exists|i: int| 0 <= i < rules.len() && (#[trigger] rules[i]).0.spec_bytes() == name
}

/// Every reference of every rule is well formed and names a nonterminal that
/// some rule defines.
pub open spec fn grammar_closed(rules: Seq<(&'static str, Vec<u8>)>) -> bool {
    forall|i: int, k: int|
        0 <= i < rules.len() && 0 <= k < references(rules[i].1@).len() ==> {
            let r = #[trigger] references(rules[i].1@)[k];
            valid_reference(r) && defines(rules, reference_name(r))
        }
}

/// The references of a rule format, in order.
pub fn rule_references(f: &[u8]) -> (r: Vec<Vec<u8>>)
    ensures
        r@.len() == references(f@).len(),
        forall|k: int| 0 <= k < r@.len() ==> (#[trigger] r@[k])@ == references(f@)[k],
{
    let n = f.len();
    let mut out: Vec<Vec<u8>> = Vec::new();
    let ghost mut done: Seq<Seq<u8>> = Seq::empty();
    let mut i: usize = 0;
    while i < n
        invariant
            n == f@.len(),
            i <= n,
            out@.len() == done.len(),
            forall|k: int| 0 <= k < out@.len() ==> (#[trigger] out@[k])@ == done[k],
            done + refs_from(f@, i as int) == references(f@),
        decreases n - i,
    {
        if f[i] == 123u8 {
            let mut j: usize = i + 1;
            while j < n && f[j] != 125u8 && f[j] != 92u8
                invariant
                    i < j <= n,
                    n == f@.len(),
                    forall|k: int| i + 1 <= k < j ==> f@[k] != 125u8 && f@[k] != 92u8,
                decreases n - j,
            {
                j = j + 1;
            }
            proof {
                lemma_stop_from_skip(f@, i + 1, j as int);
            }
            if j < n && f[j] == 125u8 && j > i + 1 {
                let mut name: Vec<u8> = Vec::new();
                let mut k: usize = i + 1;
                while k < j
                    invariant
                        i + 1 <= k <= j,
                        j < n,
                        n == f@.len(),
                        name@ == f@.subrange(i + 1, k as int),
                    decreases j - k,
                {
                    name.push(f[k]);
                    assert(name@ =~= f@.subrange(i + 1, k + 1));
                    k = k + 1;
                }
                proof {
                    assert(done.push(name@) + refs_from(f@, j + 1) =~= done + (seq![name@] + refs_from(f@, j + 1)));
                    done = done.push(name@);
                }
                out.push(name);
                i = j + 1;
            } else {
                i = i + 1;
            }
        } else if f[i] == 92u8 && i + 1 < n && (f[i + 1] == 123u8 || f[i + 1] == 125u8) {
            i = i + 2;
        } else {
            i = i + 1;
        }
    }
    assert(done + refs_from(f@, i as int) =~= done);
    out
}

proof fn lemma_stop_from_skip(f: Seq<u8>, from: int, j: int)
    requires
        0 <= from <= j <= f.len(),
        forall|k: int| from <= k < j ==> f[k] != 125u8 && f[k] != 92u8,
        j < f.len() ==> (f[j] == 125u8 || f[j] == 92u8),
    ensures
        stop_from(f, from) == (if j < f.len() { Some(j) } else { None::<int> }),
    decreases j - from,
{
    if from < j {
        lemma_stop_from_skip(f, from + 1, j);
    }
}

/// Where the name of `r` ends.
fn find_name_end(r: &[u8]) -> (k: usize)
    ensures
        k == name_end(r@, 0),
        k <= r@.len(),
{
    let mut k: usize = 0;
    while k < r.len() && r[k] != 58u8
        invariant
            k <= r@.len(),
            name_end(r@, k as int) == name_end(r@, 0),
        decreases r.len() - k,
    {
        k = k + 1;
    }
    k
}

fn is_name_byte_exec(b: u8) -> (r: bool)
    ensures
        r == is_name_byte(b),
{
    (65u8 <= b && b <= 90u8) || (97u8 <= b && b <= 122u8) || (48u8 <= b && b <= 57u8) || b == 95u8 || b == 45u8
}

/// Whether nautilus accepts `r` as a reference body.
pub fn is_valid_reference(r: &[u8]) -> (ok: bool)
    ensures
        ok == valid_reference(r@),
{
    if r.len() == 0 || !(65u8 <= r[0] && r[0] <= 90u8) {
        return false;
    }
    let k = find_name_end(r);
    assert(valid_reference(r@) <==> (forall|m: int| 1 <= m < r@.len() && m != k ==> is_name_byte(#[trigger] r@[m])));
    let mut i: usize = 1;
    while i < r.len()
        invariant
            1 <= i <= r@.len(),
            k == name_end(r@, 0),
            forall|m: int| 1 <= m < i && m != k ==> is_name_byte(#[trigger] r@[m]),
        decreases r.len() - i,
    {
        if i != k && !is_name_byte_exec(r[i]) {
            return false;
        }
        i = i + 1;
    }
    true
}

/// Whether some rule defines `name`.
fn defines_name(rules: &Vec<(&'static str, Vec<u8>)>, name: &[u8]) -> (r: bool)
    ensures
        r == defines(rules@, name@),
{
    let mut i: usize = 0;
    while i < rules.len()
        invariant
            i <= rules@.len(),
            forall|m: int| 0 <= m < i ==> (#[trigger] rules@[m]).0.spec_bytes() != name@,
        decreases rules.len() - i,
    {
        if bytes_eq(rules[i].0.as_bytes(), name) {
            return true;
        }
        i = i + 1;
    }
    false
}

/// Whether every reference of every rule is well formed and names a
/// nonterminal that some rule defines.
pub fn grammar_is_closed(rules: &Vec<(&'static str, Vec<u8>)>) -> (r: bool)
    ensures
        r == grammar_closed(rules@),
{
    let mut i: usize = 0;
    while i < rules.len()
        invariant
            i <= rules@.len(),
            forall|a: int, k: int|
                0 <= a < i && 0 <= k < references(rules@[a].1@).len() ==> {
                    let r = #[trigger] references(rules@[a].1@)[k];
                    valid_reference(r) && defines(rules@, reference_name(r))
                },
        decreases rules.len() - i,
    {
        let refs = rule_references(rules[i].1.as_slice());
        let mut k: usize = 0;
        while k < refs.len()
            invariant
                i < rules@.len(),
                k <= refs@.len(),
                refs@.len() == references(rules@[i as int].1@).len(),
                forall|m: int| 0 <= m < refs@.len() ==> (#[trigger] refs@[m])@ == references(rules@[i as int].1@)[m],
                forall|a: int, m: int|
                    0 <= a < i && 0 <= m < references(rules@[a].1@).len() ==> {
                        let r = #[trigger] references(rules@[a].1@)[m];
                        valid_reference(r) && defines(rules@, reference_name(r))
                    },
                forall|m: int| 0 <= m < k ==> {
                    let r = #[trigger] references(rules@[i as int].1@)[m];
                    valid_reference(r) && defines(rules@, reference_name(r))
                },
            decreases refs.len() - k,
        {
            let r = &refs[k];
            assert(r@ == references(rules@[i as int].1@)[k as int]);
            if !is_valid_reference(r.as_slice()) {
                return false;
            }
            let end = find_name_end(r.as_slice());
            let mut name: Vec<u8> = Vec::new();
            let mut m: usize = 0;
            while m < end
                invariant
                    m <= end,
                    end == name_end(r@, 0),
                    end <= r@.len(),
                    name@ == r@.take(m as int),
                decreases end - m,
            {
                name.push(r[m]);
                assert(name@ =~= r@.take(m + 1));
                m = m + 1;
            }
            if !defines_name(rules, name.as_slice()) {
                return false;
            }
            k = k + 1;
        }
        i = i + 1;
    }
    true
}

} // verus!
