//! The ways a range of a document is chosen for a message: from the lines of
//! the document, from its syntax tree, and from what the server reported.
use vstd::prelude::*;

use crate::feedback::LspResponseInfo;
use crate::fuzz_rand::{rand_below_or_zero, rand_choose_index};
use crate::fuzz_state::FuzzState;
use crate::generation::{GenerationError, LspParamsGenerator};
use crate::lsp_input::{LspInput, SyntaxNode, TextDocument, WorkspaceEntry};
use crate::selection::{
    after_range, drawable_valid_range, inverted_range, line_lengths, names_a_source_file,
    names_source_file, random_invalid_range, random_valid_range, select_random_document, source_files_nameable,
    spec_line_lengths, spec_whole_range, whole_range, DocumentSelection, Position, Range,
    TextDocumentIdentifier,
};
use crate::text::str_eq;

verus! {

/// `a` comes no later than `b`: by line, then by character.
pub open spec fn pos_le(a: Position, b: Position) -> bool {
    a.line < b.line || (a.line == b.line && a.character <= b.character)
}

/// `outer` spans all of `inner`.
pub open spec fn range_contains(outer: Range, inner: Range) -> bool {
    pos_le(outer.start, inner.start) && pos_le(inner.end, outer.end)
}

/// Containment of ranges orders positions by line, then by character: a
/// range contains another exactly when it starts no later and ends no earlier,
/// comparing lines first and characters only on the same line.
pub proof fn lemma_range_contains_lexicographic(outer: Range, inner: Range)
    ensures
        range_contains(outer, inner) <==> ((outer.start.line < inner.start.line || (outer.start.line
            == inner.start.line && outer.start.character <= inner.start.character)) && (inner.end.line
            < outer.end.line || (inner.end.line == outer.end.line && inner.end.character
            <= outer.end.character))),
{
}

/// A range whose lines lie strictly inside another's is contained in it,
/// whatever the characters: lines strictly between decide alone.
pub proof fn lemma_range_contains_inner_lines(outer: Range, inner: Range)
    requires
        outer.start.line < inner.start.line,
        inner.end.line < outer.end.line,
    ensures
        range_contains(outer, inner),
{
}

/// Containment is reflexive and transitive.
pub proof fn lemma_range_contains_order(a: Range, b: Range, c: Range)
    ensures
        range_contains(a, a),
        range_contains(a, b) && range_contains(b, c) ==> range_contains(a, c),
{
}

fn position_le(a: Position, b: Position) -> (r: bool)
    ensures
        r == pos_le(a, b),
{
    a.line < b.line || (a.line == b.line && a.character <= b.character)
}

fn contains_range(outer: Range, inner: Range) -> (r: bool)
    ensures
        r == range_contains(outer, inner),
{
    position_le(outer.start, inner.start) && position_le(inner.end, outer.end)
}

/// The line lengths of a document as `usize`s, for the range functions.
pub open spec fn doc_lines(doc: TextDocument) -> Seq<usize> {
    spec_line_lengths(doc.content@).map_values(|n: nat| n as usize)
}

fn document_lines(doc: &TextDocument) -> (r: Vec<usize>)
    ensures
        r@ == doc_lines(*doc),
{
    let lines = line_lengths(doc.content.as_slice());
    proof {
        assert(lines@ =~= doc_lines(*doc)) by {
            assert(lines@.map_values(|n: usize| n as nat) == spec_line_lengths(doc.content@));
            assert forall|i: int| 0 <= i < lines@.len() implies lines@[i] == doc_lines(*doc)[i] by {
                assert(lines@.map_values(|n: usize| n as nat)[i] == lines@[i] as nat);
            }
        }
    }
    lines
}

// ---------------------------------------------------------------------------
// Ranges from the syntax tree
// ---------------------------------------------------------------------------

/// What a subtree selection gives: the range of one of the document's nodes,
/// or the whole document when it has no node.
pub open spec fn subtree_outcome(doc: TextDocument, r: Range) -> bool {
    &&& doc.nodes@.len() > 0 ==> exists|i: int| 0 <= i < doc.nodes@.len() && r == (#[trigger] doc.nodes@[i]).range
    &&& doc.nodes@.len() == 0 ==> r == spec_whole_range(doc_lines(doc))
}

/// Some node among the first `upto` has kind `kind`.
pub open spec fn kind_occurs(nodes: Seq<SyntaxNode>, kind: u16, upto: int) -> bool {
    exists|j: int| 0 <= j < upto && nodes[j].kind_id == kind
}

/// The range of a random node, chosen by first choosing a node kind among the
/// kinds that occur, then a node of that kind; the whole document when there
/// is no node.
pub fn subtree_node_type(rand: &mut libafl_bolts::rands::RomuDuoJrRand, doc: &TextDocument) -> (r: Range)
    ensures
        subtree_outcome(*doc, r),
{
    let mut kinds: Vec<u16> = Vec::new();
    let mut i: usize = 0;
    while i < doc.nodes.len()
        invariant
            i <= doc.nodes@.len(),
            forall|k: int| 0 <= k < kinds@.len() ==> kind_occurs(doc.nodes@, #[trigger] kinds@[k], i as int),
            i > 0 ==> kinds@.len() > 0,
        decreases doc.nodes.len() - i,
    {
        let kind = doc.nodes[i].kind_id;
        let mut seen = false;
        let mut k: usize = 0;
        while k < kinds.len()
            invariant
                k <= kinds@.len(),
                seen ==> kinds@.len() > 0,
            decreases kinds.len() - k,
        {
            if kinds[k] == kind {
                seen = true;
            }
            k = k + 1;
        }
        let ghost before = kinds@;
        if !seen {
            kinds.push(kind);
        }
        proof {
            assert forall|k: int| 0 <= k < kinds@.len() implies kind_occurs(doc.nodes@, #[trigger] kinds@[k], i + 1) by {
                if k < before.len() {
                    assert(kinds@[k] == before[k]);
                    let j = choose|j: int| 0 <= j < i && doc.nodes@[j].kind_id == before[k];
                    assert(0 <= j < i + 1 && doc.nodes@[j].kind_id == kinds@[k]);
                } else {
                    assert(doc.nodes@[i as int].kind_id == kinds@[k]);
                }
            }
        }
        i = i + 1;
    }
    let kind = match rand_choose_index(rand, kinds.len()) {
        Some(k) => {
            assert(kind_occurs(doc.nodes@, kinds@[k as int], doc.nodes@.len() as int));
            kinds[k]
        },
        None => {
            let lines = document_lines(doc);
            return whole_range(lines.as_slice());
        },
    };
    let mut same_kind: Vec<usize> = Vec::new();
    let mut j: usize = 0;
    while j < doc.nodes.len()
        invariant
            j <= doc.nodes@.len(),
            forall|k: int| 0 <= k < same_kind@.len() ==> (#[trigger] same_kind@[k]) < doc.nodes@.len(),
            kind_occurs(doc.nodes@, kind, j as int) ==> same_kind@.len() > 0,
            kind_occurs(doc.nodes@, kind, doc.nodes@.len() as int),
        decreases doc.nodes.len() - j,
    {
        if doc.nodes[j].kind_id == kind {
            same_kind.push(j);
        }
        proof {
            if kind_occurs(doc.nodes@, kind, j + 1) && !kind_occurs(doc.nodes@, kind, j as int) {
                assert(doc.nodes@[j as int].kind_id == kind);
            }
        }
        j = j + 1;
    }
    match rand_choose_index(rand, same_kind.len()) {
        Some(k) => {
            let idx = same_kind[k];
            assert(same_kind@[k as int] < doc.nodes@.len());
            doc.nodes[idx].range
        },
        None => {
            let lines = document_lines(doc);
            whole_range(lines.as_slice())
        },
    }
}

/// The range of a random node of the document, each node equally likely;
/// the whole document when it has no node.
pub fn random_subtree(rand: &mut libafl_bolts::rands::RomuDuoJrRand, doc: &TextDocument) -> (r: Range)
    ensures
        subtree_outcome(*doc, r),
{
    match rand_choose_index(rand, doc.nodes.len()) {
        Some(i) => doc.nodes[i].range,
        None => {
            let lines = document_lines(doc);
            whole_range(lines.as_slice())
        },
    }
}

/// The index of the deepest node that spans `range`: the last such node in
/// pre-order.
pub open spec fn is_descendant_for_range(nodes: Seq<SyntaxNode>, range: Range, i: int) -> bool {
    &&& 0 <= i < nodes.len()
    &&& range_contains(nodes[i].range, range)
    &&& forall|j: int| i < j < nodes.len() ==> !range_contains(#[trigger] nodes[j].range, range)
}

/// The deepest node of `nodes` (in pre-order) that spans `range`.
pub fn descendant_for_range(nodes: &Vec<SyntaxNode>, range: Range) -> (r: Option<usize>)
    ensures
        match r {
            Some(i) => is_descendant_for_range(nodes@, range, i as int),
            None => forall|j: int| 0 <= j < nodes@.len() ==> !range_contains(#[trigger] nodes@[j].range, range),
        },
{
    let mut i: usize = nodes.len();
    while i > 0
        invariant
            i <= nodes@.len(),
            forall|j: int| i <= j < nodes@.len() ==> !range_contains(#[trigger] nodes@[j].range, range),
        decreases i,
    {
        i = i - 1;
        if contains_range(nodes[i].range, range) {
            return Some(i);
        }
    }
    None
}

/// The deepest node spanning `range`, if any.
pub open spec fn spec_descendant(nodes: Seq<SyntaxNode>, range: Range) -> Option<int> {
    if exists|i: int| is_descendant_for_range(nodes, range, i) {
        Some(choose|i: int| is_descendant_for_range(nodes, range, i))
    } else {
        None
    }
}

pub proof fn lemma_descendant_unique(nodes: Seq<SyntaxNode>, range: Range, i: int)
    requires
        is_descendant_for_range(nodes, range, i),
    ensures
        spec_descendant(nodes, range) == Some(i),
{
    let j = choose|j: int| is_descendant_for_range(nodes, range, j);
    if j < i {
        assert(!range_contains(nodes[i].range, range));
    } else if i < j {
        assert(!range_contains(nodes[j].range, range));
    }
}

/// The start of the parent of the deepest node spanning each range, for the
/// ranges whose node has a parent.
pub open spec fn parent_starts(nodes: Seq<SyntaxNode>, ranges: Seq<Range>) -> Seq<Position>
    decreases ranges.len(),
{
    if ranges.len() == 0 {
        Seq::empty()
    } else {
        let rest = parent_starts(nodes, ranges.drop_last());
        match spec_descendant(nodes, ranges.last()) {
            Some(i) => match nodes[i].parent {
                Some(p) => if p < nodes.len() {
                    rest.push(nodes[p as int].range.start)
                } else {
                    rest
                },
                None => rest,
            },
            None => rest,
        }
    }
}

// ---------------------------------------------------------------------------
// Ranges from the server's replies
// ---------------------------------------------------------------------------

/// The ranges of the diagnostics of `ds` on `uri`, in order.
pub open spec fn diagnosed_ranges_in(ds: Seq<crate::feedback::Diagnostic>, uri: Seq<char>) -> Seq<Range>
    decreases ds.len(),
{
    if ds.len() == 0 {
        Seq::empty()
    } else {
        let rest = diagnosed_ranges_in(ds.drop_last(), uri);
        if ds.last().uri@ == uri {
            rest.push(ds.last().range)
        } else {
            rest
        }
    }
}

/// The ranges of the symbol ranges of `ss` on `uri`, in order.
pub open spec fn symbol_ranges_in(ss: Seq<crate::feedback::SymbolRange>, uri: Seq<char>) -> Seq<Range>
    decreases ss.len(),
{
    if ss.len() == 0 {
        Seq::empty()
    } else {
        let rest = symbol_ranges_in(ss.drop_last(), uri);
        if ss.last().uri@ == uri {
            rest.push(ss.last().range)
        } else {
            rest
        }
    }
}

/// The ranges of the diagnostics published for `uri`, in order.
pub open spec fn diagnosed_ranges(info: LspResponseInfo, uri: Seq<char>) -> Seq<Range> {
    diagnosed_ranges_in(info.spec_diagnostics(), uri)
}

/// The ranges of the symbols reported for `uri`, in order.
pub open spec fn reported_symbol_ranges(info: LspResponseInfo, uri: Seq<char>) -> Seq<Range> {
    symbol_ranges_in(info.spec_symbol_ranges(), uri)
}

fn diagnosed_ranges_of(info: &LspResponseInfo, uri: &str) -> (r: Vec<Range>)
    ensures
        r@ == diagnosed_ranges(*info, uri@),
{
    let ds = info.diagnostics();
    let mut out: Vec<Range> = Vec::new();
    let mut i: usize = 0;
    assert(ds@.take(0) =~= Seq::<crate::feedback::Diagnostic>::empty());
    while i < ds.len()
        invariant
            ds@ == info.spec_diagnostics(),
            i <= ds@.len(),
            out@ == diagnosed_ranges_in(ds@.take(i as int), uri@),
        decreases ds.len() - i,
    {
        assert(ds@.take(i + 1).drop_last() =~= ds@.take(i as int));
        assert(ds@.take(i + 1).last() == ds@[i as int]);
        if str_eq(ds[i].uri.as_str(), uri) {
            out.push(ds[i].range);
        }
        i = i + 1;
    }
    assert(ds@.take(ds@.len() as int) =~= ds@);
    out
}

fn symbol_ranges_of(info: &LspResponseInfo, uri: &str) -> (r: Vec<Range>)
    ensures
        r@ == reported_symbol_ranges(*info, uri@),
{
    let ss = info.symbol_ranges();
    let mut out: Vec<Range> = Vec::new();
    let mut i: usize = 0;
    assert(ss@.take(0) =~= Seq::<crate::feedback::SymbolRange>::empty());
    while i < ss.len()
        invariant
            ss@ == info.spec_symbol_ranges(),
            i <= ss@.len(),
            out@ == symbol_ranges_in(ss@.take(i as int), uri@),
        decreases ss.len() - i,
    {
        assert(ss@.take(i + 1).drop_last() =~= ss@.take(i as int));
        assert(ss@.take(i + 1).last() == ss@[i as int]);
        if str_eq(ss[i].uri.as_str(), uri) {
            out.push(ss[i].range);
        }
        i = i + 1;
    }
    assert(ss@.take(ss@.len() as int) =~= ss@);
    out
}

/// The starts of the parents of the nodes that the diagnostics published for
/// `uri` point at, in the order of the diagnostics.
pub fn diag_nodes_parent(info: &LspResponseInfo, uri: &str, doc: &TextDocument) -> (r: Vec<Position>)
    ensures
        r@ == parent_starts(doc.nodes@, diagnosed_ranges(*info, uri@)),
{
    let ranges = diagnosed_ranges_of(info, uri);
    let mut out: Vec<Position> = Vec::new();
    let mut i: usize = 0;
    assert(ranges@.take(0) =~= Seq::<Range>::empty());
    while i < ranges.len()
        invariant
            i <= ranges@.len(),
            out@ == parent_starts(doc.nodes@, ranges@.take(i as int)),
        decreases ranges.len() - i,
    {
        let ghost prefix = ranges@.take(i + 1);
        assert(prefix.drop_last() =~= ranges@.take(i as int));
        assert(prefix.last() == ranges@[i as int]);
        match descendant_for_range(&doc.nodes, ranges[i]) {
            Some(n) => {
                proof {
                    lemma_descendant_unique(doc.nodes@, ranges@[i as int], n as int);
                }
                match doc.nodes[n].parent {
                    Some(p) => {
                        if p < doc.nodes.len() {
                            out.push(doc.nodes[p].range.start);
                        }
                    },
                    None => {},
                }
            },
            None => {
                proof {
                    if exists|k: int| is_descendant_for_range(doc.nodes@, ranges@[i as int], k) {
                        let k = choose|k: int| is_descendant_for_range(doc.nodes@, ranges@[i as int], k);
                        assert(range_contains(doc.nodes@[k].range, ranges@[i as int]));
                    }
                }
            },
        }
        i = i + 1;
    }
    assert(ranges@.take(ranges@.len() as int) =~= ranges@);
    out
}

/// The candidate ranges a feedback selection picks from: those the replies
/// recorded for `uri`, none when nothing was recorded.
pub open spec fn diagnosed_candidates(info: Option<LspResponseInfo>, uri: Seq<char>) -> Seq<Range> {
    match info {
        Some(i) => diagnosed_ranges(i, uri),
        None => Seq::empty(),
    }
}

pub open spec fn symbol_candidates(info: Option<LspResponseInfo>, uri: Seq<char>) -> Seq<Range> {
    match info {
        Some(i) => reported_symbol_ranges(i, uri),
        None => Seq::empty(),
    }
}

/// A range picked from `candidates`, or a subtree of the document when there
/// is none to pick.
pub open spec fn picked_or_subtree(candidates: Seq<Range>, doc: TextDocument, r: Range) -> bool {
    &&& candidates.len() > 0 ==> candidates.contains(r)
    &&& candidates.len() == 0 ==> subtree_outcome(doc, r)
}

/// The range of the parent of the deepest node spanning one of `candidates`.
pub open spec fn parent_of_candidate(candidates: Seq<Range>, doc: TextDocument, r: Range) -> bool {
    exists|d: Range, i: int, p: usize|
        #![trigger candidates.contains(d), doc.nodes@[i], doc.nodes@[p as int]]
        candidates.contains(d) && is_descendant_for_range(doc.nodes@, d, i) && doc.nodes@[i].parent
            == Some(p) && p < doc.nodes@.len() && r == doc.nodes@[p as int].range
}

/// Whether a state is the same as another but for its random source.
pub open spec fn only_rand_changed(before: FuzzState, after: FuzzState) -> bool {
    &&& after.response_info == before.response_info
    &&& after.highlight_usage == before.highlight_usage
}

fn choose_range(rand: &mut libafl_bolts::rands::RomuDuoJrRand, ranges: &Vec<Range>) -> (r: Option<Range>)
    ensures
        ranges@.len() == 0 <==> r is None,
        r matches Some(x) ==> ranges@.contains(x),
{
    match rand_choose_index(rand, ranges.len()) {
        Some(i) => {
            assert(ranges@[i as int] == ranges@[i as int]);
            Some(ranges[i])
        },
        None => None,
    }
}

/// A range a server published a diagnostic for in the document `uri`; a
/// subtree of the document when there is none.
pub fn diagnosed_range(state: &mut FuzzState, uri: &str, doc: &TextDocument) -> (r: Range)
    ensures
        only_rand_changed(*old(state), *final(state)),
        picked_or_subtree(diagnosed_candidates(old(state).response_info, uri@), *doc, r),
{
    let candidates = match &state.response_info {
        Some(info) => diagnosed_ranges_of(info, uri),
        None => Vec::new(),
    };
    match choose_range(&mut state.rand, &candidates) {
        Some(range) => range,
        None => subtree_node_type(&mut state.rand, doc),
    }
}

/// A range of a symbol a server reported in the document `uri`; a subtree of
/// the document when there is none.
pub fn symbols_range(state: &mut FuzzState, uri: &str, doc: &TextDocument) -> (r: Range)
    ensures
        only_rand_changed(*old(state), *final(state)),
        picked_or_subtree(symbol_candidates(old(state).response_info, uri@), *doc, r),
{
    let candidates = match &state.response_info {
        Some(info) => symbol_ranges_of(info, uri),
        None => Vec::new(),
    };
    match choose_range(&mut state.rand, &candidates) {
        Some(range) => range,
        None => subtree_node_type(&mut state.rand, doc),
    }
}

/// The range of the parent of the node that a diagnostic of the document
/// `uri` points at; a subtree of the document when there is no diagnostic, or
/// the node found has no parent.
pub fn diagnosed_parent(state: &mut FuzzState, uri: &str, doc: &TextDocument) -> (r: Range)
    ensures
        only_rand_changed(*old(state), *final(state)),
        parent_of_candidate(diagnosed_candidates(old(state).response_info, uri@), *doc, r)
            || subtree_outcome(*doc, r),
        diagnosed_candidates(old(state).response_info, uri@).len() == 0 ==> subtree_outcome(*doc, r),
{
    let candidates = match &state.response_info {
        Some(info) => diagnosed_ranges_of(info, uri),
        None => Vec::new(),
    };
    if let Some(range) = choose_range(&mut state.rand, &candidates) {
        if let Some(i) = descendant_for_range(&doc.nodes, range) {
            if let Some(p) = doc.nodes[i].parent {
                if p < doc.nodes.len() {
                    let r = doc.nodes[p].range;
                    assert(parent_of_candidate(candidates@, *doc, r));
                    return r;
                }
            }
        }
    }
    subtree_node_type(&mut state.rand, doc)
}

/// The ways of choosing a range in a document.
#[derive(Debug, Clone, Copy, PartialEq, Eq)]
pub enum RangeSelectorKind {
    /// The whole document.
    WholeRange,
    /// A random range inside the document's lines.
    RandomValidRange,
    /// A random node of the syntax tree.
    RandomSubtree,
    /// A random node, chosen by node kind first.
    SubtreeNodeType,
    /// From the end of the document to far beyond it.
    AfterRange,
    /// The whole document, backwards.
    InvertedRange,
    /// Coordinates under 256, whatever the document holds.
    RandomInvalidRange,
    /// A range that a diagnostic points at.
    DiagnosedRange,
    /// The parent node of what a diagnostic points at.
    DiagnosedParent,
    /// The range of a reported symbol.
    SymbolsRange,
}

/// What choosing a range of `doc` (named `uri`) with `kind` may give, from
/// the state before the choice.
pub open spec fn range_outcome(
    kind: RangeSelectorKind,
    state: FuzzState,
    uri: Seq<char>,
    doc: TextDocument,
    r: Range,
) -> bool {
    let whole = spec_whole_range(doc_lines(doc));
    match kind {
        RangeSelectorKind::WholeRange => r == whole,
        RangeSelectorKind::RandomValidRange => drawable_valid_range(doc_lines(doc), r),
        RangeSelectorKind::RandomSubtree => subtree_outcome(doc, r),
        RangeSelectorKind::SubtreeNodeType => subtree_outcome(doc, r),
        RangeSelectorKind::AfterRange => r.start == whole.end && r.end == (Position {
            line: 65536,
            character: whole.end.character,
        }),
        RangeSelectorKind::InvertedRange => r.start == whole.end && r.end == whole.start,
        RangeSelectorKind::RandomInvalidRange => r.start.line < 256 && r.start.character < 256
            && r.end.line < 256 && r.end.character < 256,
        RangeSelectorKind::DiagnosedRange => picked_or_subtree(
            diagnosed_candidates(state.response_info, uri),
            doc,
            r,
        ),
        RangeSelectorKind::DiagnosedParent => {
            &&& parent_of_candidate(diagnosed_candidates(state.response_info, uri), doc, r)
                || subtree_outcome(doc, r)
            &&& diagnosed_candidates(state.response_info, uri).len() == 0 ==> subtree_outcome(doc, r)
        },
        RangeSelectorKind::SymbolsRange => picked_or_subtree(
            symbol_candidates(state.response_info, uri),
            doc,
            r,
        ),
    }
}

/// Chooses a range of `doc`, named `uri`, the way `kind` says; a random valid
/// range of a document without lines is `None`.
pub fn select_range(state: &mut FuzzState, kind: RangeSelectorKind, uri: &str, doc: &TextDocument) -> (r:
    Option<Range>)
    ensures
        only_rand_changed(*old(state), *final(state)),
        r is None <==> (kind == RangeSelectorKind::RandomValidRange && doc_lines(*doc).len() == 0),
        r matches Some(x) ==> range_outcome(kind, *old(state), uri@, *doc, x),
{
    match kind {
        RangeSelectorKind::WholeRange => {
            let lines = document_lines(doc);
            Some(whole_range(lines.as_slice()))
        },
        RangeSelectorKind::RandomValidRange => {
            let lines = document_lines(doc);
            if lines.len() == 0 {
                None
            } else {
                Some(random_valid_range(&mut state.rand, lines.as_slice()))
            }
        },
        RangeSelectorKind::RandomSubtree => Some(random_subtree(&mut state.rand, doc)),
        RangeSelectorKind::SubtreeNodeType => Some(subtree_node_type(&mut state.rand, doc)),
        RangeSelectorKind::AfterRange => {
            let lines = document_lines(doc);
            Some(after_range(lines.as_slice()))
        },
        RangeSelectorKind::InvertedRange => {
            let lines = document_lines(doc);
            Some(inverted_range(lines.as_slice()))
        },
        RangeSelectorKind::RandomInvalidRange => Some(random_invalid_range(&mut state.rand, 256)),
        RangeSelectorKind::DiagnosedRange => Some(diagnosed_range(state, uri, doc)),
        RangeSelectorKind::DiagnosedParent => Some(diagnosed_parent(state, uri, doc)),
        RangeSelectorKind::SymbolsRange => Some(symbols_range(state, uri, doc)),
    }
}

/// The same as a document selection: a named document and a range in it.
pub type RangeInDoc = DocumentSelection;

/// Whether `sel` names a source file of `files` and a range that `kind`
/// may choose in it.
pub open spec fn selection_outcome(
    files: Seq<crate::lsp_input::WorkspaceFile>,
    kind: RangeSelectorKind,
    state: FuzzState,
    sel: DocumentSelection,
) -> bool {
    exists|i: int, doc: TextDocument|
        #[trigger] names_source_file(files, i, sel.0.uri@, doc) && range_outcome(kind, state, sel.0.uri@, doc, sel.1)
}

/// When a range selector in a random source file may give nothing: the input
/// has no source file or one whose path makes no URI, or a random valid range
/// is asked of a source file without lines.
pub open spec fn range_in_doc_gives_nothing(input: LspInput, kind: RangeSelectorKind) -> bool {
    !source_files_nameable(input.workspace@) || (kind == RangeSelectorKind::RandomValidRange
        && exists|i: int, doc: TextDocument|
        #![trigger input.workspace@[i], doc_lines(doc)]
        0 <= i < input.workspace@.len() && input.workspace@[i].entry == WorkspaceEntry::SourceFile(doc)
            && doc_lines(doc).len() == 0)
}

/// A range chosen by a range selector in a random source file.
#[derive(Debug, Clone, Copy)]
pub struct RangeInDocGenerator {
    range_selector: RangeSelectorKind,
}

impl RangeInDocGenerator {
    pub closed spec fn selector(&self) -> RangeSelectorKind {
        self.range_selector
    }

    pub fn new(range_selector: RangeSelectorKind) -> (r: Self)
        ensures
            r.selector() == range_selector,
    {
        RangeInDocGenerator { range_selector }
    }
}

impl LspParamsGenerator for RangeInDocGenerator {
    type Output = DocumentSelection;

    open spec fn may_generate(&self, state: FuzzState, input: LspInput, out: DocumentSelection) -> bool {
        selection_outcome(input.workspace@, self.selector(), state, out)
    }

    /// When the input has no source file or one whose path makes no URI, or
    /// when a random valid range is asked of a source file without lines.
    open spec fn may_give_nothing(&self, state: FuzzState, input: LspInput) -> bool {
        range_in_doc_gives_nothing(input, self.selector())
    }

    open spec fn may_fail(&self) -> bool {
        false
    }

    fn generate(&self, state: &mut FuzzState, input: &LspInput) -> (r: Result<
        DocumentSelection,
        GenerationError,
    >)
        ensures
            only_rand_changed(*old(state), *final(state)),
            r matches Ok(sel) ==> selection_outcome(input.workspace@, self.selector(), *old(state), sel),
            r matches Err(e) ==> e is NothingGenerated,
    {
        let ghost before = *state;
        let (uri, doc) = match select_random_document(&mut state.rand, input) {
            Some(chosen) => chosen,
            None => {
                return Err(GenerationError::NothingGenerated);
            },
        };
        let ghost d = *doc;
        let ghost i0 = choose|i: int| names_source_file(input.workspace@, i, uri@, d);
        let ghost mid = *state;
        match select_range(state, self.range_selector, uri.as_str(), doc) {
            Some(range) => {
                assert(range_outcome(self.range_selector, mid, uri@, d, range));
                assert(range_outcome(self.range_selector, before, uri@, d, range));
                let sel = DocumentSelection(TextDocumentIdentifier { uri }, range);
                assert(names_source_file(input.workspace@, i0, sel.0.uri@, d));
                assert(range_outcome(self.range_selector, before, sel.0.uri@, d, sel.1));
                assert(selection_outcome(input.workspace@, self.range_selector, before, sel));
                Ok(sel)
            },
            None => {
                assert(0 <= i0 < input.workspace@.len() && input.workspace@[i0].entry == WorkspaceEntry::SourceFile(d)
                    && doc_lines(d).len() == 0);
                Err(GenerationError::NothingGenerated)
            },
        }
    }
}

} // verus!
