//! Where in a document a message points: positions, ranges, and the
//! generators that choose them.
use libafl_bolts::rands::Rand;
use vstd::prelude::*;

use crate::fuzz_state::FuzzState;
use vstd::slice::slice_subrange;

use crate::fuzz_rand::{rand_below_or_zero, rand_between, rand_choose_index};
use crate::generation::{GenerationError, LspParamsGenerator};
use crate::json_rpc::{find_newline_from, first_newline, lemma_first_newline_bounds, lemma_first_newline_index};
use crate::feedback::LspResponseInfo;
use crate::fuzz_state::{has_group, names_contain, steering_weight, usage_started, use_recorded, HighlightGroupUsage};
use crate::lsp_input::{HighlightCapture, LspInput, TextDocument, WorkspaceEntry, WorkspaceFile};
use crate::text::str_eq;
use crate::uri::{spec_virtual_uri_text, accepted_uri, virtual_uri_for_path};

verus! {

/// A position in a document: zero-based line and character offset.
#[derive(Debug, Clone, Copy, PartialEq, Eq, Structural, Hash, Default)]
pub struct Position {
    pub line: u32,
    pub character: u32,
}

/// A range of a document, from `start` to `end`.
#[derive(Debug, Clone, Copy, PartialEq, Eq, Structural, Hash, Default)]
pub struct Range {
    pub start: Position,
    pub end: Position,
}

/// Names a text document by its URI.
#[derive(Debug, Clone, PartialEq, Eq, Hash)]
pub struct TextDocumentIdentifier {
    pub uri: String,
}

/// A position in a named document.
#[derive(Debug, Clone, PartialEq, Eq, Hash)]
pub struct TextDocumentPositionParams {
    pub text_document: TextDocumentIdentifier,
    pub position: Position,
}

/// A range in a named document.
#[derive(Debug, Clone, PartialEq, Eq, Hash)]
pub struct DocumentSelection(pub TextDocumentIdentifier, pub Range);

// ---------------------------------------------------------------------------
// Lines of a document
// ---------------------------------------------------------------------------

/// Length of the line that ends with the `\n` at `k`, without its line
/// ending (`\n` or `\r\n`).
pub open spec fn line_len_before(content: Seq<u8>, k: int) -> nat {
    if k > 0 && content[k - 1] == 13u8 {
        (k - 1) as nat
    } else {
        k as nat
    }
}

/// The lengths of the lines of `content`, as `str::lines` splits them: at `\n`
/// or `\r\n`, which are not part of the line; a final line ending is optional.
pub open spec fn spec_line_lengths(content: Seq<u8>) -> Seq<nat>
    decreases content.len(),
{
    if content.len() == 0 {
        Seq::empty()
    } else {
        match first_newline(content) {
            Some(k) => if 0 <= k < content.len() {
                seq![line_len_before(content, k)] + spec_line_lengths(content.skip(k + 1))
            } else {
                Seq::empty()
            },
            None => seq![content.len()],
        }
    }
}

/// The lengths of the lines of a document's content.
pub fn line_lengths(content: &[u8]) -> (r: Vec<usize>)
    ensures
        r@.map_values(|n: usize| n as nat) == spec_line_lengths(content@),
{
    let mut out: Vec<usize> = Vec::new();
    let mut pos: usize = 0;
    assert(content@.skip(0) =~= content@);
    while pos < content.len()
        invariant
            pos <= content.len(),
            spec_line_lengths(content@) == out@.map_values(|n: usize| n as nat) + spec_line_lengths(
                content@.skip(pos as int),
            ),
        decreases content.len() - pos,
    {
        let ghost rest = content@.skip(pos as int);
        let k = find_newline_from(content, pos);
        proof {
            lemma_first_newline_index(rest, k - pos);
            lemma_first_newline_bounds(rest);
        }
        if k < content.len() {
            let len = if k > pos && content[k - 1] == 13u8 {
                k - 1 - pos
            } else {
                k - pos
            };
            assert(len as nat == line_len_before(rest, (k - pos) as int));
            let ghost before = out@;
            out.push(len);
            assert(out@.map_values(|n: usize| n as nat) =~= before.map_values(|n: usize| n as nat)
                + seq![len as nat]);
            assert(rest.skip(k - pos + 1) =~= content@.skip(k + 1));
            pos = k + 1;
        } else {
            let ghost before = out@;
            out.push(k - pos);
            assert(out@.map_values(|n: usize| n as nat) =~= before.map_values(|n: usize| n as nat)
                + seq![(k - pos) as nat]);
            assert(content@.skip(content.len() as int) =~= Seq::<u8>::empty());
            pos = content.len();
        }
    }
    assert(content@.skip(pos as int) =~= Seq::<u8>::empty());
    assert(out@.map_values(|n: usize| n as nat) + Seq::<nat>::empty() =~= out@.map_values(
        |n: usize| n as nat,
    ));
    out
}

// ---------------------------------------------------------------------------
// Ranges derived from the lines
// ---------------------------------------------------------------------------

/// From the start of the document to the end of its last line; an empty
/// document gives the empty range at the origin.
pub open spec fn spec_whole_range(lines: Seq<usize>) -> Range {
    if lines.len() == 0 {
        Range { start: Position { line: 0, character: 0 }, end: Position { line: 0, character: 0 } }
    } else {
        Range {
            start: Position { line: 0, character: 0 },
            end: Position {
                line: (lines.len() - 1) as u32,
                character: lines[lines.len() - 1] as u32,
            },
        }
    }
}

pub fn whole_range(lines: &[usize]) -> (r: Range)
    ensures
        r == spec_whole_range(lines@),
{
    let start = Position { line: 0, character: 0 };
    if lines.len() == 0 {
        Range { start, end: Position { line: 0, character: 0 } }
    } else {
        let last = lines.len() - 1;
        Range { start, end: Position { line: last as u32, character: lines[last] as u32 } }
    }
}

/// From the end of the document to a line far beyond it.
pub fn after_range(lines: &[usize]) -> (r: Range)
    ensures
        r.start == spec_whole_range(lines@).end,
        r.end == (Position { line: 65536, character: spec_whole_range(lines@).end.character }),
{
    let whole = whole_range(lines);
    Range { start: whole.end, end: Position { line: 65536, character: whole.end.character } }
}

/// The whole document, backwards.
pub fn inverted_range(lines: &[usize]) -> (r: Range)
    ensures
        r.start == spec_whole_range(lines@).end,
        r.end == spec_whole_range(lines@).start,
{
    let whole = whole_range(lines);
    Range { start: whole.end, end: whole.start }
}

/// A range inside the document: both ends on existing lines, the end line
/// not before the start line, each character under its line's length (or
/// zero on an empty line).
pub open spec fn valid_range_in(lines: Seq<usize>, r: Range) -> bool {
    &&& (r.start.line as int) < lines.len()
    &&& (r.end.line as int) < lines.len()
    &&& r.start.line <= r.end.line
    &&& (r.start.character == 0 || (r.start.character as int) < lines[r.start.line as int])
    &&& (r.end.character == 0 || (r.end.character as int) < lines[r.end.line as int])
}

/// Whether `r` is a range that `random_valid_range` can draw: lines
/// `s <= e` of the document and characters `sc`, `ec` under the lengths of
/// those lines (zero on an empty line), each cast to `u32` as positions are.
pub open spec fn drawable_valid_range(lines: Seq<usize>, r: Range) -> bool {
    exists|s: usize, e: usize, sc: usize, ec: usize|
        #![trigger lines[s as int], lines[e as int], (sc as u32), (ec as u32)]
        s <= e < lines.len() && (sc == 0 || sc < lines[s as int]) && (ec == 0 || ec < lines[e as int])
            && r == (Range {
            start: Position { line: s as u32, character: sc as u32 },
            end: Position { line: e as u32, character: ec as u32 },
        })
}

/// A random range inside a document that has at least one line.
pub fn random_valid_range(rand: &mut libafl_bolts::rands::RomuDuoJrRand, lines: &[usize]) -> (r: Range)
    requires
        lines@.len() > 0,
    ensures
        drawable_valid_range(lines@, r),
        lines@.len() <= u32::MAX && (forall|i: int| 0 <= i < lines@.len() ==> lines@[i] <= u32::MAX)
            ==> valid_range_in(lines@, r),
{
    let start_line_idx = rand_below_or_zero(rand, lines.len());
    let start_line = lines[start_line_idx];
    let end_line_idx = rand_between(rand, start_line_idx, lines.len() - 1);
    let end_line = lines[end_line_idx];
    let sc = rand_below_or_zero(rand, start_line);
    let ec = rand_below_or_zero(rand, end_line);
    let start = Position { line: start_line_idx as u32, character: sc as u32 };
    let end = Position { line: end_line_idx as u32, character: ec as u32 };
    let r = Range { start, end };
    assert(drawable_valid_range(lines@, r)) by {
        assert(lines@[start_line_idx as int] == start_line);
        assert(lines@[end_line_idx as int] == end_line);
    }
    r
}

/// A range with each coordinate drawn under `max`, whatever the document holds.
pub fn random_invalid_range(rand: &mut libafl_bolts::rands::RomuDuoJrRand, max: usize) -> (r: Range)
    requires
        max <= u32::MAX,
    ensures
        max == 0 ==> r == Range::default_spec(),
        max > 0 ==> r.start.line < max && r.start.character < max && r.end.line < max
            && r.end.character < max,
{
    let start = Position {
        line: rand_below_or_zero(rand, max) as u32,
        character: rand_below_or_zero(rand, max) as u32,
    };
    let end = Position {
        line: rand_below_or_zero(rand, max) as u32,
        character: rand_below_or_zero(rand, max) as u32,
    };
    Range { start, end }
}

impl Range {
    pub open spec fn default_spec() -> Range {
        Range { start: Position { line: 0, character: 0 }, end: Position { line: 0, character: 0 } }
    }
}

/// `value` as a `u32`, or `u32::MAX` when it does not fit.
pub fn usize_to_u32(value: usize) -> (r: u32)
    ensures
        value <= u32::MAX ==> r == value,
        value > u32::MAX ==> r == u32::MAX,
{
    if value <= u32::MAX as usize {
        value as u32
    } else {
        u32::MAX
    }
}

// ---------------------------------------------------------------------------
// Positions
// ---------------------------------------------------------------------------

/// Chooses a position in a document.
pub trait PositionSelector {
    /// Whether `p` is a position this selector may choose in `doc`.
    spec fn may_select(&self, doc: TextDocument, p: Position) -> bool;

    /// Whether this selector may choose nothing in `doc` from the state `state`.
    spec fn may_select_nothing(&self, state: FuzzState, doc: TextDocument) -> bool;

    fn select_position(
        &self,
        state: &mut FuzzState,
        doc: &TextDocument,
    ) -> (r: Option<Position>)
        ensures
            final(state).response_info == old(state).response_info,
            r matches Some(p) ==> self.may_select(*doc, p),
            r is None ==> self.may_select_nothing(*old(state), *doc),
    ;
}

/// Any position up to `rand_max` on both coordinates.
#[derive(Debug, Clone, Copy)]
pub struct RandomPosition {
    rand_max: usize,
}

impl RandomPosition {
    pub closed spec fn rand_max(&self) -> usize {
        self.rand_max
    }

    pub fn new(rand_max: usize) -> (r: Self)
        ensures
            r.rand_max() == rand_max,
    {
        RandomPosition { rand_max }
    }
}

impl PositionSelector for RandomPosition {
    open spec fn may_select(&self, doc: TextDocument, p: Position) -> bool {
        p.line <= self.rand_max() && p.character <= self.rand_max()
    }

    /// Only when a drawn coordinate may not fit in `u32`.
    open spec fn may_select_nothing(&self, state: FuzzState, doc: TextDocument) -> bool {
        self.rand_max() > u32::MAX
    }

    fn select_position(
        &self,
        state: &mut FuzzState,
        doc: &TextDocument,
    ) -> (r: Option<Position>)
        ensures
            r matches Some(p) ==> p.line <= self.rand_max() && p.character <= self.rand_max(),
            self.rand_max() <= u32::MAX ==> r is Some,
    {
        let line = rand_between(&mut state.rand, 0, self.rand_max);
        if line > u32::MAX as usize {
            return None;
        }
        let character = rand_between(&mut state.rand, 0, self.rand_max);
        if character > u32::MAX as usize {
            return None;
        }
        Some(Position { line: line as u32, character: character as u32 })
    }
}

/// The number of positions on the first `n` lines of lengths `lines`.
pub open spec fn sum_to(lines: Seq<nat>, n: int) -> nat
    decreases n,
{
    if n <= 0 {
        0
    } else {
        sum_to(lines, n - 1) + lines[n - 1]
    }
}

/// The lengths of `lines` as natural numbers.
pub open spec fn nat_lengths(lines: Seq<usize>) -> Seq<nat> {
    lines.map_values(|n: usize| n as nat)
}

proof fn lemma_sum_mono(lines: Seq<nat>, i: int, n: int)
    requires
        0 <= i <= n,
    ensures
        sum_to(lines, i) <= sum_to(lines, n),
    decreases n - i,
{
    if i < n {
        lemma_sum_mono(lines, i, n - 1);
    }
}

proof fn lemma_sum_zero(lines: Seq<nat>, n: int)
    requires
        0 <= n <= lines.len(),
        forall|i: int| 0 <= i < n ==> lines[i] == 0,
    ensures
        sum_to(lines, n) == 0,
    decreases n,
{
    if n > 0 {
        lemma_sum_zero(lines, n - 1);
    }
}

proof fn lemma_sum_cons(x: nat, rest: Seq<nat>, n: int)
    requires
        0 <= n <= rest.len(),
    ensures
        sum_to(seq![x] + rest, n + 1) == x + sum_to(rest, n),
    decreases n,
{
    let s = seq![x] + rest;
    assert(sum_to(s, n + 1) == sum_to(s, n) + s[n]);
    if n > 0 {
        lemma_sum_cons(x, rest, n - 1);
        assert(s[n] == rest[n - 1]);
        assert(sum_to(rest, n) == sum_to(rest, n - 1) + rest[n - 1]);
    } else {
        assert(s[0] == x);
        assert(sum_to(s, 0) == 0);
        assert(sum_to(rest, 0) == 0);
    }
}

/// A document has no more positions on its lines than bytes.
proof fn lemma_line_lengths_sum(content: Seq<u8>)
    ensures
        sum_to(spec_line_lengths(content), spec_line_lengths(content).len() as int) <= content.len(),
    decreases content.len(),
{
    if content.len() > 0 {
        lemma_first_newline_bounds(content);
        match first_newline(content) {
            Some(k) => if 0 <= k < content.len() {
                let rest = content.skip(k + 1);
                lemma_line_lengths_sum(rest);
                lemma_sum_cons(line_len_before(content, k), spec_line_lengths(rest), spec_line_lengths(rest).len() as int);
                assert((seq![line_len_before(content, k)] + spec_line_lengths(rest)).len() == spec_line_lengths(rest).len() + 1);
            },
            None => {
                let one = seq![content.len()];
                assert(sum_to(one, 1) == sum_to(one, 0) + one[0]);
            },
        }
    }
}

/// The number of positions on the lines of lengths `lines`.
fn line_total(lines: &Vec<usize>) -> (t: usize)
    requires
        sum_to(nat_lengths(lines@), lines@.len() as int) <= usize::MAX,
    ensures
        t == sum_to(nat_lengths(lines@), lines@.len() as int),
{
    let ghost ls = nat_lengths(lines@);
    let mut t: usize = 0;
    let mut i: usize = 0;
    while i < lines.len()
        invariant
            i <= lines@.len(),
            ls == nat_lengths(lines@),
            sum_to(ls, lines@.len() as int) <= usize::MAX,
            t == sum_to(ls, i as int),
        decreases lines.len() - i,
    {
        proof {
            lemma_sum_mono(ls, i + 1, lines@.len() as int);
        }
        t = t + lines[i];
        i = i + 1;
    }
    t
}

/// The position `(line, character)` that is number `index` when the
/// positions of the lines are counted in order, line by line.
pub fn position_at(lines: &Vec<usize>, index: usize) -> (r: (usize, usize))
    requires
        index < sum_to(nat_lengths(lines@), lines@.len() as int),
    ensures
        r.0 < lines@.len(),
        sum_to(nat_lengths(lines@), r.0 as int) <= index,
        r.1 == index - sum_to(nat_lengths(lines@), r.0 as int),
        r.1 < lines@[r.0 as int],
{
    let ghost ls = nat_lengths(lines@);
    let n = lines.len();
    let mut line: usize = 0;
    let mut before: usize = 0;
    proof {
        if n == 0 {
            assert(false);
        }
    }
    while index - before >= lines[line]
        invariant
            ls == nat_lengths(lines@),
            n == lines@.len(),
            line < n,
            before == sum_to(ls, line as int),
            before <= index,
            index < sum_to(ls, n as int),
        decreases n - line,
    {
        before = before + lines[line];
        proof {
            if line + 1 >= n {
                assert(sum_to(ls, n as int) == before);
                assert(false);
            }
        }
        line = line + 1;
    }
    (line, index - before)
}

/// A position on a character of the document./// A position on a character of the document.
#[derive(Debug, Clone, Copy)]
pub struct ValidPosition;

impl ValidPosition {
    pub fn new() -> (r: Self) {
        ValidPosition
    }
}

/// Some line has a character, and every position fits in `u32`.
pub open spec fn positions_fit(lines: Seq<nat>) -> bool {
    &&& exists|i: int| 0 <= i < lines.len() && lines[i] > 0
    &&& lines.len() <= u32::MAX + 1
    &&& forall|i: int| 0 <= i < lines.len() ==> lines[i] <= u32::MAX + 1
}

/// `p` lies on a character of `doc`.
pub open spec fn on_a_character(doc: TextDocument, p: Position) -> bool {
    let lines = spec_line_lengths(doc.content@);
    &&& (p.line as int) < lines.len()
    &&& (p.character as int) < lines[p.line as int]
}

impl PositionSelector for ValidPosition {
    open spec fn may_select(&self, doc: TextDocument, p: Position) -> bool {
        on_a_character(doc, p)
    }

    /// When the document has no character, or a line number or length that
    /// may not fit in `u32`.
    open spec fn may_select_nothing(&self, state: FuzzState, doc: TextDocument) -> bool {
        !positions_fit(spec_line_lengths(doc.content@))
    }

    fn select_position(
        &self,
        state: &mut FuzzState,
        doc: &TextDocument,
    ) -> (r: Option<Position>)
        ensures
            r matches Some(p) ==> {
                let lines = spec_line_lengths(doc.content@);
                &&& (p.line as int) < lines.len()
                &&& (p.character as int) < lines[p.line as int]
            },
            ({
                let lines = spec_line_lengths(doc.content@);
                forall|i: int| 0 <= i < lines.len() ==> lines[i] == 0
            }) ==> r is None,
            positions_fit(spec_line_lengths(doc.content@)) ==> r is Some,
    {
        let lines = line_lengths(doc.content.as_slice());
        let ghost spec_lines = spec_line_lengths(doc.content@);
        assert(lines@.len() == spec_lines.len());
        assert(nat_lengths(lines@) == spec_lines);
        proof {
            lemma_line_lengths_sum(doc.content@);
        }
        assert(doc.content@.len() == doc.content.len());
        let total = line_total(&lines);
        proof {
            if forall|i: int| 0 <= i < spec_lines.len() ==> spec_lines[i] == 0 {
                lemma_sum_zero(spec_lines, spec_lines.len() as int);
            }
            if exists|i: int| 0 <= i < spec_lines.len() && spec_lines[i] > 0 {
                let i = choose|i: int| 0 <= i < spec_lines.len() && spec_lines[i] > 0;
                lemma_sum_mono(spec_lines, i + 1, spec_lines.len() as int);
            }
        }
        let drawn = match rand_choose_index(&mut state.rand, total) {
            Some(index) => Some(position_at(&lines, index)),
            None => None,
        };
        match drawn {
            Some((line, character)) => {
                assert(lines@[line as int] as nat == spec_lines[line as int]);
                if line > u32::MAX as usize || character > u32::MAX as usize {
                    None
                } else {
                    Some(Position { line: line as u32, character: character as u32 })
                }
            },
            None => None,
        }
    }
}

/// The start of a node, chosen by first choosing a node signature, then a
/// node with that signature.
#[derive(Debug, Clone, Copy)]
pub struct NodeTypeBalancingSelection;

impl NodeTypeBalancingSelection {
    pub fn new() -> (r: Self) {
        NodeTypeBalancingSelection
    }
}

/// `p` is the start of a node with some signature.
pub open spec fn a_node_signature_start(doc: TextDocument, p: Position) -> bool {
    exists|g: int, i: int|
        0 <= g < doc.node_signatures@.len() && 0 <= i < doc.node_signatures@[g]@.len()
            && p == #[trigger] doc.node_signatures@[g]@[i]
}

impl PositionSelector for NodeTypeBalancingSelection {
    open spec fn may_select(&self, doc: TextDocument, p: Position) -> bool {
        a_node_signature_start(doc, p)
    }

    /// When the document has no node signature, or one without nodes.
    open spec fn may_select_nothing(&self, state: FuzzState, doc: TextDocument) -> bool {
        doc.node_signatures@.len() == 0 || exists|g: int|
            0 <= g < doc.node_signatures@.len() && (#[trigger] doc.node_signatures@[g])@.len() == 0
    }

    fn select_position(&self, state: &mut FuzzState, doc: &TextDocument) -> (r: Option<Position>)
        ensures
            final(state).response_info == old(state).response_info,
            final(state).highlight_usage == old(state).highlight_usage,
            r matches Some(p) ==> exists|g: int, i: int|
                0 <= g < doc.node_signatures@.len() && 0 <= i < doc.node_signatures@[g]@.len()
                    && p == #[trigger] doc.node_signatures@[g]@[i],
            doc.node_signatures@.len() == 0 ==> r is None,
    {
        let g = match rand_choose_index(&mut state.rand, doc.node_signatures.len()) {
            Some(g) => g,
            None => {
                return None;
            },
        };
        let group = &doc.node_signatures[g];
        match rand_choose_index(&mut state.rand, group.len()) {
            Some(i) => {
                let p = group[i];
                assert(p == doc.node_signatures@[g as int]@[i as int]);
                Some(p)
            },
            None => {
                assert(doc.node_signatures@[g as int]@.len() == 0);
                None
            },
        }
    }
}

/// The start of a highlight capture, steering towards the highlight groups
/// that were chosen least often so far.
#[derive(Debug, Clone)]
pub struct HighlightSteer {
    group_names: Vec<String>,
}

impl HighlightSteer {
    pub closed spec fn spec_group_names(&self) -> Seq<String> {
        self.group_names@
    }

    /// A selector whose usage statistics start with `group_names`.
    pub fn new(group_names: Vec<String>) -> (r: Self)
        ensures
            r.spec_group_names() == group_names@,
    {
        HighlightSteer { group_names }
    }
}

/// The start positions of the captures of `group`, in order.
pub open spec fn captures_of(highlights: Seq<HighlightCapture>, group: Seq<char>) -> Seq<Position>
    decreases highlights.len(),
{
    if highlights.len() == 0 {
        Seq::empty()
    } else {
        let rest = captures_of(highlights.drop_last(), group);
        if highlights.last().group@ == group {
            rest.push(highlights.last().start)
        } else {
            rest
        }
    }
}

proof fn lemma_captures_of_member(highlights: Seq<HighlightCapture>, group: Seq<char>, p: Position)
    requires
        captures_of(highlights, group).contains(p),
    ensures
        exists|i: int| 0 <= i < highlights.len() && (#[trigger] highlights[i]).start == p && highlights[i].group@ == group,
    decreases highlights.len(),
{
    let rest = captures_of(highlights.drop_last(), group);
    if rest.contains(p) {
        lemma_captures_of_member(highlights.drop_last(), group, p);
        let i = choose|i: int| 0 <= i < highlights.drop_last().len() && (#[trigger] highlights.drop_last()[i]).start == p && highlights.drop_last()[i].group@ == group;
        assert(highlights[i] == highlights.drop_last()[i]);
    } else {
        assert(highlights.last().start == p);
        assert(highlights[highlights.len() - 1] == highlights.last());
    }
}

fn captures_in(highlights: &Vec<HighlightCapture>, group: &str) -> (r: Vec<Position>)
    ensures
        r@ == captures_of(highlights@, group@),
{
    let mut out: Vec<Position> = Vec::new();
    let mut i: usize = 0;
    assert(highlights@.take(0) =~= Seq::<HighlightCapture>::empty());
    while i < highlights.len()
        invariant
            i <= highlights@.len(),
            out@ == captures_of(highlights@.take(i as int), group@),
        decreases highlights.len() - i,
    {
        assert(highlights@.take(i + 1).drop_last() =~= highlights@.take(i as int));
        assert(highlights@.take(i + 1).last() == highlights@[i as int]);
        if str_eq(highlights[i].group.as_str(), group) {
            out.push(highlights[i].start);
        }
        i = i + 1;
    }
    assert(highlights@.take(highlights@.len() as int) =~= highlights@);
    out
}

/// The usage statistics steering starts from: those of the state, or, when it
/// has none, new ones of `names`.
pub open spec fn steering_from(start: Seq<(String, usize)>, usage: Option<HighlightGroupUsage>, names: Seq<String>) -> bool {
    match usage {
        Some(u) => start == u.entries(),
        None => usage_started(start, names),
    }
}

/// Steering to `p` by group `g` of `start`: a rarely used group (one of the
/// greatest weight, or any when all weigh nothing) among whose captures
/// `p` starts, and whose use is counted in `after`.
pub open spec fn steered_by(start: Seq<(String, usize)>, after: Seq<(String, usize)>, highlights: Seq<HighlightCapture>, p: Position, g: int) -> bool {
    &&& 0 <= g < start.len()
    &&& steering_weight(start, g) > 0 || (forall|j: int| 0 <= j < start.len() ==> steering_weight(start, j) == 0)
    &&& captures_of(highlights, start[g].0@).contains(p)
    &&& use_recorded(start, after, start[g].0@)
}

/// The outcome of steering from `start`: with no position the statistics
/// stay as they were; with one, it was steered to by some group.
pub open spec fn steered(start: Seq<(String, usize)>, after: Seq<(String, usize)>, highlights: Seq<HighlightCapture>, r: Option<Position>) -> bool {
    &&& r is None ==> after == start
    &&& r is Some ==> exists|g: int| #[trigger] steered_by(start, after, highlights, r->0, g)
}

proof fn lemma_steered_some(start: Seq<(String, usize)>, after: Seq<(String, usize)>, highlights: Seq<HighlightCapture>, p: Position, g: int)
    requires
        steered_by(start, after, highlights, p, g),
    ensures
        steered(start, after, highlights, Some(p)),
{
    let r = Some(p);
    assert(r->0 == p);
}

/// A copy of each name.
fn clone_names(names: &Vec<String>) -> (r: Vec<String>)
    ensures
        r@.len() == names@.len(),
        forall|i: int| 0 <= i < names@.len() ==> (#[trigger] r@[i])@ == names@[i]@,
{
    let mut out: Vec<String> = Vec::new();
    let mut i: usize = 0;
    while i < names.len()
        invariant
            i <= names@.len(),
            out@.len() == i,
            forall|j: int| 0 <= j < i ==> (#[trigger] out@[j])@ == names@[j]@,
        decreases names.len() - i,
    {
        out.push(names[i].clone());
        i = i + 1;
    }
    out
}

/// `p` is the start of a highlight capture.
pub open spec fn a_capture_start(doc: TextDocument, p: Position) -> bool {
    exists|i: int| 0 <= i < doc.highlights@.len() && (#[trigger] doc.highlights@[i]).start == p
}

impl PositionSelector for HighlightSteer {
    open spec fn may_select(&self, doc: TextDocument, p: Position) -> bool {
        a_capture_start(doc, p)
    }

    /// When the statistics it steers from have no group, or a group without
    /// captures in the document.
    open spec fn may_select_nothing(&self, state: FuzzState, doc: TextDocument) -> bool {
        exists|start: Seq<(String, usize)>| #[trigger] steering_from(start, state.highlight_usage, self.spec_group_names())
            && (start.len() == 0 || exists|g: int|
            0 <= g < start.len() && captures_of(doc.highlights@, (#[trigger] start[g]).0@).len() == 0)
    }

    /// Starts the usage statistics when there are none, chooses a rarely used
    /// group, then one of its captures in the document; the group's use is
    /// counted once a position is found.
    fn select_position(&self, state: &mut FuzzState, doc: &TextDocument) -> (r: Option<Position>)
        ensures
            final(state).response_info == old(state).response_info,
            final(state).highlight_usage is Some,
            r matches Some(p) ==> exists|i: int|
                0 <= i < doc.highlights@.len() && (#[trigger] doc.highlights@[i]).start == p,
            exists|start: Seq<(String, usize)>| #[trigger] steering_from(
                start,
                old(state).highlight_usage,
                self.spec_group_names(),
            ) && steered(start, final(state).highlight_usage->0.entries(), doc.highlights@, r),
    {
        if state.highlight_usage.is_none() {
            let names = clone_names(&self.group_names);
            let ghost copied = names@;
            state.highlight_usage = Some(HighlightGroupUsage::new(names));
            proof {
                let e = state.highlight_usage->0.entries();
                let ns = self.spec_group_names();
                assert forall|i: int| 0 <= i < ns.len() implies has_group(e, #[trigger] ns[i]@) by {
                    assert(has_group(e, copied[i]@));
                }
                assert forall|j: int| 0 <= j < e.len() implies names_contain(ns, #[trigger] e[j].0@) by {
                    assert(names_contain(copied, e[j].0@));
                    let k = choose|k: int| 0 <= k < copied.len() && copied[k]@ == e[j].0@;
                    assert(ns[k]@ == e[j].0@);
                }
            }
        }
        let ghost start = state.highlight_usage->0.entries();
        assert(steering_from(start, old(state).highlight_usage, self.spec_group_names()));
        let (g, chosen): (usize, String) = match &state.highlight_usage {
            Some(usage) => match usage.choose_rare_group(&mut state.rand) {
                Some(i) => (i, usage.as_slice()[i].0.clone()),
                None => {
                    assert(steered(start, state.highlight_usage->0.entries(), doc.highlights@, None));
                    assert(steering_from(start, old(state).highlight_usage, self.spec_group_names()));
                    return None;
                },
            },
            None => {
                return None;
            },
        };
        assert(chosen@ == start[g as int].0@);
        let captures = captures_in(&doc.highlights, chosen.as_str());
        let position = match rand_choose_index(&mut state.rand, captures.len()) {
            Some(k) => {
                let p = captures[k];
                proof {
                    assert(captures@[k as int] == p);
                    lemma_captures_of_member(doc.highlights@, chosen@, p);
                }
                p
            },
            None => {
                assert(steered(start, state.highlight_usage->0.entries(), doc.highlights@, None));
                assert(captures_of(doc.highlights@, start[g as int].0@).len() == 0);
                assert(steering_from(start, old(state).highlight_usage, self.spec_group_names()));
                return None;
            },
        };
        match &mut state.highlight_usage {
            Some(usage) => usage.record_use(chosen.as_str()),
            None => {},
        }
        proof {
            lemma_steered_some(start, state.highlight_usage->0.entries(), doc.highlights@, position, g as int);
        }
        Some(position)
    }
}

/// A position taken from what the server replied to the test case: the
/// candidates that `position_selector` finds in a random source file.
#[verifier::reject_recursive_types(F)]
pub struct FeedbackPositionsGenerator<F: Fn(&LspResponseInfo, &str, &TextDocument) -> Vec<Position>> {
    position_selector: F,
}

impl<F: Fn(&LspResponseInfo, &str, &TextDocument) -> Vec<Position>> FeedbackPositionsGenerator<F> {
    #[verifier::type_invariant]
    spec fn selector_total(self) -> bool {
        forall|info: &LspResponseInfo, uri: &str, doc: &TextDocument| call_requires(self.position_selector, (info, uri, doc))
    }

    pub closed spec fn selector(&self) -> F {
        self.position_selector
    }

    /// A generator that draws from the candidates of `position_selector`,
    /// which must accept every argument.
    pub fn new(position_selector: F) -> (r: Self)
        requires
            forall|info: &LspResponseInfo, uri: &str, doc: &TextDocument| call_requires(position_selector, (info, uri, doc)),
        ensures
            r.selector() == position_selector,
    {
        FeedbackPositionsGenerator { position_selector }
    }
}

impl<F: Fn(&LspResponseInfo, &str, &TextDocument) -> Vec<Position>> LspParamsGenerator for FeedbackPositionsGenerator<F> {
    type Output = TextDocumentPositionParams;

    /// A position in a source file of the input.
    open spec fn may_generate(&self, state: FuzzState, input: LspInput, out: TextDocumentPositionParams) -> bool {
        names_a_source_file(input.workspace@, out.text_document.uri@)
    }

    /// When the replies are unknown, the input has no source file or one whose
    /// path makes no URI, or the position selector may find no candidate in
    /// one of its source files.
    open spec fn may_give_nothing(&self, state: FuzzState, input: LspInput) -> bool {
        ||| state.response_info is None
        ||| !source_files_nameable(input.workspace@)
        ||| exists|uri: &str, doc: &TextDocument, points: Vec<Position>|
            #[trigger] call_ensures(self.selector(), (&state.response_info->0, uri, doc), points)
                && (exists|i: int| names_source_file(input.workspace@, i, uri@, *doc)) && points@.len() == 0
    }

    open spec fn may_fail(&self) -> bool {
        false
    }

    fn generate(&self, state: &mut FuzzState, input: &LspInput) -> (r: Result<
        TextDocumentPositionParams,
        GenerationError,
    >)
        ensures
            final(state).response_info == old(state).response_info,
            final(state).highlight_usage == old(state).highlight_usage,
            r matches Ok(p) ==> names_a_source_file(input.workspace@, p.text_document.uri@),
            r matches Ok(p) ==> exists|uri: &str, doc: &TextDocument, points: Vec<Position>|
                uri@ == p.text_document.uri@ && #[trigger] call_ensures(
                    self.selector(),
                    (&old(state).response_info->0, uri, doc),
                    points,
                ) && points@.contains(p.position),
            old(state).response_info is None ==> r matches Err(GenerationError::NothingGenerated),
            r matches Err(e) ==> e is NothingGenerated,
    {
        proof {
            use_type_invariant(self);
        }
        if state.response_info.is_none() {
            return Err(GenerationError::NothingGenerated);
        }
        let (uri, doc) = match select_random_document(&mut state.rand, input) {
            Some(chosen) => chosen,
            None => {
                return Err(GenerationError::NothingGenerated);
            },
        };
        let ghost d = *doc;
        let ghost i0 = choose|i: int| names_source_file(input.workspace@, i, uri@, d);
        let uri_str: &str = uri.as_str();
        let ghost asked = uri_str;
        let points = match &state.response_info {
            Some(info) => (self.position_selector)(info, uri_str, doc),
            None => {
                return Err(GenerationError::NothingGenerated);
            },
        };
        assert(call_ensures(self.selector(), (&old(state).response_info->0, asked, doc), points));
        match rand_choose_index(&mut state.rand, points.len()) {
            Some(k) => {
                let p = TextDocumentPositionParams {
                    text_document: TextDocumentIdentifier { uri },
                    position: points[k],
                };
                assert(names_source_file(input.workspace@, i0, p.text_document.uri@, d));
                assert(names_a_source_file(input.workspace@, p.text_document.uri@));
                let r = Ok(p);
                assert(r matches Ok(x) && names_a_source_file(input.workspace@, x.text_document.uri@));
                assert(points@[k as int] == p.position);
                assert(asked@ == p.text_document.uri@);
                r
            },
            None => {
                assert(names_source_file(input.workspace@, i0, asked@, d));
                assert(points@.len() == 0);
                Err(GenerationError::NothingGenerated)
            },
        }
    }
}

// ---------------------------------------------------------------------------
// Choosing a document
// ---------------------------------------------------------------------------

/// Whether `uri` names source file `i` of the workspace.
pub open spec fn names_source_file(files: Seq<WorkspaceFile>, i: int, uri: Seq<char>, doc: TextDocument) -> bool {
    &&& 0 <= i < files.len()
    &&& files[i].entry == WorkspaceEntry::SourceFile(doc)
    &&& uri == spec_virtual_uri_text(files[i].path@)
    &&& accepted_uri(uri)
}

/// Whether `uri` names some source file of the workspace.
pub open spec fn names_a_source_file(files: Seq<WorkspaceFile>, uri: Seq<char>) -> bool {
    exists|i: int, doc: TextDocument| names_source_file(files, i, uri, doc)
}

/// The workspace holds a source file, and the path of each source file
/// makes a valid virtual URI.
pub open spec fn source_files_nameable(files: Seq<WorkspaceFile>) -> bool {
    &&& exists|i: int| 0 <= i < files.len() && (#[trigger] files[i]).entry is SourceFile
    &&& forall|i: int|
        0 <= i < files.len() && (#[trigger] files[i]).entry is SourceFile ==> accepted_uri(
            spec_virtual_uri_text(files[i].path@),
        )
}

/// A random source file of the input, with its virtual URI; `None` when the
/// workspace holds no source file, or when the chosen file's path does not
/// make a URI.
pub fn select_random_document<'a>(
    rand: &mut libafl_bolts::rands::RomuDuoJrRand,
    input: &'a LspInput,
) -> (r: Option<(String, &'a TextDocument)>)
    ensures
        r matches Some((uri, doc)) ==> exists|i: int| names_source_file(input.workspace@, i, uri@, *doc),
        (forall|i: int| 0 <= i < input.workspace@.len() ==> input.workspace@[i].entry is Skeleton)
            ==> r is None,
        source_files_nameable(input.workspace@) ==> r is Some,
{
    let mut sources: Vec<usize> = Vec::new();
    let mut i: usize = 0;
    while i < input.workspace.len()
        invariant
            i <= input.workspace@.len(),
            forall|k: int|
                0 <= k < sources@.len() ==> #[trigger] sources@[k] < input.workspace@.len()
                    && input.workspace@[sources@[k] as int].entry is SourceFile,
            sources@.len() > 0 ==> exists|j: int|
                0 <= j < input.workspace@.len() && input.workspace@[j].entry is SourceFile,
            (exists|j: int| 0 <= j < i && (#[trigger] input.workspace@[j]).entry is SourceFile) ==> sources@.len() > 0,
        decreases input.workspace.len() - i,
    {
        if input.workspace[i].entry.as_source_file().is_some() {
            sources.push(i);
            assert(sources@[sources@.len() - 1] == i);
        }
        i = i + 1;
    }
    let k = match rand_choose_index(rand, sources.len()) {
        Some(k) => k,
        None => {
            return None;
        },
    };
    let idx = sources[k];
    let file = &input.workspace[idx];
    match file.entry.as_source_file() {
        Some(doc) => match virtual_uri_for_path(file.path.as_str()) {
            Some(uri) => {
                assert(names_source_file(input.workspace@, idx as int, uri@, *doc));
                let res = Some((uri, doc));
                assert(res matches Some((u, d)) && names_source_file(input.workspace@, idx as int, u@, *d));
                res
            },
            None => None,
        },
        None => None,
    }
}

/// Names a random source file of the input.
#[derive(Debug, Clone, Copy)]
pub struct TextDocumentIdentifierGenerator;

impl TextDocumentIdentifierGenerator {
    pub fn new() -> (r: Self) {
        TextDocumentIdentifierGenerator
    }
}

impl LspParamsGenerator for TextDocumentIdentifierGenerator {
    type Output = TextDocumentIdentifier;

    open spec fn may_generate(&self, state: FuzzState, input: LspInput, out: TextDocumentIdentifier) -> bool {
        names_a_source_file(input.workspace@, out.uri@)
    }

    /// When the input has no source file, or one whose path makes no URI.
    open spec fn may_give_nothing(&self, state: FuzzState, input: LspInput) -> bool {
        !source_files_nameable(input.workspace@)
    }

    open spec fn may_fail(&self) -> bool {
        false
    }

    fn generate(
        &self,
        state: &mut FuzzState,
        input: &LspInput,
    ) -> (r: Result<TextDocumentIdentifier, GenerationError>)
        ensures
            r matches Ok(id) ==> names_a_source_file(input.workspace@, id.uri@),
    {
        match select_random_document(&mut state.rand, input) {
            Some((uri, doc)) => {
                let ghost d = *doc;
                let ghost i0 = choose|i: int| names_source_file(input.workspace@, i, uri@, d);
                let id = TextDocumentIdentifier { uri };
                assert(names_source_file(input.workspace@, i0, id.uri@, d));
                assert(names_a_source_file(input.workspace@, id.uri@));
                let r = Ok(id);
                assert(r matches Ok(x) && names_a_source_file(input.workspace@, x.uri@));
                r
            },
            None => Err(GenerationError::NothingGenerated),
        }
    }
}

/// Names a document that does not exist: `lsp-fuzz://<n>` for a random `n`
/// under 65536.
#[derive(Debug, Clone, Copy)]
pub struct MeaninglessTextDocumentIdentifierGenerator;

impl MeaninglessTextDocumentIdentifierGenerator {
    pub fn new() -> (r: Self) {
        MeaninglessTextDocumentIdentifierGenerator
    }
}

impl LspParamsGenerator for MeaninglessTextDocumentIdentifierGenerator {
    type Output = TextDocumentIdentifier;

    open spec fn may_generate(&self, state: FuzzState, input: LspInput, out: TextDocumentIdentifier) -> bool {
        exists|n: usize| n < 65536 && out.uri@ == spec_virtual_uri_text(crate::json_rpc::decimal_chars(n as nat))
    }

    /// It always names a document.
    open spec fn may_give_nothing(&self, state: FuzzState, input: LspInput) -> bool {
        false
    }

    open spec fn may_fail(&self) -> bool {
        false
    }

    fn generate(
        &self,
        state: &mut FuzzState,
        input: &LspInput,
    ) -> (r: Result<TextDocumentIdentifier, GenerationError>)
        ensures
            r is Ok,
            r matches Ok(id) ==> exists|n: usize|
                n < 65536 && id.uri@ == spec_virtual_uri_text(crate::json_rpc::decimal_chars(n as nat)),
    {
        let n = rand_below_or_zero(&mut state.rand, 65536);
        let digits = crate::json_rpc::usize_to_string(n);
        let mut uri = String::from_str(crate::uri::protocol_prefix());
        uri.append(digits.as_str());
        Ok(TextDocumentIdentifier { uri })
    }
}

/// A position chosen by `PosSel` in a random source file.
#[derive(Debug, Clone, Copy)]
pub struct TextDocumentPositionParamsGenerator<PosSel> {
    position_selector: PosSel,
}

impl<PosSel> TextDocumentPositionParamsGenerator<PosSel> {
    pub closed spec fn selector(&self) -> PosSel {
        self.position_selector
    }

    pub fn new(position_selector: PosSel) -> (r: Self)
        ensures
            r.selector() == position_selector,
    {
        TextDocumentPositionParamsGenerator { position_selector }
    }
}

impl<PosSel: PositionSelector> LspParamsGenerator for TextDocumentPositionParamsGenerator<PosSel> {
    type Output = TextDocumentPositionParams;

    /// A source file of the input and a position the selector may choose in it.
    open spec fn may_generate(&self, state: FuzzState, input: LspInput, out: TextDocumentPositionParams) -> bool {
        exists|i: int, doc: TextDocument|
            #[trigger] names_source_file(input.workspace@, i, out.text_document.uri@, doc)
                && self.selector().may_select(doc, out.position)
    }

    /// When the input has no source file or one whose path makes no URI, or
    /// when the selector may choose nothing in one of its source files.
    open spec fn may_give_nothing(&self, state: FuzzState, input: LspInput) -> bool {
        !source_files_nameable(input.workspace@) || exists|i: int, doc: TextDocument, mid: FuzzState|
            #![trigger self.selector().may_select_nothing(mid, doc), input.workspace@[i]]
            0 <= i < input.workspace@.len() && input.workspace@[i].entry == WorkspaceEntry::SourceFile(doc)
                && mid.response_info == state.response_info && mid.highlight_usage == state.highlight_usage
                && self.selector().may_select_nothing(mid, doc)
    }

    open spec fn may_fail(&self) -> bool {
        false
    }

    fn generate(
        &self,
        state: &mut FuzzState,
        input: &LspInput,
    ) -> (r: Result<TextDocumentPositionParams, GenerationError>)
        ensures
            r matches Ok(p) ==> names_a_source_file(input.workspace@, p.text_document.uri@),
    {
        let (uri, doc) = match select_random_document(&mut state.rand, input) {
            Some(chosen) => chosen,
            None => {
                return Err(GenerationError::NothingGenerated);
            },
        };
        let ghost d = *doc;
        let ghost i0 = choose|i: int| names_source_file(input.workspace@, i, uri@, d);
        let ghost mid = *state;
        match self.position_selector.select_position(state, doc) {
            Some(position) => {
                let p = TextDocumentPositionParams {
                    text_document: TextDocumentIdentifier { uri },
                    position,
                };
                assert(names_source_file(input.workspace@, i0, p.text_document.uri@, d));
                assert(names_a_source_file(input.workspace@, p.text_document.uri@));
                let r = Ok(p);
                assert(r matches Ok(x) && names_a_source_file(input.workspace@, x.text_document.uri@));
                r
            },
            None => {
                assert(0 <= i0 < input.workspace@.len() && input.workspace@[i0].entry == WorkspaceEntry::SourceFile(d)
                    && self.selector().may_select_nothing(mid, d));
                Err(GenerationError::NothingGenerated)
            },
        }
    }
}

/// A random range in a document that may not exist: coordinates under 1024.
#[derive(Debug, Clone, Copy)]
pub struct InvalidSelectionGenerator;

impl InvalidSelectionGenerator {
    pub fn new() -> (r: Self) {
        InvalidSelectionGenerator
    }

    /// The range part of an invalid selection.
    pub fn random_range(&self, rand: &mut libafl_bolts::rands::RomuDuoJrRand) -> (r: Range)
        ensures
            r.start.line < 1024 && r.start.character < 1024 && r.end.line < 1024 && r.end.character
                < 1024,
    {
        let start = Position {
            line: usize_to_u32(rand_below_or_zero(rand, 1024)),
            character: usize_to_u32(rand_below_or_zero(rand, 1024)),
        };
        let end = Position {
            line: usize_to_u32(rand_below_or_zero(rand, 1024)),
            character: usize_to_u32(rand_below_or_zero(rand, 1024)),
        };
        Range { start, end }
    }

    /// A random range in the document `lsp-fuzz://<uri_content>`; nothing
    /// when that text is not a valid URI.
    pub fn generate_with(&self, state: &mut FuzzState, uri_content: &str) -> (r: Option<DocumentSelection>)
        ensures
            final(state).response_info == old(state).response_info,
            final(state).highlight_usage == old(state).highlight_usage,
            r is None <==> !accepted_uri(spec_virtual_uri_text(uri_content@)),
            r matches Some(sel) ==> sel.0.uri@ == spec_virtual_uri_text(uri_content@)
                && sel.1.start.line < 1024 && sel.1.start.character < 1024 && sel.1.end.line < 1024
                && sel.1.end.character < 1024,
    {
        let uri = match virtual_uri_for_path(uri_content) {
            Some(uri) => uri,
            None => {
                return None;
            },
        };
        let range = self.random_range(&mut state.rand);
        Some(DocumentSelection(TextDocumentIdentifier { uri }, range))
    }
}

/// A position in a document that may not exist: coordinates under 65536.
#[derive(Debug, Clone, Copy)]
pub struct InvalidDocPositionGenerator;

impl InvalidDocPositionGenerator {
    pub fn new() -> (r: Self) {
        InvalidDocPositionGenerator
    }

    /// The position part of an invalid document position.
    pub fn random_position(&self, rand: &mut libafl_bolts::rands::RomuDuoJrRand) -> (r: Position)
        ensures
            r.line < 65536 && r.character < 65536,
    {
        let line = rand_below_or_zero(rand, 65536) as u32;
        let character = rand_below_or_zero(rand, 65536) as u32;
        Position { line, character }
    }

    /// A random position in the document `lsp-fuzz://<uri_content>`; nothing
    /// when that text is not a valid URI.
    pub fn generate_with(&self, state: &mut FuzzState, uri_content: &str) -> (r: Option<TextDocumentPositionParams>)
        ensures
            final(state).response_info == old(state).response_info,
            final(state).highlight_usage == old(state).highlight_usage,
            r is None <==> !accepted_uri(spec_virtual_uri_text(uri_content@)),
            r matches Some(p) ==> p.text_document.uri@ == spec_virtual_uri_text(uri_content@)
                && p.position.line < 65536 && p.position.character < 65536,
    {
        let uri = match virtual_uri_for_path(uri_content) {
            Some(uri) => uri,
            None => {
                return None;
            },
        };
        let position = self.random_position(&mut state.rand);
        Some(TextDocumentPositionParams { text_document: TextDocumentIdentifier { uri }, position })
    }
}

} // verus!
