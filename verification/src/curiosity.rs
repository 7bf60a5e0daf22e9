//! What the operations of an input touch in its documents: the kinds of the
//! syntax nodes at the positions and ranges its messages name.
use vstd::prelude::*;

use crate::bloom::{bloom_contains, bloom_insert, bloom_reports, bloom_with_num_bits, FilterItem, FilterKey, SeenFilter};
use crate::lsp_input::{find_file, LspInput, SyntaxNode, TextDocument, WorkspaceEntry};
use crate::range_selectors::{descendant_for_range, lemma_descendant_unique, pos_le, range_contains, spec_descendant};
use crate::selection::{Position, Range};
use crate::text::str_eq;
use crate::uri::spec_path_from_virtual_uri;

verus! {

/// An operation's behavior: the language of the document, the kind of the
/// node it touched and its method.
#[derive(Debug, Clone, PartialEq, Eq, Hash)]
pub struct OpsBehaviorData {
    pub language_id: String,
    pub node_kind: u16,
    pub ops_method: String,
}

/// A behavior by its values.
pub type BehaviorKey = (Seq<char>, u16, Seq<char>);

pub open spec fn behavior_key(d: OpsBehaviorData) -> BehaviorKey {
    (d.language_id@, d.node_kind, d.ops_method@)
}

/// The behaviors of a list, as a set.
pub open spec fn behavior_keys(ds: Seq<OpsBehaviorData>) -> Set<BehaviorKey> {
    Set::new(|k: BehaviorKey| exists|i: int| 0 <= i < ds.len() && behavior_key(ds[i]) == k)
}

/// No behavior occurs twice.
pub open spec fn behaviors_distinct(ds: Seq<OpsBehaviorData>) -> bool {
    forall|i: int, j: int| 0 <= i < j < ds.len() ==> behavior_key(#[trigger] ds[i]) != behavior_key(#[trigger] ds[j])
}

/// What a message names: its method and, when it has them, the document,
/// position and range it is about.
#[derive(Debug, Clone)]
pub struct OpContext {
    pub method: String,
    pub document: Option<String>,
    pub position: Option<Position>,
    pub range: Option<Range>,
}

/// The behavior at a position: the kind of the deepest node there, unless it
/// is an error or missing node.
pub open spec fn spec_position_behavior(method: Seq<char>, doc: TextDocument, p: Position) -> Option<BehaviorKey> {
    match spec_descendant(doc.nodes@, Range { start: p, end: p }) {
        Some(i) => if !doc.nodes@[i].has_error && !doc.nodes@[i].is_missing {
            Some((doc.language_id@, doc.nodes@[i].kind_id, method))
        } else {
            None
        },
        None => None,
    }
}

/// The behaviors of a position.
pub fn digest_ops_data(method: &str, doc: &TextDocument, position: Position) -> (r: Option<OpsBehaviorData>)
    ensures
        match r {
            Some(d) => spec_position_behavior(method@, *doc, position) == Some(behavior_key(d)),
            None => spec_position_behavior(method@, *doc, position) is None,
        },
{
    let point = Range { start: position, end: position };
    match descendant_for_range(&doc.nodes, point) {
        Some(i) => {
            proof {
                lemma_descendant_unique(doc.nodes@, point, i as int);
            }
            let node = &doc.nodes[i];
            if !node.has_error && !node.is_missing {
                Some(OpsBehaviorData {
                    language_id: doc.language_id.clone(),
                    node_kind: node.kind_id,
                    ops_method: String::from_str(method),
                })
            } else {
                None
            }
        },
        None => {
            proof {
                if exists|k: int| crate::range_selectors::is_descendant_for_range(doc.nodes@, point, k) {
                    let k = choose|k: int| crate::range_selectors::is_descendant_for_range(doc.nodes@, point, k);
                    assert(crate::range_selectors::range_contains(doc.nodes@[k].range, point));
                }
            }
            None
        },
    }
}

/// The kinds of the children of node `parent` among the first `upto` nodes
/// that start no later than `range` starts and end no later than it ends.
pub open spec fn child_kinds(nodes: Seq<SyntaxNode>, parent: int, range: Range, upto: int) -> Set<u16>
{
    Set::new(|k: u16| exists|j: int| 0 <= j < upto && j < nodes.len() && nodes[j].parent == Some(parent as usize)
        && pos_le(nodes[j].range.start, range.start) && pos_le(nodes[j].range.end, range.end)
        && nodes[j].kind_id == k)
}

/// The behaviors of a range: the kinds of the children of the deepest node
/// spanning it that lie at its start, unless that node is an error or missing.
pub open spec fn spec_range_behaviors(method: Seq<char>, doc: TextDocument, range: Range) -> Set<BehaviorKey> {
    match spec_descendant(doc.nodes@, range) {
        Some(i) => if !doc.nodes@[i].has_error && !doc.nodes@[i].is_missing {
            Set::new(|k: BehaviorKey| k.0 == doc.language_id@ && k.2 == method && child_kinds(
                doc.nodes@,
                i,
                range,
                doc.nodes@.len() as int,
            ).contains(k.1))
        } else {
            Set::empty()
        },
        None => Set::empty(),
    }
}

/// Adds `d` to a list of distinct behaviors unless it is there already.
fn insert_behavior(out: &mut Vec<OpsBehaviorData>, d: OpsBehaviorData)
    requires
        behaviors_distinct(old(out)@),
    ensures
        behaviors_distinct(final(out)@),
        behavior_keys(final(out)@) == behavior_keys(old(out)@).insert(behavior_key(d)),
{
    let ghost before = out@;
    let mut i: usize = 0;
    while i < out.len()
        invariant
            out@ == before,
            behaviors_distinct(before),
            i <= before.len(),
            forall|j: int| 0 <= j < i ==> behavior_key(#[trigger] before[j]) != behavior_key(d),
        decreases out.len() - i,
    {
        if str_eq(out[i].language_id.as_str(), d.language_id.as_str()) && out[i].node_kind == d.node_kind
            && str_eq(out[i].ops_method.as_str(), d.ops_method.as_str()) {
            assert(behavior_key(before[i as int]) == behavior_key(d));
            assert(behavior_keys(before).insert(behavior_key(d)) =~= behavior_keys(before));
            return;
        }
        i = i + 1;
    }
    out.push(d);
    proof {
        let after = out@;
        assert forall|k: BehaviorKey| behavior_keys(after).contains(k) <==> behavior_keys(before).insert(behavior_key(d)).contains(k) by {
            if behavior_keys(before).contains(k) {
                let m = choose|m: int| 0 <= m < before.len() && behavior_key(before[m]) == k;
                assert(after[m] == before[m]);
            }
            if k == behavior_key(d) {
                assert(after[before.len() as int] == d);
            }
            if behavior_keys(after).contains(k) {
                let m = choose|m: int| 0 <= m < after.len() && behavior_key(after[m]) == k;
                if m < before.len() {
                    assert(after[m] == before[m]);
                }
            }
        }
        assert(behavior_keys(after) =~= behavior_keys(before).insert(behavior_key(d)));
        assert forall|a: int, b: int| 0 <= a < b < after.len() implies behavior_key(#[trigger] after[a]) != behavior_key(#[trigger] after[b]) by {
            assert(after[a] == before[a]);
            if b < before.len() {
                assert(after[b] == before[b]);
            }
        }
    }
}

/// The behaviors of a range, each once.
pub fn digest_range_data(method: &str, doc: &TextDocument, range: Range) -> (r: Vec<OpsBehaviorData>)
    ensures
        behaviors_distinct(r@),
        behavior_keys(r@) == spec_range_behaviors(method@, *doc, range),
{
    let mut out: Vec<OpsBehaviorData> = Vec::new();
    assert(behavior_keys(out@) =~= Set::<BehaviorKey>::empty());
    let node = match descendant_for_range(&doc.nodes, range) {
        Some(i) => i,
        None => {
            proof {
                if exists|k: int| crate::range_selectors::is_descendant_for_range(doc.nodes@, range, k) {
                    let k = choose|k: int| crate::range_selectors::is_descendant_for_range(doc.nodes@, range, k);
                    assert(crate::range_selectors::range_contains(doc.nodes@[k].range, range));
                }
            }
            assert(spec_range_behaviors(method@, *doc, range) =~= Set::<BehaviorKey>::empty());
            return out;
        },
    };
    proof {
        lemma_descendant_unique(doc.nodes@, range, node as int);
    }
    if doc.nodes[node].has_error || doc.nodes[node].is_missing {
        assert(spec_range_behaviors(method@, *doc, range) =~= Set::<BehaviorKey>::empty());
        return out;
    }
    let ghost lang = doc.language_id@;
    let mut j: usize = 0;
    while j < doc.nodes.len()
        invariant
            j <= doc.nodes@.len(),
            node < doc.nodes@.len(),
            lang == doc.language_id@,
            behaviors_distinct(out@),
            behavior_keys(out@) == Set::new(|k: BehaviorKey| k.0 == lang && k.2 == method@ && child_kinds(
                doc.nodes@,
                node as int,
                range,
                j as int,
            ).contains(k.1)),
        decreases doc.nodes.len() - j,
    {
        let child = &doc.nodes[j];
        let ghost before = behavior_keys(out@);
        let is_child = match child.parent {
            Some(p) => p == node,
            None => false,
        };
        let at_start = (child.range.start.line < range.start.line || (child.range.start.line == range.start.line
            && child.range.start.character <= range.start.character)) && (child.range.end.line < range.end.line
            || (child.range.end.line == range.end.line && child.range.end.character <= range.end.character));
        if is_child && at_start {
            let d = OpsBehaviorData {
                language_id: doc.language_id.clone(),
                node_kind: child.kind_id,
                ops_method: String::from_str(method),
            };
            insert_behavior(&mut out, d);
        }
        proof {
            let next = Set::new(|k: BehaviorKey| k.0 == lang && k.2 == method@ && child_kinds(
                doc.nodes@,
                node as int,
                range,
                j + 1,
            ).contains(k.1));
            assert forall|k: BehaviorKey| behavior_keys(out@).contains(k) <==> next.contains(k) by {
                if child_kinds(doc.nodes@, node as int, range, j + 1).contains(k.1) && !child_kinds(doc.nodes@, node as int, range, j as int).contains(k.1) {
                    let m = choose|m: int| 0 <= m < j + 1 && m < doc.nodes@.len() && doc.nodes@[m].parent == Some(node) && pos_le(doc.nodes@[m].range.start, range.start) && pos_le(doc.nodes@[m].range.end, range.end) && doc.nodes@[m].kind_id == k.1;
                    assert(m == j);
                }
                if child_kinds(doc.nodes@, node as int, range, j as int).contains(k.1) {
                    let m = choose|m: int| 0 <= m < j && m < doc.nodes@.len() && doc.nodes@[m].parent == Some(node) && pos_le(doc.nodes@[m].range.start, range.start) && pos_le(doc.nodes@[m].range.end, range.end) && doc.nodes@[m].kind_id == k.1;
                    assert(child_kinds(doc.nodes@, node as int, range, j + 1).contains(k.1));
                }
                if is_child && at_start && k == (lang, doc.nodes@[j as int].kind_id, method@) {
                    assert(child_kinds(doc.nodes@, node as int, range, j + 1).contains(k.1));
                }
            }
            assert(behavior_keys(out@) =~= next);
        }
        j = j + 1;
    }
    proof {
        assert(behavior_keys(out@) =~= spec_range_behaviors(method@, *doc, range));
    }
    out
}

/// When the deepest node spanning a range (the last node in pre-order whose
/// range contains it) is an error node or a missing node, the range has no
/// behaviors: the children of such a node are not looked at.
pub proof fn lemma_range_behaviors_skip_error_nodes(method: Seq<char>, doc: TextDocument, range: Range, i: int)
    requires
        0 <= i < doc.nodes@.len(),
        pos_le(doc.nodes@[i].range.start, range.start) && pos_le(range.end, doc.nodes@[i].range.end),
        forall|j: int|
            i < j < doc.nodes@.len() ==> !(pos_le((#[trigger] doc.nodes@[j]).range.start, range.start) && pos_le(
                range.end,
                doc.nodes@[j].range.end,
            )),
        doc.nodes@[i].has_error || doc.nodes@[i].is_missing,
    ensures
        spec_range_behaviors(method, doc, range) == Set::<BehaviorKey>::empty(),
{
    lemma_descendant_unique(doc.nodes@, range, i);
    assert(spec_range_behaviors(method, doc, range) =~= Set::<BehaviorKey>::empty());
}

/// Every behavior of a range is that of a child of the deepest node spanning
/// it, a node that is neither an error nor missing: the document's language,
/// the child's kind, and the method; the child starts and ends no later than
/// the range does.
pub proof fn lemma_range_behaviors_from_children(method: Seq<char>, doc: TextDocument, range: Range, k: BehaviorKey)
    requires
        spec_range_behaviors(method, doc, range).contains(k),
    ensures
        exists|i: int, j: int|
            #![trigger doc.nodes@[i], doc.nodes@[j]]
            0 <= i < doc.nodes@.len() && 0 <= j < doc.nodes@.len() && range_contains(doc.nodes@[i].range, range)
                && !doc.nodes@[i].has_error && !doc.nodes@[i].is_missing
                && doc.nodes@[j].parent == Some(i as usize) && pos_le(doc.nodes@[j].range.start, range.start)
                && pos_le(doc.nodes@[j].range.end, range.end) && k == (doc.language_id@, doc.nodes@[j].kind_id, method),
{
    let i = spec_descendant(doc.nodes@, range)->0;
    let j = choose|j: int| 0 <= j < doc.nodes@.len() && doc.nodes@[j].parent == Some(i as usize)
        && pos_le(doc.nodes@[j].range.start, range.start) && pos_le(doc.nodes@[j].range.end, range.end)
        && doc.nodes@[j].kind_id == k.1;
    assert(doc.nodes@[j].parent == Some(i as usize));
    assert(doc.nodes@[i].range == doc.nodes@[i].range);
}

/// Every child of the deepest node spanning a range that starts and ends no
/// later than the range does gives a behavior, when that node is neither an
/// error nor missing: the document's language, the child's kind, the method.
pub proof fn lemma_range_behaviors_include_children(
    method: Seq<char>,
    doc: TextDocument,
    range: Range,
    i: int,
    j: int,
)
    requires
        0 <= i < doc.nodes@.len(),
        0 <= j < doc.nodes@.len(),
        pos_le(doc.nodes@[i].range.start, range.start) && pos_le(range.end, doc.nodes@[i].range.end),
        forall|k: int|
            i < k < doc.nodes@.len() ==> !(pos_le((#[trigger] doc.nodes@[k]).range.start, range.start) && pos_le(
                range.end,
                doc.nodes@[k].range.end,
            )),
        !doc.nodes@[i].has_error && !doc.nodes@[i].is_missing,
        doc.nodes@[j].parent == Some(i as usize),
        pos_le(doc.nodes@[j].range.start, range.start),
        pos_le(doc.nodes@[j].range.end, range.end),
    ensures
        spec_range_behaviors(method, doc, range).contains((doc.language_id@, doc.nodes@[j].kind_id, method)),
{
    lemma_descendant_unique(doc.nodes@, range, i);
    assert(child_kinds(doc.nodes@, i, range, doc.nodes@.len() as int).contains(doc.nodes@[j].kind_id));
}

/// The behavior at a position is the kind of the deepest node spanning it,
/// and there is none when that node is an error node or a missing node.
pub proof fn lemma_position_behavior_of_deepest_node(method: Seq<char>, doc: TextDocument, p: Position, i: int)
    requires
        0 <= i < doc.nodes@.len(),
        pos_le(doc.nodes@[i].range.start, p) && pos_le(p, doc.nodes@[i].range.end),
        forall|k: int|
            i < k < doc.nodes@.len() ==> !(pos_le((#[trigger] doc.nodes@[k]).range.start, p) && pos_le(
                p,
                doc.nodes@[k].range.end,
            )),
    ensures
        doc.nodes@[i].has_error || doc.nodes@[i].is_missing ==> spec_position_behavior(method, doc, p) is None,
        !doc.nodes@[i].has_error && !doc.nodes@[i].is_missing ==> spec_position_behavior(method, doc, p) == Some(
            (doc.language_id@, doc.nodes@[i].kind_id, method),
        ),
{
    lemma_descendant_unique(doc.nodes@, Range { start: p, end: p }, i);
}

proof fn lemma_keys_push(ds: Seq<OpsBehaviorData>, d: OpsBehaviorData)
    ensures
        behavior_keys(ds.push(d)) == behavior_keys(ds).insert(behavior_key(d)),
{
    let after = ds.push(d);
    assert forall|k: BehaviorKey| behavior_keys(after).contains(k) <==> behavior_keys(ds).insert(behavior_key(d)).contains(k) by {
        if behavior_keys(ds).contains(k) {
            let m = choose|m: int| 0 <= m < ds.len() && behavior_key(ds[m]) == k;
            assert(after[m] == ds[m]);
        }
        if k == behavior_key(d) {
            assert(after[ds.len() as int] == d);
        }
        if behavior_keys(after).contains(k) {
            let m = choose|m: int| 0 <= m < after.len() && behavior_key(after[m]) == k;
            if m < ds.len() {
                assert(after[m] == ds[m]);
            }
        }
    }
    assert(behavior_keys(after) =~= behavior_keys(ds).insert(behavior_key(d)));
}

/// Adds each of `ds` to a list of distinct behaviors.
fn insert_behaviors(out: &mut Vec<OpsBehaviorData>, ds: Vec<OpsBehaviorData>)
    requires
        behaviors_distinct(old(out)@),
    ensures
        behaviors_distinct(final(out)@),
        behavior_keys(final(out)@) == behavior_keys(old(out)@).union(behavior_keys(ds@)),
{
    let ghost start = behavior_keys(out@);
    let ghost all = ds@;
    assert(behavior_keys(all.take(0)) =~= Set::<BehaviorKey>::empty());
    assert(start.union(Set::<BehaviorKey>::empty()) =~= start);
    for d in it: ds
        invariant
            it.seq() == all,
            behaviors_distinct(out@),
            behavior_keys(out@) == start.union(behavior_keys(all.take(it.index() as int))),
    {
        let ghost idx = it.index();
        insert_behavior(out, d);
        proof {
            assert(all.take(idx + 1) =~= all.take(idx as int).push(all[idx as int]));
            lemma_keys_push(all.take(idx as int), all[idx as int]);
            assert(start.union(behavior_keys(all.take(idx + 1))) =~= start.union(behavior_keys(all.take(idx as int))).insert(behavior_key(all[idx as int])));
        }
    }
    assert(all.take(all.len() as int) =~= all);
}

/// The source file a message names, if the input holds one there.
pub open spec fn op_document(files: Seq<crate::lsp_input::WorkspaceFile>, op: OpContext) -> Option<TextDocument> {
    match op.document {
        Some(uri) => match find_file(files, spec_path_from_virtual_uri(uri@)->0) {
            Some(i) => match files[i].entry {
                WorkspaceEntry::SourceFile(doc) => Some(doc),
                WorkspaceEntry::Skeleton(_) => None,
            },
            None => None,
        },
        None => None,
    }
}

/// The behaviors of one message: at its position and in its range.
pub open spec fn op_behaviors(files: Seq<crate::lsp_input::WorkspaceFile>, op: OpContext) -> Set<BehaviorKey> {
    match op_document(files, op) {
        Some(doc) => {
            let at_position = match op.position {
                Some(p) => match spec_position_behavior(op.method@, doc, p) {
                    Some(k) => Set::empty().insert(k),
                    None => Set::empty(),
                },
                None => Set::empty(),
            };
            let in_range = match op.range {
                Some(r) => spec_range_behaviors(op.method@, doc, r),
                None => Set::empty(),
            };
            at_position.union(in_range)
        },
        None => Set::empty(),
    }
}

/// The behaviors of all messages.
pub open spec fn all_op_behaviors(files: Seq<crate::lsp_input::WorkspaceFile>, ops: Seq<OpContext>) -> Set<BehaviorKey> {
    Set::new(|k: BehaviorKey| exists|i: int| 0 <= i < ops.len() && #[trigger] op_behaviors(files, ops[i]).contains(k))
}

/// Every document a message names is a virtual `lsp-fuzz://` URI.
pub open spec fn ops_name_virtual_documents(ops: Seq<OpContext>) -> bool {
    forall|i: int| 0 <= i < ops.len() && (#[trigger] ops[i]).document is Some ==> spec_path_from_virtual_uri(ops[i].document->0@) is Some
}

/// The behaviors of the messages of an input, each once.
pub fn analyze_behavior_data(input: &LspInput, ops: &[OpContext]) -> (r: Vec<OpsBehaviorData>)
    requires
        ops_name_virtual_documents(ops@),
    ensures
        behaviors_distinct(r@),
        behavior_keys(r@) == all_op_behaviors(input.workspace@, ops@),
{
    let mut data: Vec<OpsBehaviorData> = Vec::new();
    assert(behavior_keys(data@) =~= Set::<BehaviorKey>::empty());
    assert(all_op_behaviors(input.workspace@, ops@.take(0)) =~= Set::<BehaviorKey>::empty());
    let mut i: usize = 0;
    while i < ops.len()
        invariant
            i <= ops@.len(),
            ops_name_virtual_documents(ops@),
            behaviors_distinct(data@),
            behavior_keys(data@) == all_op_behaviors(input.workspace@, ops@.take(i as int)),
        decreases ops.len() - i,
    {
        let op = &ops[i];
        let ghost before = behavior_keys(data@);
        if let Some(uri) = &op.document {
            assert(ops@[i as int].document is Some);
            if let Some(doc) = input.get_text_document(uri.as_str()) {
                if let Some(p) = op.position {
                    if let Some(d) = digest_ops_data(op.method.as_str(), doc, p) {
                        insert_behavior(&mut data, d);
                    }
                }
                if let Some(r) = op.range {
                    let ds = digest_range_data(op.method.as_str(), doc, r);
                    insert_behaviors(&mut data, ds);
                }
            }
        }
        proof {
            let ws = input.workspace@;
            let step = op_behaviors(ws, ops@[i as int]);
            assert(behavior_keys(data@) =~= before.union(step));
            assert forall|k: BehaviorKey| all_op_behaviors(ws, ops@.take(i + 1)).contains(k) <==> before.union(step).contains(k) by {
                if all_op_behaviors(ws, ops@.take(i + 1)).contains(k) {
                    let m = choose|m: int| 0 <= m < i + 1 && #[trigger] op_behaviors(ws, ops@.take(i + 1)[m]).contains(k);
                    if m < i {
                        assert(ops@.take(i as int)[m] == ops@.take(i + 1)[m]);
                        assert(op_behaviors(ws, ops@.take(i as int)[m]).contains(k));
                    } else {
                        assert(ops@.take(i + 1)[m] == ops@[i as int]);
                    }
                }
                if before.contains(k) {
                    let m = choose|m: int| 0 <= m < i && #[trigger] op_behaviors(ws, ops@.take(i as int)[m]).contains(k);
                    assert(ops@.take(i + 1)[m] == ops@.take(i as int)[m]);
                    assert(op_behaviors(ws, ops@.take(i + 1)[m]).contains(k));
                }
                if step.contains(k) {
                    assert(ops@.take(i + 1)[i as int] == ops@[i as int]);
                    assert(op_behaviors(ws, ops@.take(i + 1)[i as int]).contains(k));
                }
            }
            assert(all_op_behaviors(ws, ops@.take(i + 1)) =~= before.union(step));
        }
        i = i + 1;
    }
    assert(ops@.take(ops@.len() as int) =~= ops@);
    data
}

/// A behavior as an item of a filter.
pub open spec fn behavior_item(d: OpsBehaviorData) -> FilterItem {
    FilterItem::Behavior(d.language_id@, d.node_kind, d.ops_method@)
}

fn behavior_filter_key(d: &OpsBehaviorData) -> (k: FilterKey)
    ensures
        k@ == behavior_item(*d),
{
    FilterKey::Behavior(d.language_id.clone(), d.node_kind, d.ops_method.clone())
}

/// The behaviors the fuzzer has seen, remembered in a Bloom filter.
pub struct ObservedOpsBehaviors {
    inner: SeenFilter,
}

impl ObservedOpsBehaviors {
    /// The items the filter reports as seen.
    pub closed spec fn reports(&self) -> Set<FilterItem> {
        bloom_reports(self.inner)
    }

    /// A record of nothing, over a filter of `num_bits` bits whose number of
    /// hashes suits `expected_items` behaviors.
    pub fn with_num_bits(num_bits: usize, expected_items: usize) -> (r: Self)
        requires
            num_bits > 0,
        ensures
            r.reports() == Set::<FilterItem>::empty(),
    {
        ObservedOpsBehaviors { inner: bloom_with_num_bits(num_bits, expected_items) }
    }

    /// Whether `d` is reported as seen.
    pub fn contains(&self, d: &OpsBehaviorData) -> (r: bool)
        ensures
            r == self.reports().contains(behavior_item(*d)),
    {
        bloom_contains(&self.inner, &behavior_filter_key(d))
    }

    /// Records `d` and tells whether it was new: not reported as seen
    /// before. Recording a behavior that was seen changes nothing.
    pub fn merge(&mut self, d: &OpsBehaviorData) -> (new: bool)
        ensures
            new == !old(self).reports().contains(behavior_item(*d)),
            !new ==> *final(self) == *old(self),
            merged(old(self).reports(), final(self).reports(), behavior_item(*d)),
    {
        !bloom_insert(&mut self.inner, &behavior_filter_key(d))
    }
}

/// After recording `item`, a filter reports it and all it reported before.
pub open spec fn merged(before: Set<FilterItem>, after: Set<FilterItem>, item: FilterItem) -> bool {
    before.insert(item).subset_of(after)
}

/// Some behavior of `ds` is not reported as seen.
pub open spec fn has_unseen(reports: Set<FilterItem>, ds: Seq<OpsBehaviorData>) -> bool {
    exists|i: int| 0 <= i < ds.len() && !reports.contains(behavior_item(#[trigger] ds[i]))
}

/// After recording all of `ds`, a filter reports each of them and all it
/// reported before.
pub open spec fn recorded_all(before: Set<FilterItem>, after: Set<FilterItem>, ds: Seq<OpsBehaviorData>) -> bool {
    &&& before.subset_of(after)
    &&& forall|i: int| 0 <= i < ds.len() ==> after.contains(behavior_item(#[trigger] ds[i]))
}

/// Whether the behaviors an input showed make it interesting: some of them
/// has not been seen.
pub fn curiosity_is_interesting(observed: &ObservedOpsBehaviors, behaviors: &Vec<OpsBehaviorData>) -> (r: bool)
    ensures
        r == has_unseen(observed.reports(), behaviors@),
{
    let mut i: usize = 0;
    while i < behaviors.len()
        invariant
            i <= behaviors@.len(),
            forall|j: int| 0 <= j < i ==> observed.reports().contains(behavior_item(#[trigger] behaviors@[j])),
        decreases behaviors.len() - i,
    {
        if !observed.contains(&behaviors[i]) {
            assert(!observed.reports().contains(behavior_item(behaviors@[i as int])));
            return true;
        }
        i = i + 1;
    }
    false
}

/// Records the behaviors of an input that was kept. When all of them were
/// seen, the record does not change.
pub fn curiosity_append_metadata(observed: &mut ObservedOpsBehaviors, behaviors: &Vec<OpsBehaviorData>)
    ensures
        recorded_all(old(observed).reports(), final(observed).reports(), behaviors@),
        !has_unseen(old(observed).reports(), behaviors@) ==> *final(observed) == *old(observed),
{
    let ghost start = *observed;
    let mut i: usize = 0;
    while i < behaviors.len()
        invariant
            i <= behaviors@.len(),
            start.reports().subset_of(observed.reports()),
            forall|j: int| 0 <= j < i ==> observed.reports().contains(behavior_item(#[trigger] behaviors@[j])),
            !has_unseen(start.reports(), behaviors@) ==> *observed == start,
        decreases behaviors.len() - i,
    {
        let ghost before = observed.reports();
        observed.merge(&behaviors[i]);
        proof {
            if !has_unseen(start.reports(), behaviors@) {
                assert(start.reports().contains(behavior_item(behaviors@[i as int])));
            }
            assert forall|j: int| 0 <= j < i + 1 implies observed.reports().contains(behavior_item(#[trigger] behaviors@[j])) by {
                if j < i {
                    assert(before.contains(behavior_item(behaviors@[j])));
                }
            }
        }
        i = i + 1;
    }
}

/// A merged behavior is seen afterwards, and nothing seen before is
/// forgotten: so merging it again reports it as not new.
pub proof fn lemma_merge_remembers(before: Set<FilterItem>, after: Set<FilterItem>, d: OpsBehaviorData, x: FilterItem)
    requires
        merged(before, after, behavior_item(d)),
    ensures
        after.contains(behavior_item(d)),
        before.contains(x) ==> after.contains(x),
{
}

/// Once the behaviors of an input are recorded, the same behaviors no longer
/// make an input interesting.
pub proof fn lemma_recorded_not_interesting(before: Set<FilterItem>, after: Set<FilterItem>, ds: Seq<OpsBehaviorData>)
    requires
        recorded_all(before, after, ds),
    ensures
        !has_unseen(after, ds),
{
}

} // verus!
