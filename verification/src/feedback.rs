//! What the fuzzer learns from a server's replies to an input: the
//! diagnostics it published and the ranges of the symbols it reported.
use vstd::prelude::*;

use crate::selection::Range;
use crate::text::str_eq;
use crate::uri::{lift_uri, spec_lift_uri};

verus! {

/// A diagnostic that a server published: where it points.
#[derive(Debug, Clone, PartialEq, Eq, Hash)]
pub struct Diagnostic {
    pub uri: String,
    pub range: Range,
}

/// The range of a symbol that a server reported.
#[derive(Debug, Clone, PartialEq, Eq, Hash)]
pub struct SymbolRange {
    pub uri: String,
    pub range: Range,
}

impl SymbolRange {
    pub fn new(uri: String, range: Range) -> (r: Self)
        ensures
            r.uri@ == uri@,
            r.range == range,
    {
        SymbolRange { uri, range }
    }
}

/// A place in the workspace: a URI and a range in the document it names.
pub type Place = (Seq<char>, Range);

/// The places of a list of diagnostics.
pub open spec fn diagnostic_places(ds: Seq<Diagnostic>) -> Set<Place> {
    Set::new(|p: Place| exists|i: int| 0 <= i < ds.len() && (ds[i].uri@, ds[i].range) == p)
}

/// The places of a list of symbol ranges.
pub open spec fn symbol_places(ss: Seq<SymbolRange>) -> Set<Place> {
    Set::new(|p: Place| exists|i: int| 0 <= i < ss.len() && (ss[i].uri@, ss[i].range) == p)
}

/// No place occurs twice among the diagnostics.
pub open spec fn diagnostics_distinct(ds: Seq<Diagnostic>) -> bool {
    forall|i: int, j: int|
        0 <= i < j < ds.len() ==> (#[trigger] ds[i].uri@, ds[i].range) != (#[trigger] ds[j].uri@,
        ds[j].range)
}

/// No place occurs twice among the symbol ranges.
pub open spec fn symbols_distinct(ss: Seq<SymbolRange>) -> bool {
    forall|i: int, j: int|
        0 <= i < j < ss.len() ==> (#[trigger] ss[i].uri@, ss[i].range) != (#[trigger] ss[j].uri@,
        ss[j].range)
}

/// What the fuzzer keeps of the replies to one input: each place at most once.
#[derive(Debug, Clone)]
pub struct LspResponseInfo {
    diagnostics: Vec<Diagnostic>,
    symbol_ranges: Vec<SymbolRange>,
}

impl LspResponseInfo {
    pub closed spec fn wf(&self) -> bool {
        &&& diagnostics_distinct(self.diagnostics@)
        &&& symbols_distinct(self.symbol_ranges@)
    }

    /// The diagnostics, in the order they were first seen.
    pub closed spec fn spec_diagnostics(&self) -> Seq<Diagnostic> {
        self.diagnostics@
    }

    /// The symbol ranges, in the order they were first seen.
    pub closed spec fn spec_symbol_ranges(&self) -> Seq<SymbolRange> {
        self.symbol_ranges@
    }

    /// Nothing learnt yet.
    pub fn new() -> (r: Self)
        ensures
            r.wf(),
            r.spec_diagnostics().len() == 0,
            r.spec_symbol_ranges().len() == 0,
    {
        LspResponseInfo { diagnostics: Vec::new(), symbol_ranges: Vec::new() }
    }

    pub fn diagnostics(&self) -> (r: &[Diagnostic])
        ensures
            r@ == self.spec_diagnostics(),
    {
        self.diagnostics.as_slice()
    }

    pub fn symbol_ranges(&self) -> (r: &[SymbolRange])
        ensures
            r@ == self.spec_symbol_ranges(),
    {
        self.symbol_ranges.as_slice()
    }

    /// Records a diagnostic unless its place is known already.
    pub fn insert_diagnostic(&mut self, d: Diagnostic)
        requires
            old(self).wf(),
        ensures
            final(self).wf(),
            final(self).spec_symbol_ranges() == old(self).spec_symbol_ranges(),
            diagnostic_places(final(self).spec_diagnostics()) == diagnostic_places(
                old(self).spec_diagnostics(),
            ).insert((d.uri@, d.range)),
    {
        let ghost before = self.diagnostics@;
        let mut i: usize = 0;
        while i < self.diagnostics.len()
            invariant
                self.diagnostics@ == before,
                self.wf(),
                self.symbol_ranges@ == old(self).symbol_ranges@,
                i <= before.len(),
                forall|j: int| 0 <= j < i ==> (#[trigger] before[j].uri@, before[j].range) != (d.uri@, d.range),
            decreases self.diagnostics.len() - i,
        {
            if str_eq(self.diagnostics[i].uri.as_str(), d.uri.as_str()) && self.diagnostics[i].range == d.range {
                assert(diagnostic_places(before).insert((d.uri@, d.range)) =~= diagnostic_places(before)) by {
                    assert((before[i as int].uri@, before[i as int].range) == (d.uri@, d.range));
                }
                return;
            }
            i = i + 1;
        }
        self.diagnostics.push(d);
        proof {
            let after = self.diagnostics@;
            assert forall|p: Place| diagnostic_places(after).contains(p) <==> diagnostic_places(
                before,
            ).insert((d.uri@, d.range)).contains(p) by {
                if diagnostic_places(before).contains(p) {
                    let k = choose|k: int| 0 <= k < before.len() && (before[k].uri@, before[k].range) == p;
                    assert(after[k] == before[k]);
                }
                if p == (d.uri@, d.range) {
                    assert(after[before.len() as int] == d);
                }
                if diagnostic_places(after).contains(p) {
                    let k = choose|k: int| 0 <= k < after.len() && (after[k].uri@, after[k].range) == p;
                    if k < before.len() {
                        assert(after[k] == before[k]);
                    }
                }
            }
            assert(diagnostic_places(after) =~= diagnostic_places(before).insert((d.uri@, d.range)));
            assert forall|a: int, b: int| 0 <= a < b < after.len() implies (#[trigger] after[a].uri@,
                after[a].range) != (#[trigger] after[b].uri@, after[b].range) by {
                if b == before.len() {
                    assert(after[a] == before[a]);
                } else {
                    assert(after[a] == before[a] && after[b] == before[b]);
                }
            }
        }
    }

    /// Records a symbol range unless its place is known already.
    pub fn insert_symbol_range(&mut self, s: SymbolRange)
        requires
            old(self).wf(),
        ensures
            final(self).wf(),
            final(self).spec_diagnostics() == old(self).spec_diagnostics(),
            symbol_places(final(self).spec_symbol_ranges()) == symbol_places(
                old(self).spec_symbol_ranges(),
            ).insert((s.uri@, s.range)),
    {
        let ghost before = self.symbol_ranges@;
        let mut i: usize = 0;
        while i < self.symbol_ranges.len()
            invariant
                self.symbol_ranges@ == before,
                self.wf(),
                self.diagnostics@ == old(self).diagnostics@,
                i <= before.len(),
                forall|j: int| 0 <= j < i ==> (#[trigger] before[j].uri@, before[j].range) != (s.uri@, s.range),
            decreases self.symbol_ranges.len() - i,
        {
            if str_eq(self.symbol_ranges[i].uri.as_str(), s.uri.as_str()) && self.symbol_ranges[i].range == s.range {
                assert(symbol_places(before).insert((s.uri@, s.range)) =~= symbol_places(before)) by {
                    assert((before[i as int].uri@, before[i as int].range) == (s.uri@, s.range));
                }
                return;
            }
            i = i + 1;
        }
        self.symbol_ranges.push(s);
        proof {
            let after = self.symbol_ranges@;
            assert forall|p: Place| symbol_places(after).contains(p) <==> symbol_places(
                before,
            ).insert((s.uri@, s.range)).contains(p) by {
                if symbol_places(before).contains(p) {
                    let k = choose|k: int| 0 <= k < before.len() && (before[k].uri@, before[k].range) == p;
                    assert(after[k] == before[k]);
                }
                if p == (s.uri@, s.range) {
                    assert(after[before.len() as int] == s);
                }
                if symbol_places(after).contains(p) {
                    let k = choose|k: int| 0 <= k < after.len() && (after[k].uri@, after[k].range) == p;
                    if k < before.len() {
                        assert(after[k] == before[k]);
                    }
                }
            }
            assert(symbol_places(after) =~= symbol_places(before).insert((s.uri@, s.range)));
            assert forall|a: int, b: int| 0 <= a < b < after.len() implies (#[trigger] after[a].uri@,
                after[a].range) != (#[trigger] after[b].uri@, after[b].range) by {
                if b == before.len() {
                    assert(after[a] == before[a]);
                } else {
                    assert(after[a] == before[a] && after[b] == before[b]);
                }
            }
        }
    }
}

/// The places `(uri, r)` for each range `r` of `ranges`.
pub open spec fn places_in(uri: Seq<char>, ranges: Seq<Range>) -> Set<Place> {
    Set::new(|p: Place| p.0 == uri && ranges.contains(p.1))
}

/// A symbol of a document, with the symbols nested in it.
#[derive(Debug)]
pub struct DocumentSymbolNode {
    pub selection_range: Range,
    pub children: Option<Vec<DocumentSymbolNode>>,
}

/// The selection ranges of a symbol and of all symbols nested in it.
pub open spec fn node_ranges(n: DocumentSymbolNode) -> Seq<Range>
    decreases n,
{
    seq![n.selection_range] + match n.children {
        Some(cs) => forest_ranges(cs@),
        None => Seq::empty(),
    }
}

/// The selection ranges of all symbols of a forest.
pub open spec fn forest_ranges(ns: Seq<DocumentSymbolNode>) -> Seq<Range>
    decreases ns,
{
    if ns.len() == 0 {
        Seq::empty()
    } else {
        node_ranges(ns[0]) + forest_ranges(ns.drop_first())
    }
}

impl LspResponseInfo {
    /// Records the diagnostics a server published for `uri`, after lifting
    /// the URI back into the virtual file system.
    pub fn record_published_diagnostics(&mut self, uri: &str, ranges: &[Range])
        requires
            old(self).wf(),
        ensures
            final(self).wf(),
            final(self).spec_symbol_ranges() == old(self).spec_symbol_ranges(),
            diagnostic_places(final(self).spec_diagnostics()) == diagnostic_places(
                old(self).spec_diagnostics(),
            ).union(places_in(spec_lift_uri(uri@), ranges@)),
    {
        let lifted = lift_uri(uri);
        let ghost start = diagnostic_places(self.diagnostics@);
        let mut i: usize = 0;
        while i < ranges.len()
            invariant
                self.wf(),
                i <= ranges@.len(),
                lifted@ == spec_lift_uri(uri@),
                self.spec_symbol_ranges() == old(self).spec_symbol_ranges(),
                diagnostic_places(self.spec_diagnostics()) == start.union(
                    places_in(lifted@, ranges@.take(i as int)),
                ),
            decreases ranges.len() - i,
        {
            let d = Diagnostic { uri: lifted.clone(), range: ranges[i] };
            self.insert_diagnostic(d);
            proof {
                assert(ranges@.take(i + 1) =~= ranges@.take(i as int) + seq![ranges@[i as int]]);
                lemma_places_in_concat(lifted@, ranges@.take(i as int), seq![ranges@[i as int]]);
                lemma_places_in_single(lifted@, ranges@[i as int]);
                assert(start.union(places_in(lifted@, ranges@.take(i + 1))) =~= start.union(
                    places_in(lifted@, ranges@.take(i as int)),
                ).insert((lifted@, ranges@[i as int])));
            }
            i = i + 1;
        }
        assert(ranges@.take(ranges@.len() as int) =~= ranges@);
    }

    /// Records the selection ranges of the symbols a server reported for the
    /// document `uri`, nested symbols included.
    pub fn record_document_symbols(&mut self, uri: &str, symbols: &Vec<DocumentSymbolNode>)
        requires
            old(self).wf(),
        ensures
            final(self).wf(),
            final(self).spec_diagnostics() == old(self).spec_diagnostics(),
            symbol_places(final(self).spec_symbol_ranges()) == symbol_places(
                old(self).spec_symbol_ranges(),
            ).union(places_in(uri@, forest_ranges(symbols@))),
        decreases symbols@,
    {
        let ghost start = symbol_places(self.symbol_ranges@);
        let mut i: usize = 0;
        while i < symbols.len()
            invariant
                self.wf(),
                i <= symbols@.len(),
                self.spec_diagnostics() == old(self).spec_diagnostics(),
                symbol_places(self.spec_symbol_ranges()) == start.union(
                    places_in(uri@, forest_ranges(symbols@.take(i as int))),
                ),
            decreases symbols.len() - i,
        {
            let node = &symbols[i];
            let ghost mid = symbol_places(self.symbol_ranges@);
            self.insert_symbol_range(SymbolRange { uri: String::from_str(uri), range: node.selection_range });
            match &node.children {
                Some(children) => {
                    assert(decreases_to!(symbols@ => symbols@[i as int]));
                    self.record_document_symbols(uri, children);
                },
                None => {},
            }
            proof {
                lemma_forest_ranges_push(symbols@.take(i as int), symbols@[i as int]);
                assert(symbols@.take(i + 1) =~= symbols@.take(i as int).push(symbols@[i as int]));
                lemma_places_in_concat(uri@, forest_ranges(symbols@.take(i as int)), node_ranges(symbols@[i as int]));
                lemma_places_in_node(uri@, symbols@[i as int]);
                assert(start.union(places_in(uri@, forest_ranges(symbols@.take(i + 1)))) =~= symbol_places(self.symbol_ranges@));
            }
            i = i + 1;
        }
        assert(symbols@.take(symbols@.len() as int) =~= symbols@);
    }
}

/// The diagnostics of one `textDocument/publishDiagnostics` notification.
#[derive(Debug, Clone)]
pub struct PublishedDiagnostics {
    pub uri: String,
    pub ranges: Vec<Range>,
}

/// The nested symbols a server answered a `textDocument/documentSymbol`
/// request with, and the document that request named.
#[derive(Debug)]
pub struct DocumentSymbolsReply {
    pub uri: String,
    pub symbols: Vec<DocumentSymbolNode>,
}

/// The places of all published diagnostics.
pub open spec fn published_places(ps: Seq<PublishedDiagnostics>) -> Set<Place> {
    Set::new(|p: Place| exists|i: int| 0 <= i < ps.len() && #[trigger] places_in(spec_lift_uri(ps[i].uri@), ps[i].ranges@).contains(p))
}

/// The places of all reported document symbols.
pub open spec fn reported_symbol_places(rs: Seq<DocumentSymbolsReply>) -> Set<Place> {
    Set::new(|p: Place| exists|i: int| 0 <= i < rs.len() && #[trigger] places_in(rs[i].uri@, forest_ranges(rs[i].symbols@)).contains(p))
}

impl LspResponseInfo {
    /// What the fuzzer keeps of the replies to an input: every published
    /// diagnostic and the range of every reported document symbol, each
    /// place once.
    pub fn from_replies(
        published: &Vec<PublishedDiagnostics>,
        document_symbols: &Vec<DocumentSymbolsReply>,
    ) -> (r: Self)
        ensures
            r.wf(),
            diagnostic_places(r.spec_diagnostics()) == published_places(published@),
            symbol_places(r.spec_symbol_ranges()) == reported_symbol_places(document_symbols@),
    {
        let mut info = LspResponseInfo::new();
        assert(diagnostic_places(info.diagnostics@) =~= Set::<Place>::empty());
        assert(symbol_places(info.symbol_ranges@) =~= Set::<Place>::empty());
        let mut i: usize = 0;
        while i < published.len()
            invariant
                info.wf(),
                i <= published@.len(),
                symbol_places(info.spec_symbol_ranges()) == Set::<Place>::empty(),
                diagnostic_places(info.spec_diagnostics()) == published_places(published@.take(i as int)),
            decreases published.len() - i,
        {
            let ghost before = diagnostic_places(info.diagnostics@);
            info.record_published_diagnostics(published[i].uri.as_str(), published[i].ranges.as_slice());
            proof {
                let ps = published@;
                let step = places_in(spec_lift_uri(ps[i as int].uri@), ps[i as int].ranges@);
                assert forall|p: Place| published_places(ps.take(i + 1)).contains(p) <==> before.union(step).contains(p) by {
                    if published_places(ps.take(i + 1)).contains(p) {
                        let k = choose|k: int| 0 <= k < i + 1 && #[trigger] places_in(spec_lift_uri(ps.take(i + 1)[k].uri@), ps.take(i + 1)[k].ranges@).contains(p);
                        if k < i {
                            assert(ps.take(i as int)[k] == ps[k]);
                            assert(places_in(spec_lift_uri(ps.take(i as int)[k].uri@), ps.take(i as int)[k].ranges@).contains(p));
                        }
                    }
                    if before.contains(p) {
                        let k = choose|k: int| 0 <= k < i && #[trigger] places_in(spec_lift_uri(ps.take(i as int)[k].uri@), ps.take(i as int)[k].ranges@).contains(p);
                        assert(ps.take(i + 1)[k] == ps[k]);
                        assert(places_in(spec_lift_uri(ps.take(i + 1)[k].uri@), ps.take(i + 1)[k].ranges@).contains(p));
                    }
                    if step.contains(p) {
                        assert(ps.take(i + 1)[i as int] == ps[i as int]);
                        assert(places_in(spec_lift_uri(ps.take(i + 1)[i as int].uri@), ps.take(i + 1)[i as int].ranges@).contains(p));
                    }
                }
                assert(published_places(ps.take(i + 1)) =~= before.union(step));
            }
            i = i + 1;
        }
        assert(published@.take(published@.len() as int) =~= published@);
        let mut j: usize = 0;
        while j < document_symbols.len()
            invariant
                info.wf(),
                j <= document_symbols@.len(),
                diagnostic_places(info.spec_diagnostics()) == published_places(published@),
                symbol_places(info.spec_symbol_ranges()) == reported_symbol_places(document_symbols@.take(j as int)),
            decreases document_symbols.len() - j,
        {
            let ghost before = symbol_places(info.symbol_ranges@);
            info.record_document_symbols(document_symbols[j].uri.as_str(), &document_symbols[j].symbols);
            proof {
                let rs = document_symbols@;
                let step = places_in(rs[j as int].uri@, forest_ranges(rs[j as int].symbols@));
                assert forall|p: Place| reported_symbol_places(rs.take(j + 1)).contains(p) <==> before.union(step).contains(p) by {
                    if reported_symbol_places(rs.take(j + 1)).contains(p) {
                        let k = choose|k: int| 0 <= k < j + 1 && #[trigger] places_in(rs.take(j + 1)[k].uri@, forest_ranges(rs.take(j + 1)[k].symbols@)).contains(p);
                        if k < j {
                            assert(rs.take(j as int)[k] == rs[k]);
                            assert(places_in(rs.take(j as int)[k].uri@, forest_ranges(rs.take(j as int)[k].symbols@)).contains(p));
                        }
                    }
                    if before.contains(p) {
                        let k = choose|k: int| 0 <= k < j && #[trigger] places_in(rs.take(j as int)[k].uri@, forest_ranges(rs.take(j as int)[k].symbols@)).contains(p);
                        assert(rs.take(j + 1)[k] == rs[k]);
                        assert(places_in(rs.take(j + 1)[k].uri@, forest_ranges(rs.take(j + 1)[k].symbols@)).contains(p));
                    }
                    if step.contains(p) {
                        assert(rs.take(j + 1)[j as int] == rs[j as int]);
                        assert(places_in(rs.take(j + 1)[j as int].uri@, forest_ranges(rs.take(j + 1)[j as int].symbols@)).contains(p));
                    }
                }
                assert(reported_symbol_places(rs.take(j + 1)) =~= before.union(step));
            }
            j = j + 1;
        }
        assert(document_symbols@.take(document_symbols@.len() as int) =~= document_symbols@);
        info
    }
}

proof fn lemma_forest_ranges_push(ns: Seq<DocumentSymbolNode>, n: DocumentSymbolNode)
    ensures
        forest_ranges(ns.push(n)) == forest_ranges(ns) + node_ranges(n),
    decreases ns.len(),
{
    if ns.len() == 0 {
        assert(ns.push(n).drop_first() =~= Seq::<DocumentSymbolNode>::empty());
        assert(forest_ranges(ns.push(n)) =~= node_ranges(n) + forest_ranges(Seq::<DocumentSymbolNode>::empty()));
        assert(forest_ranges(ns.push(n)) =~= forest_ranges(ns) + node_ranges(n));
    } else {
        lemma_forest_ranges_push(ns.drop_first(), n);
        assert(ns.push(n).drop_first() =~= ns.drop_first().push(n));
        assert(forest_ranges(ns.push(n)) =~= forest_ranges(ns) + node_ranges(n));
    }
}

proof fn lemma_places_in_concat(uri: Seq<char>, a: Seq<Range>, b: Seq<Range>)
    ensures
        places_in(uri, a + b) == places_in(uri, a).union(places_in(uri, b)),
{
    assert forall|p: Place| places_in(uri, a + b).contains(p) <==> places_in(uri, a).union(places_in(uri, b)).contains(p) by {
        if (a + b).contains(p.1) {
            let k = choose|k: int| 0 <= k < (a + b).len() && (a + b)[k] == p.1;
            if k < a.len() {
                assert(a[k] == p.1);
            } else {
                assert(b[k - a.len()] == p.1);
            }
        }
        if a.contains(p.1) {
            let k = choose|k: int| 0 <= k < a.len() && a[k] == p.1;
            assert((a + b)[k] == p.1);
        }
        if b.contains(p.1) {
            let k = choose|k: int| 0 <= k < b.len() && b[k] == p.1;
            assert((a + b)[k + a.len()] == p.1);
        }
    }
    assert(places_in(uri, a + b) =~= places_in(uri, a).union(places_in(uri, b)));
}

proof fn lemma_places_in_single(uri: Seq<char>, r: Range)
    ensures
        places_in(uri, seq![r]) == Set::<Place>::empty().insert((uri, r)),
{
    assert forall|p: Place| places_in(uri, seq![r]).contains(p) <==> p == (uri, r) by {
        if p == (uri, r) {
            assert(seq![r][0] == p.1);
        }
    }
    assert(places_in(uri, seq![r]) =~= Set::<Place>::empty().insert((uri, r)));
}

proof fn lemma_places_in_node(uri: Seq<char>, n: DocumentSymbolNode)
    ensures
        places_in(uri, node_ranges(n)) == places_in(uri, seq![n.selection_range]).union(
            places_in(uri, match n.children {
                Some(cs) => forest_ranges(cs@),
                None => Seq::empty(),
            }),
        ),
        places_in(uri, seq![n.selection_range]) == Set::<Place>::empty().insert((uri, n.selection_range)),
{
    lemma_places_in_concat(uri, seq![n.selection_range], match n.children {
        Some(cs) => forest_ranges(cs@),
        None => Seq::empty(),
    });
    assert forall|p: Place| places_in(uri, seq![n.selection_range]).contains(p) <==> p == (uri, n.selection_range) by {
        if p == (uri, n.selection_range) {
            assert(seq![n.selection_range][0] == p.1);
        }
    }
    assert(places_in(uri, seq![n.selection_range]) =~= Set::<Place>::empty().insert((uri, n.selection_range)));
}

} // verus!
