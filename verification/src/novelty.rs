//! Whether the diagnostics a server published after an input are of a kind
//! the fuzzer has not seen.
use vstd::prelude::*;

use crate::bloom::{
    bloom_insert, bloom_reports, bloom_with_num_bits, code_number, code_text, opt_text, DiagnosticCode,
    FilterItem, FilterKey, SeenFilter,
};

verus! {

/// The kind of a diagnostic: its code and its source.
pub type DiagnosticKind = (Option<DiagnosticCode>, Option<String>);

/// A kind of diagnostic as an item of a filter.
pub open spec fn diagnostic_item(kind: DiagnosticKind) -> FilterItem {
    FilterItem::Diagnostic(code_number(kind.0), code_text(kind.0), opt_text(kind.1))
}

fn copy_code(code: &Option<DiagnosticCode>) -> (r: Option<DiagnosticCode>)
    ensures
        code_number(r) == code_number(*code),
        code_text(r) == code_text(*code),
{
    match code {
        Some(DiagnosticCode::Number(n)) => Some(DiagnosticCode::Number(*n)),
        Some(DiagnosticCode::Text(t)) => Some(DiagnosticCode::Text(t.clone())),
        None => None,
    }
}

fn copy_text(text: &Option<String>) -> (r: Option<String>)
    ensures
        opt_text(r) == opt_text(*text),
{
    match text {
        Some(t) => Some(t.clone()),
        None => None,
    }
}

fn diagnostic_filter_key(kind: &DiagnosticKind) -> (k: FilterKey)
    ensures
        k@ == diagnostic_item(*kind),
{
    FilterKey::Diagnostic(copy_code(&kind.0), copy_text(&kind.1))
}

/// The kinds of diagnostics the fuzzer has seen, remembered in a Bloom filter.
pub struct ObservedDiagnosticCodes {
    inner: SeenFilter,
}

impl ObservedDiagnosticCodes {
    /// The items the filter reports as seen.
    pub closed spec fn reports(&self) -> Set<FilterItem> {
        bloom_reports(self.inner)
    }

    /// A record of nothing, over a filter of `num_bits` bits whose number of
    /// hashes suits `expected_items` kinds.
    pub fn with_num_bits(num_bits: usize, expected_items: usize) -> (r: Self)
        requires
            num_bits > 0,
        ensures
            r.reports() == Set::<FilterItem>::empty(),
    {
        ObservedDiagnosticCodes { inner: bloom_with_num_bits(num_bits, expected_items) }
    }

    /// Records a kind of diagnostic and tells whether it was new: not
    /// reported as seen before. Recording a kind that was seen changes nothing.
    pub fn merge(&mut self, code: &DiagnosticKind) -> (new: bool)
        ensures
            new == !old(self).reports().contains(diagnostic_item(*code)),
            !new ==> *final(self) == *old(self),
            old(self).reports().insert(diagnostic_item(*code)).subset_of(final(self).reports()),
    {
        !bloom_insert(&mut self.inner, &diagnostic_filter_key(code))
    }
}

/// The kind at `k` is the first of `kinds` that is not reported as seen.
pub open spec fn first_unseen_at(reports: Set<FilterItem>, kinds: Seq<DiagnosticKind>, k: int) -> bool {
    &&& 0 <= k < kinds.len()
    &&& !reports.contains(diagnostic_item(kinds[k]))
    &&& forall|j: int| 0 <= j < k ==> reports.contains(diagnostic_item(#[trigger] kinds[j]))
}

/// Some kind of `kinds` is not reported as seen.
pub open spec fn has_unseen_kind(reports: Set<FilterItem>, kinds: Seq<DiagnosticKind>) -> bool {
    exists|i: int| 0 <= i < kinds.len() && !reports.contains(diagnostic_item(#[trigger] kinds[i]))
}

/// Whether the diagnostics of the first `textDocument/publishDiagnostics`
/// notification a server sent, if any, make an input interesting: some kind
/// among them has not been seen. The kinds are recorded in turn up to the
/// first new one; with none new, or no notification, nothing changes.
pub fn novelty_is_interesting(observed: &mut ObservedDiagnosticCodes, published: Option<Vec<DiagnosticKind>>) -> (r: bool)
    ensures
        match published {
            None => !r && *final(observed) == *old(observed),
            Some(kinds) => {
                &&& r == has_unseen_kind(old(observed).reports(), kinds@)
                &&& !r ==> *final(observed) == *old(observed)
                &&& old(observed).reports().subset_of(final(observed).reports())
                &&& r ==> exists|k: int| first_unseen_at(old(observed).reports(), kinds@, k)
                    && final(observed).reports().contains(diagnostic_item(#[trigger] kinds@[k]))
            },
        },
{
    match published {
        Some(kinds) => merge_until_new(observed, &kinds),
        None => false,
    }
}

/// Records `kinds` in turn until one is new, and tells whether one was.
fn merge_until_new(observed: &mut ObservedDiagnosticCodes, kinds: &Vec<DiagnosticKind>) -> (r: bool)
    ensures
        r == has_unseen_kind(old(observed).reports(), kinds@),
        !r ==> *final(observed) == *old(observed),
        old(observed).reports().subset_of(final(observed).reports()),
        r ==> exists|k: int| first_unseen_at(old(observed).reports(), kinds@, k)
            && final(observed).reports().contains(diagnostic_item(#[trigger] kinds@[k])),
{
    let ghost start = *observed;
    let mut i: usize = 0;
    while i < kinds.len()
        invariant
            i <= kinds@.len(),
            start == *old(observed),
            *observed == start,
            forall|j: int| 0 <= j < i ==> start.reports().contains(diagnostic_item(#[trigger] kinds@[j])),
        decreases kinds.len() - i,
    {
        if observed.merge(&kinds[i]) {
            assert(first_unseen_at(start.reports(), kinds@, i as int));
            assert(!start.reports().contains(diagnostic_item(kinds@[i as int])));
            return true;
        }
        i = i + 1;
    }
    false
}

} // verus!
