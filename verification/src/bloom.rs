//! The Bloom filters in which the fuzzer remembers what it has seen.
//!
//! A filter is modelled by the items it reports as possibly inserted: those
//! on which its `contains` answers `true`. Inserting an item makes the filter
//! report it, keeps every item it reported before, and tells whether the
//! item was reported already.
use vstd::prelude::*;

use fastbloom::BloomFilter;

verus! {

/// A Bloom filter of fastbloom with its default hasher. Verus sees nothing
/// inside it; `bloom_reports` names what it holds.
#[verifier::external_body]
pub struct SeenFilter {
    inner: BloomFilter,
}

/// A code that a diagnostic carries: a number or a text.
#[derive(Debug, Clone, PartialEq, Eq, Hash)]
pub enum DiagnosticCode {
    Number(i32),
    Text(String),
}

/// What the fuzzer puts into its filters.
#[derive(Debug, Clone, PartialEq, Eq, Hash)]
pub enum FilterKey {
    /// The behavior of an operation: language, kind of syntax node, method.
    Behavior(String, u16, String),
    /// The kind of a diagnostic: its code and its source.
    Diagnostic(Option<DiagnosticCode>, Option<String>),
}

/// A filter key by its values. A diagnostic code is split into its number
/// and its text, of which at most one is present.
pub enum FilterItem {
    Behavior(Seq<char>, u16, Seq<char>),
    Diagnostic(Option<i32>, Option<Seq<char>>, Option<Seq<char>>),
}

pub open spec fn code_number(code: Option<DiagnosticCode>) -> Option<i32> {
    match code {
        Some(DiagnosticCode::Number(n)) => Some(n),
        _ => None,
    }
}

pub open spec fn code_text(code: Option<DiagnosticCode>) -> Option<Seq<char>> {
    match code {
        Some(DiagnosticCode::Text(s)) => Some(s@),
        _ => None,
    }
}

pub open spec fn opt_text(s: Option<String>) -> Option<Seq<char>> {
    match s {
        Some(s) => Some(s@),
        None => None,
    }
}

impl View for FilterKey {
    type V = FilterItem;

    open spec fn view(&self) -> FilterItem {
        match self {
            FilterKey::Behavior(language, kind, method) => FilterItem::Behavior(language@, *kind, method@),
            FilterKey::Diagnostic(code, source) => FilterItem::Diagnostic(
                code_number(*code),
                code_text(*code),
                opt_text(*source),
            ),
        }
    }
}

/// The items that `filter` reports as possibly inserted: the views of the
/// keys on which its `contains` answers `true`.
pub uninterp spec fn bloom_reports(filter: SeenFilter) -> Set<FilterItem>;

/// `BloomFilter::with_num_bits(num_bits).expected_items(expected_items)` of
/// fastbloom: a filter whose bits, `num_bits` rounded up to a multiple of 64,
/// are all clear, so that it reports nothing. `with_num_bits` panics on 0.
#[verifier::external_body]
pub(crate) fn bloom_with_num_bits(num_bits: usize, expected_items: usize) -> (filter: SeenFilter)
    requires
        num_bits > 0,
    ensures
        bloom_reports(filter) == Set::<FilterItem>::empty(),
{
    SeenFilter { inner: BloomFilter::with_num_bits(num_bits).expected_items(expected_items) }
}

/// `BloomFilter::contains` of fastbloom: whether the filter reports `key`.
#[verifier::external_body]
pub(crate) fn bloom_contains(filter: &SeenFilter, key: &FilterKey) -> (r: bool)
    ensures
        r == bloom_reports(*filter).contains(key@),
{
    filter.inner.contains(key)
}

/// `BloomFilter::insert` of fastbloom. Its source sets the bits of the key's
/// hashes and returns whether all of them were set already, which is what
/// `contains` checks; when they were, no bit changes. Bits are only ever set,
/// so every item reported before stays reported, and the key is reported
/// after. Which other items become reported (false positives) is not stated.
#[verifier::external_body]
pub(crate) fn bloom_insert(filter: &mut SeenFilter, key: &FilterKey) -> (previously: bool)
    ensures
        previously == bloom_reports(*old(filter)).contains(key@),
        previously ==> *final(filter) == *old(filter),
        bloom_reports(*old(filter)).insert(key@).subset_of(bloom_reports(*final(filter))),
{
    filter.inner.insert(key)
}

} // verus!
