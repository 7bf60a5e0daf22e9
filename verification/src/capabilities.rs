//! Data of the capabilities the fuzzer's client announces.
use vstd::prelude::*;

verus! {

/// The numbers of all symbol kinds of the protocol, from `File` (1) to
/// `TypeParameter` (26), in order.
pub open spec fn spec_all_symbol_kinds() -> Seq<i32> {
    Seq::new(26, |i: int| (i + 1) as i32)
}

/// Every symbol kind, by its protocol number.
pub fn all_symbol_kinds() -> (r: Vec<i32>)
    ensures
        r@ == spec_all_symbol_kinds(),
{
    let mut kinds: Vec<i32> = Vec::new();
    let mut k: i32 = 1;
    while k <= 26
        invariant
            1 <= k <= 27,
            kinds@ == spec_all_symbol_kinds().take(k - 1),
        decreases 27 - k,
    {
        kinds.push(k);
        assert(spec_all_symbol_kinds().take(k as int) =~= spec_all_symbol_kinds().take(k - 1).push(k));
        k = k + 1;
    }
    assert(spec_all_symbol_kinds().take(26) =~= spec_all_symbol_kinds());
    kinds
}

} // verus!
