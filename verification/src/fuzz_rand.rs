//! The fuzzer's source of randomness: libafl's standard generator.
use libafl_bolts::rands::Rand;
use vstd::prelude::*;

verus! {

#[verifier::external_type_specification]
#[verifier::external_body]
pub struct ExRomuDuoJrRand(libafl_bolts::rands::RomuDuoJrRand);

/// `Rand::below`: a number under `upper`, which must not be zero.
#[verifier::external_body]
pub(crate) fn rand_below(rand: &mut libafl_bolts::rands::RomuDuoJrRand, upper: usize) -> (r: usize)
    requires
        upper > 0,
    ensures
        r < upper,
{
    rand.below(core::num::NonZero::new(upper).unwrap())
}

/// `Rand::below_or_zero`: a number under `n`, or zero when `n` is zero.
#[verifier::external_body]
pub(crate) fn rand_below_or_zero(rand: &mut libafl_bolts::rands::RomuDuoJrRand, n: usize) -> (r: usize)
    ensures
        n == 0 ==> r == 0,
        n > 0 ==> r < n,
{
    rand.below_or_zero(n)
}

/// `Rand::between`: a number from `lower` to `upper`, both included.
#[verifier::external_body]
pub(crate) fn rand_between(
    rand: &mut libafl_bolts::rands::RomuDuoJrRand,
    lower: usize,
    upper: usize,
) -> (r: usize)
    requires
        lower <= upper,
    ensures
        lower <= r <= upper,
{
    rand.between(lower, upper)
}

/// `Rand::next`: the next raw 64-bit value.
#[verifier::external_body]
pub(crate) fn rand_next(rand: &mut libafl_bolts::rands::RomuDuoJrRand) -> (r: u64) {
    rand.next()
}

/// `Rand::choose` over the indices `0..len`: one of them, or `None` when there is none.
#[verifier::external_body]
pub(crate) fn rand_choose_index(rand: &mut libafl_bolts::rands::RomuDuoJrRand, len: usize) -> (r: Option<
    usize,
>)
    ensures
        r is None <==> len == 0,
        r matches Some(i) ==> i < len,
{
    rand.choose(0..len)
}

} // verus!
