//! Mutators over inputs and the parts of inputs.
use std::marker::PhantomData;

use vstd::prelude::*;

use crate::fuzz_state::FuzzState;

use crate::fuzz_rand::{rand_below, rand_between};
use crate::lsp_input::LspInput;

verus! {

/// Whether a mutator changed its input.
#[derive(Debug, Clone, Copy, PartialEq, Eq)]
pub enum MutationResult {
    Mutated,
    Skipped,
}

/// Changes an input of type `I` at random.
pub trait InputMutator<I> {
    /// Whether a mutation by this mutator may turn `before` into `after`
    /// with the outcome `res`.
    spec fn may_mutate(&self, before: I, after: I, res: MutationResult) -> bool;

    /// Whether this mutator may fail with an error of the fuzzer.
    spec fn may_fail(&self) -> bool;

    fn mutate(
        &mut self,
        state: &mut FuzzState,
        input: &mut I,
    ) -> (r: Result<MutationResult, libafl_bolts::Error>)
        ensures
            final(state).response_info == old(state).response_info,
            r matches Ok(res) ==> old(self).may_mutate(*old(input), *final(input), res),
            r is Err ==> old(self).may_fail(),
    ;
}

/// How a call of `m` may end, turning `before` into `after`: an outcome it
/// may have, or an error when it may fail.
pub open spec fn mutation_ends<I, M: InputMutator<I>>(
    m: M,
    before: I,
    after: I,
    r: Result<MutationResult, libafl_bolts::Error>,
) -> bool {
    match r {
        Ok(res) => m.may_mutate(before, after, res),
        Err(_) => m.may_fail(),
    }
}

/// `s` with the elements at `i` and `j` exchanged.
pub open spec fn spec_swap<T>(s: Seq<T>, i: int, j: int) -> Seq<T> {
    s.update(i, s[j]).update(j, s[i])
}

/// Whether `after` is `before` with two of its elements exchanged (possibly
/// an element with itself).
pub open spec fn is_swap_of<T>(after: Seq<T>, before: Seq<T>) -> bool {
    exists|i: int, j: int|
        0 <= i < before.len() && 0 <= j < before.len() && after == spec_swap(before, i, j)
}

/// Exchanging two elements keeps every element: the sequence after a swap
/// holds the same elements, as often, as before.
pub proof fn lemma_swap_keeps_elements<T>(s: Seq<T>, i: int, j: int)
    requires
        0 <= i < s.len(),
        0 <= j < s.len(),
    ensures
        spec_swap(s, i, j).to_multiset() == s.to_multiset(),
        spec_swap(s, i, j).len() == s.len(),
{
    broadcast use vstd::seq_lib::to_multiset_update;
    broadcast use vstd::multiset::group_multiset_axioms;

    let t = s.update(i, s[j]);
    assert(t[j] == (if i == j { s[j] } else { s[j] }));
    assert(t.to_multiset() == s.to_multiset().insert(s[j]).remove(s[i]));
    assert(t.update(j, s[i]).to_multiset() == t.to_multiset().insert(s[i]).remove(t[j]));
    broadcast use vstd::seq_lib::to_multiset_contains;

    let m = s.to_multiset();
    assert(t[j] == s[j]);
    assert(s.contains(s[i]));
    assert(m.count(s[i]) > 0);
    assert forall|x: T| #[trigger] spec_swap(s, i, j).to_multiset().count(x) == m.count(x) by {
        let m1 = m.insert(s[j]);
        let m2 = m1.remove(s[i]);
        let m3 = m2.insert(s[i]);
        let m4 = m3.remove(s[j]);
        assert(m4.count(x) == m.count(x));
    }
    assert(spec_swap(s, i, j).to_multiset() =~= s.to_multiset());
}

/// Exchanges the elements at `i` and `j`.
pub fn vec_swap<T>(v: &mut Vec<T>, i: usize, j: usize)
    requires
        i < old(v)@.len(),
        j < old(v)@.len(),
    ensures
        final(v)@ == spec_swap(old(v)@, i as int, j as int),
{
    if i == j {
        assert(v@ =~= spec_swap(old(v)@, i as int, j as int));
        return;
    }
    let (lo, hi) = if i < j {
        (i, j)
    } else {
        (j, i)
    };
    let b = v.remove(hi);
    let a = v.remove(lo);
    v.insert(lo, b);
    v.insert(hi, a);
    assert(v@ =~= spec_swap(old(v)@, i as int, j as int));
}

// ---------------------------------------------------------------------------
// Combinators
// ---------------------------------------------------------------------------

/// Runs `first`; only when it skips, runs `second`.
#[derive(Debug)]
pub struct FallbackMutator<First, Second> {
    first: First,
    second: Second,
}

impl<First, Second> FallbackMutator<First, Second> {
    pub closed spec fn first(&self) -> First {
        self.first
    }

    pub closed spec fn second(&self) -> Second {
        self.second
    }

    pub fn new(first: First, second: Second) -> (r: Self)
        ensures
            r.first() == first,
            r.second() == second,
    {
        FallbackMutator { first, second }
    }
}

impl<I, First: InputMutator<I>, Second: InputMutator<I>> InputMutator<I> for FallbackMutator<
    First,
    Second,
> {
    /// What `first` does when it mutates; when it skips, what `second` does
    /// after it.
    open spec fn may_mutate(&self, before: I, after: I, res: MutationResult) -> bool {
        (res == MutationResult::Mutated && self.first().may_mutate(before, after, res)) || exists|mid: I|
            #![trigger self.first().may_mutate(before, mid, MutationResult::Skipped)]
            self.first().may_mutate(before, mid, MutationResult::Skipped) && self.second().may_mutate(mid, after, res)
    }

    open spec fn may_fail(&self) -> bool {
        self.first().may_fail() || self.second().may_fail()
    }

    /// Calls `first`; when it skips, the outcome is that of `second` called
    /// after it; otherwise the outcome of `first`, an error included, ends
    /// the call.
    fn mutate(
        &mut self,
        state: &mut FuzzState,
        input: &mut I,
    ) -> (r: Result<MutationResult, libafl_bolts::Error>)
        ensures
            exists|mid: I, r1: Result<MutationResult, libafl_bolts::Error>|
                #[trigger] mutation_ends(old(self).first(), *old(input), mid, r1) && if r1 == Ok::<
                    MutationResult,
                    libafl_bolts::Error,
                >(MutationResult::Skipped) {
                    mutation_ends(old(self).second(), mid, *final(input), r)
                } else {
                    r == r1 && *final(input) == mid
                },
    {
        let ghost before = *input;
        let first = self.first.mutate(state, input);
        let ghost mid = *input;
        let ghost r1 = first;
        match first {
            Ok(MutationResult::Skipped) => {
                let r = self.second.mutate(state, input);
                proof {
                    if r is Ok {
                        assert(old(self).first().may_mutate(before, mid, MutationResult::Skipped)
                            && old(self).second().may_mutate(mid, *input, r->Ok_0));
                    }
                    assert(mutation_ends(old(self).first(), before, mid, r1));
                }
                r
            },
            other => {
                assert(mutation_ends(old(self).first(), before, mid, r1));
                other
            },
        }
    }
}

/// Exchanges two random elements of a vector.
#[derive(Debug)]
pub struct SliceSwapMutator<T> {
    _item: PhantomData<T>,
}

impl<T> SliceSwapMutator<T> {
    pub fn new() -> (r: Self) {
        SliceSwapMutator { _item: PhantomData }
    }
}

impl<T> InputMutator<Vec<T>> for SliceSwapMutator<T> {
    /// A vector of fewer than two elements is skipped; any other gets two of
    /// its elements exchanged.
    /// It never fails.
    open spec fn may_fail(&self) -> bool {
        false
    }

    open spec fn may_mutate(&self, before: Vec<T>, after: Vec<T>, res: MutationResult) -> bool {
        &&& before@.len() < 2 ==> res == MutationResult::Skipped && after@ == before@
        &&& before@.len() >= 2 ==> res == MutationResult::Mutated && is_swap_of(after@, before@)
    }

    fn mutate(
        &mut self,
        state: &mut FuzzState,
        input: &mut Vec<T>,
    ) -> (r: Result<MutationResult, libafl_bolts::Error>)
        ensures
            old(input)@.len() < 2 ==> (r matches Ok(MutationResult::Skipped) && final(input)@ == old(
                input,
            )@),
            old(input)@.len() >= 2 ==> (r matches Ok(MutationResult::Mutated) && is_swap_of(
                final(input)@,
                old(input)@,
            )),
    {
        let len = input.len();
        if len < 2 {
            return Ok(MutationResult::Skipped);
        }
        let idx1 = rand_below(&mut state.rand, len);
        let idx2 = rand_below(&mut state.rand, len);
        let ghost before = input@;
        vec_swap(input, idx1, idx2);
        assert(is_swap_of(input@, before)) by {
            assert(0 <= idx1 < before.len() && 0 <= idx2 < before.len() && input@ == spec_swap(
                before,
                idx1 as int,
                idx2 as int,
            ));
        }
        Ok(MutationResult::Mutated)
    }
}

/// Mutates the value inside an `Option`; skips `None`.
#[derive(Debug)]
pub struct OptionMutator<M> {
    mutator: M,
}

impl<M> OptionMutator<M> {
    pub closed spec fn inner(&self) -> M {
        self.mutator
    }

    pub fn new(mutator: M) -> (r: Self)
        ensures
            r.inner() == mutator,
    {
        OptionMutator { mutator }
    }
}

impl<I, M: InputMutator<I>> InputMutator<Option<I>> for OptionMutator<M> {
    /// `None` is skipped; a value is mutated by the inner mutator.
    open spec fn may_mutate(&self, before: Option<I>, after: Option<I>, res: MutationResult) -> bool {
        match before {
            None => after is None && res == MutationResult::Skipped,
            Some(x) => after matches Some(y) && self.inner().may_mutate(x, y, res),
        }
    }

    open spec fn may_fail(&self) -> bool {
        self.inner().may_fail()
    }

    fn mutate(
        &mut self,
        state: &mut FuzzState,
        input: &mut Option<I>,
    ) -> (r: Result<MutationResult, libafl_bolts::Error>)
        ensures
            *old(input) is None ==> (r matches Ok(MutationResult::Skipped) && *final(input) is None),
            *old(input) is Some ==> *final(input) is Some && mutation_ends(
                old(self).inner(),
                old(input)->0,
                final(input)->0,
                r,
            ),
    {
        match input {
            Some(it) => self.mutator.mutate(state, it),
            None => Ok(MutationResult::Skipped),
        }
    }
}

/// Gives mutable access to the field numbered `OFFSET` of a value.
pub trait HasMutProp<const OFFSET: usize> {
    type PropType;

    /// The field's value.
    spec fn prop(&self) -> Self::PropType;

    fn get_field(&mut self) -> (r: &mut Self::PropType)
        ensures
            *r == old(self).prop(),
            final(self).prop() == *final(r),
    ;
}

/// Mutates one field of a value with an inner mutator.
#[derive(Debug)]
pub struct PropMutator<PM, const PROP_ID: usize> {
    mutator: PM,
}

impl<PM, const PROP_ID: usize> PropMutator<PM, PROP_ID> {
    pub closed spec fn inner(&self) -> PM {
        self.mutator
    }

    pub fn new(mutator: PM) -> (r: Self)
        ensures
            r.inner() == mutator,
    {
        PropMutator { mutator }
    }
}

impl<I, T, PM, const PROP_ID: usize> InputMutator<I> for PropMutator<PM, PROP_ID> where
    PM: InputMutator<T>,
    I: HasMutProp<PROP_ID, PropType = T>,
 {
    /// What the inner mutator does to the field.
    open spec fn may_mutate(&self, before: I, after: I, res: MutationResult) -> bool {
        self.inner().may_mutate(before.prop(), after.prop(), res)
    }

    open spec fn may_fail(&self) -> bool {
        self.inner().may_fail()
    }

    /// The outcome, an error included, is that of the inner mutator on the field.
    fn mutate(
        &mut self,
        state: &mut FuzzState,
        input: &mut I,
    ) -> (r: Result<MutationResult, libafl_bolts::Error>)
        ensures
            mutation_ends(old(self).inner(), old(input).prop(), final(input).prop(), r),
    {
        let field = input.get_field();
        self.mutator.mutate(state, field)
    }
}

/// Mutates an input's documents, then its messages; reports a change when
/// either mutator made one.
#[derive(Debug)]
pub struct LspInputMutator<TM, RM> {
    text_document_mutator: TM,
    requests_mutator: RM,
}

impl<TM, RM> LspInputMutator<TM, RM> {
    pub closed spec fn text_document_mutator(&self) -> TM {
        self.text_document_mutator
    }

    pub closed spec fn requests_mutator(&self) -> RM {
        self.requests_mutator
    }

    pub fn new(text_document_mutator: TM, requests_mutator: RM) -> (r: Self)
        ensures
            r.text_document_mutator() == text_document_mutator,
            r.requests_mutator() == requests_mutator,
    {
        LspInputMutator { text_document_mutator, requests_mutator }
    }
}

/// The combined outcome of two mutations that both succeeded.
pub open spec fn spec_either_mutated(a: MutationResult, b: MutationResult) -> MutationResult {
    if a == MutationResult::Mutated || b == MutationResult::Mutated {
        MutationResult::Mutated
    } else {
        MutationResult::Skipped
    }
}

impl<TM: InputMutator<LspInput>, RM: InputMutator<LspInput>> InputMutator<LspInput> for LspInputMutator<
    TM,
    RM,
> {
    /// What the document mutator does, then what the message mutator does
    /// after it; a change by either is reported.
    open spec fn may_mutate(&self, before: LspInput, after: LspInput, res: MutationResult) -> bool {
        exists|mid: LspInput, a: MutationResult, b: MutationResult|
            #![trigger self.text_document_mutator().may_mutate(before, mid, a), self.requests_mutator().may_mutate(mid, after, b)]
            self.text_document_mutator().may_mutate(before, mid, a) && self.requests_mutator().may_mutate(mid, after, b)
                && res == spec_either_mutated(a, b)
    }

    open spec fn may_fail(&self) -> bool {
        self.text_document_mutator().may_fail() || self.requests_mutator().may_fail()
    }

    /// Calls the document mutator, then the message mutator; an error of
    /// either ends the call and is returned.
    fn mutate(
        &mut self,
        state: &mut FuzzState,
        input: &mut LspInput,
    ) -> (r: Result<MutationResult, libafl_bolts::Error>)
        ensures
            exists|mid: LspInput, r1: Result<MutationResult, libafl_bolts::Error>|
                #[trigger] mutation_ends(old(self).text_document_mutator(), *old(input), mid, r1) && match r1 {
                    Err(_) => r == r1 && *final(input) == mid,
                    Ok(a) => exists|r2: Result<MutationResult, libafl_bolts::Error>|
                        #[trigger] mutation_ends(old(self).requests_mutator(), mid, *final(input), r2) && match r2 {
                            Err(_) => r == r2,
                            Ok(b) => r == Ok::<MutationResult, libafl_bolts::Error>(spec_either_mutated(a, b)),
                        },
                },
    {
        let ghost before = *input;
        let first = match self.text_document_mutator.mutate(state, input) {
            Ok(res) => res,
            Err(e) => {
                let ghost r1 = Err::<MutationResult, libafl_bolts::Error>(e);
                assert(mutation_ends(old(self).text_document_mutator(), before, *input, r1));
                return Err(e);
            },
        };
        let ghost mid = *input;
        assert(mutation_ends(old(self).text_document_mutator(), before, mid, Ok::<MutationResult, libafl_bolts::Error>(first)));
        let second = match self.requests_mutator.mutate(state, input) {
            Ok(res) => res,
            Err(e) => {
                let ghost r2 = Err::<MutationResult, libafl_bolts::Error>(e);
                assert(mutation_ends(old(self).requests_mutator(), mid, *input, r2));
                return Err(e);
            },
        };
        assert(mutation_ends(old(self).requests_mutator(), mid, *input, Ok::<MutationResult, libafl_bolts::Error>(second)));
        let res = either_mutated(first, second);
        assert(old(self).text_document_mutator().may_mutate(before, mid, first)
            && old(self).requests_mutator().may_mutate(mid, *input, second)
            && res == spec_either_mutated(first, second));
        Ok(res)
    }
}

/// `Mutated` when either outcome is `Mutated`.
pub fn either_mutated(a: MutationResult, b: MutationResult) -> (r: MutationResult)
    ensures
        r == spec_either_mutated(a, b),
{
    match (a, b) {
        (MutationResult::Skipped, MutationResult::Skipped) => MutationResult::Skipped,
        _ => MutationResult::Mutated,
    }
}

// ---------------------------------------------------------------------------
// Path segments
// ---------------------------------------------------------------------------

/// One segment of a file path, as characters.
#[derive(Debug, Clone, PartialEq, Eq, Hash)]
pub struct PathSegmentInput {
    pub inner: Vec<char>,
}

/// `char::from_u32`: the character with that scalar value, if there is one.
#[verifier::external_body]
fn char_from_u32(code: u32) -> (r: Option<char>)
    ensures
        r matches Some(c) ==> c as u32 == code,
        r is None <==> (0xD800 <= code <= 0xDFFF || code > 0x10FFFF),
{
    char::from_u32(code)
}

/// Whether `c` may stand in a path segment that the mutator builds.
pub open spec fn is_path_char(c: char) -> bool {
    &&& c as u32 >= 1
    &&& c != '/'
}

/// The `k`-th character that a path segment can gain, in order of scalar value.
pub open spec fn nth_path_char_code(k: int) -> int {
    if k < 0x2E {
        k + 1
    } else if k < 0xD7FE {
        k + 2
    } else {
        k - 0xD7FE + 0xE000
    }
}

/// A random character other than `/` and NUL, uniform over the scalar values.
fn random_path_char(rand: &mut libafl_bolts::rands::RomuDuoJrRand) -> (r: char)
    ensures
        is_path_char(r),
{
    let k = rand_below(rand, 0xD7FE + 0x10FFFF - 0xE000 + 1);
    let code: u32 = if k < 0x2E {
        (k + 1) as u32
    } else if k < 0xD7FE {
        (k + 2) as u32
    } else {
        (k - 0xD7FE + 0xE000) as u32
    };
    assert(code as int == nth_path_char_code(k as int));
    match char_from_u32(code) {
        Some(c) => c,
        None => 'a',
    }
}

/// The four edits of a path segment: append, delete, insert, prepend a character.
#[derive(Debug)]
pub struct PathSegmentMutator;

impl PathSegmentMutator {
    pub fn new() -> (r: Self) {
        PathSegmentMutator
    }
}

/// Whether `after` is `before` with `c` inserted at some index.
pub open spec fn is_insertion_of(after: Seq<char>, before: Seq<char>, c: char) -> bool {
    exists|i: int| 0 <= i <= before.len() && after == before.insert(i, c)
}

/// Whether `after` is `before` with one character removed.
pub open spec fn is_deletion_of(after: Seq<char>, before: Seq<char>) -> bool {
    exists|i: int| 0 <= i < before.len() && after == before.remove(i)
}

impl InputMutator<PathSegmentInput> for PathSegmentMutator {
    /// An empty segment may be skipped; otherwise one path character is
    /// inserted or one character is deleted.
    /// It never fails.
    open spec fn may_fail(&self) -> bool {
        false
    }

    open spec fn may_mutate(&self, before: PathSegmentInput, after: PathSegmentInput, res: MutationResult) -> bool {
        &&& res == MutationResult::Skipped ==> after.inner@ == before.inner@ && before.inner@.len() == 0
        &&& res == MutationResult::Mutated ==> (exists|c: char|
            is_path_char(c) && is_insertion_of(after.inner@, before.inner@, c)) || is_deletion_of(after.inner@, before.inner@)
    }

    fn mutate(
        &mut self,
        state: &mut FuzzState,
        input: &mut PathSegmentInput,
    ) -> (r: Result<MutationResult, libafl_bolts::Error>)
        ensures
            r matches Ok(MutationResult::Skipped) ==> final(input).inner@ == old(input).inner@
                && old(input).inner@.len() == 0,
            r matches Ok(MutationResult::Mutated) ==> (exists|c: char|
                is_path_char(c) && is_insertion_of(final(input).inner@, old(input).inner@, c))
                || is_deletion_of(final(input).inner@, old(input).inner@),
            r is Ok,
    {
        let new_char = random_path_char(&mut state.rand);
        let action = rand_below(&mut state.rand, 4);
        let ghost before = input.inner@;
        if action == 0 {
            input.inner.push(new_char);
            assert(input.inner@ == before.insert(before.len() as int, new_char));
            assert(is_insertion_of(input.inner@, before, new_char));
            Ok(MutationResult::Mutated)
        } else if action == 1 {
            if input.inner.len() > 0 {
                let idx = rand_below(&mut state.rand, input.inner.len());
                input.inner.remove(idx);
                assert(is_deletion_of(input.inner@, before));
                Ok(MutationResult::Mutated)
            } else {
                Ok(MutationResult::Skipped)
            }
        } else if action == 2 {
            let idx = rand_between(&mut state.rand, 0, input.inner.len());
            input.inner.insert(idx, new_char);
            assert(is_insertion_of(input.inner@, before, new_char));
            Ok(MutationResult::Mutated)
        } else {
            input.inner.insert(0, new_char);
            assert(is_insertion_of(input.inner@, before, new_char));
            Ok(MutationResult::Mutated)
        }
    }
}

} // verus!
