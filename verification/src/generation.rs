//! Generators of message parameters and the combinators that build them.
use vstd::prelude::*;

use crate::fuzz_state::FuzzState;

use crate::fuzz_rand::{rand_below, rand_below_or_zero, rand_choose_index, rand_next};
use crate::lsp_input::LspInput;

verus! {

#[verifier::external_type_specification]
#[verifier::external_body]
pub struct ExFuzzError(libafl_bolts::Error);

/// Why a generator gave no value.
#[derive(Debug)]
pub enum GenerationError {
    /// Nothing was generated.
    NothingGenerated,
    /// The fuzzer itself failed.
    Error(libafl_bolts::Error),
}

/// Produces parameters for an LSP message from the random source and the input.
pub trait LspParamsGenerator {
    type Output;

    /// Whether `out` is a value this generator may give for `input`, from
    /// the state `state`.
    spec fn may_generate(&self, state: FuzzState, input: LspInput, out: Self::Output) -> bool;

    /// Whether this generator may give nothing (`NothingGenerated`) for
    /// `input` from the state `state`.
    spec fn may_give_nothing(&self, state: FuzzState, input: LspInput) -> bool;

    /// Whether this generator may fail with an error of the fuzzer.
    spec fn may_fail(&self) -> bool;

    fn generate(
        &self,
        state: &mut FuzzState,
        input: &LspInput,
    ) -> (r: Result<Self::Output, GenerationError>)
        ensures
            final(state).response_info == old(state).response_info,
            r matches Ok(v) ==> self.may_generate(*old(state), *input, v),
            r matches Err(GenerationError::NothingGenerated) ==> self.may_give_nothing(*old(state), *input),
            r matches Err(GenerationError::Error(_)) ==> self.may_fail(),
    ;
}

/// Whether `a` and `b` hold the same replies of the server.
pub open spec fn same_replies(a: FuzzState, b: FuzzState) -> bool {
    a.response_info == b.response_info
}

/// Builds a value out of its parts.
pub trait Compose: Sized {
    type Components;

    fn compose(components: Self::Components) -> Self;
}

impl<Head, Tail> Compose for (Head, Tail) {
    type Components = (Head, Tail);

    fn compose(components: Self::Components) -> (r: Self)
        ensures
            r == components,
    {
        components
    }
}

// ---------------------------------------------------------------------------
// Constant and default values
// ---------------------------------------------------------------------------

/// Always generates a clone of one value.
#[derive(Debug, Clone)]
pub struct ConstGenerator<T> {
    value: T,
}

impl<T> ConstGenerator<T> {
    pub closed spec fn value(&self) -> T {
        self.value
    }

    pub fn new(value: T) -> (r: Self)
        ensures
            r.value() == value,
    {
        ConstGenerator { value }
    }
}

impl<T: Clone> LspParamsGenerator for ConstGenerator<T> {
    type Output = T;

    open spec fn may_generate(&self, state: FuzzState, input: LspInput, out: T) -> bool {
        cloned::<T>(self.value(), out)
    }

    /// It always gives a value.
    open spec fn may_give_nothing(&self, state: FuzzState, input: LspInput) -> bool {
        false
    }

    open spec fn may_fail(&self) -> bool {
        false
    }

    fn generate(
        &self,
        state: &mut FuzzState,
        input: &LspInput,
    ) -> (r: Result<T, GenerationError>)
        ensures
            r matches Ok(v) && cloned::<T>(self.value(), v),
            *final(state) == *old(state),
    {
        Ok(self.value.clone())
    }
}

/// Always generates the default value of its type.
#[derive(Debug)]
pub struct DefaultGenerator<T> {
    _phantom: core::marker::PhantomData<T>,
}

impl<T> DefaultGenerator<T> {
    pub fn new() -> (r: Self) {
        DefaultGenerator { _phantom: core::marker::PhantomData }
    }
}

impl<T: Default> LspParamsGenerator for DefaultGenerator<T> {
    type Output = T;

    open spec fn may_generate(&self, state: FuzzState, input: LspInput, out: T) -> bool {
        call_ensures(T::default, (), out)
    }

    /// It always gives a value.
    open spec fn may_give_nothing(&self, state: FuzzState, input: LspInput) -> bool {
        false
    }

    open spec fn may_fail(&self) -> bool {
        false
    }

    fn generate(
        &self,
        state: &mut FuzzState,
        input: &LspInput,
    ) -> (r: Result<T, GenerationError>)
        ensures
            r matches Ok(v) && call_ensures(T::default, (), v),
            *final(state) == *old(state),
    {
        Ok(T::default())
    }
}

// ---------------------------------------------------------------------------
// Combinators
// ---------------------------------------------------------------------------

/// Generates with an inner generator and maps the value.
#[derive(Debug)]
#[verifier::reject_recursive_types(T)]
#[verifier::reject_recursive_types(U)]
pub struct MappingGenerator<G, T, U, F: Fn(T) -> U> {
    generator: G,
    mapper: F,
    _phantom: core::marker::PhantomData<(T, U)>,
}

impl<G, T, U, F: Fn(T) -> U> MappingGenerator<G, T, U, F> {
    #[verifier::type_invariant]
    spec fn mapper_total(self) -> bool {
        forall|x: T| call_requires(self.mapper, (x,))
    }

    pub closed spec fn inner(&self) -> G {
        self.generator
    }

    pub closed spec fn mapper(&self) -> F {
        self.mapper
    }

    /// A generator of `mapper(v)` for the values `v` of `generator`; `mapper`
    /// must accept every value.
    pub fn new(generator: G, mapper: F) -> (r: Self)
        requires
            forall|x: T| call_requires(mapper, (x,)),
        ensures
            r.inner() == generator,
            r.mapper() == mapper,
    {
        MappingGenerator { generator, mapper, _phantom: core::marker::PhantomData }
    }
}

impl<G: Clone, T, U, F: Fn(T) -> U + Copy> Clone for MappingGenerator<G, T, U, F> {
    fn clone(&self) -> (r: Self)
        ensures
            cloned::<G>(self.inner(), r.inner()),
            r.mapper() == self.mapper(),
    {
        proof {
            use_type_invariant(self);
        }
        MappingGenerator {
            generator: self.generator.clone(),
            mapper: self.mapper,
            _phantom: core::marker::PhantomData,
        }
    }
}

impl<G: LspParamsGenerator<Output = T>, T, U, F: Fn(T) -> U> LspParamsGenerator for MappingGenerator<
    G,
    T,
    U,
    F,
> {
    type Output = U;

    /// The mapper's value for a value of the inner generator.
    open spec fn may_generate(&self, state: FuzzState, input: LspInput, out: U) -> bool {
        exists|v: T| #![trigger self.inner().may_generate(state, input, v)]
            self.inner().may_generate(state, input, v) && call_ensures(self.mapper(), (v,), out)
    }

    /// Exactly when the inner generator gives nothing.
    open spec fn may_give_nothing(&self, state: FuzzState, input: LspInput) -> bool {
        self.inner().may_give_nothing(state, input)
    }

    open spec fn may_fail(&self) -> bool {
        self.inner().may_fail()
    }

    fn generate(
        &self,
        state: &mut FuzzState,
        input: &LspInput,
    ) -> (r: Result<U, GenerationError>) {
        proof {
            use_type_invariant(self);
        }
        let ghost before = *state;
        match self.generator.generate(state, input) {
            Ok(v) => {
                let ghost gv = v;
                let out = (self.mapper)(v);
                assert(self.inner().may_generate(before, *input, gv) && call_ensures(self.mapper(), (gv,), out));
                Ok(out)
            },
            Err(e) => Err(e),
        }
    }
}

/// Generates the two parts of a value and composes them.
#[derive(Debug)]
pub struct CompositionGenerator<G1, G2, T> {
    generator1: G1,
    generator2: G2,
    _phantom: core::marker::PhantomData<T>,
}

impl<G1, G2, T> CompositionGenerator<G1, G2, T> {
    pub closed spec fn first(&self) -> G1 {
        self.generator1
    }

    pub closed spec fn second(&self) -> G2 {
        self.generator2
    }

    pub fn new(generator1: G1, generator2: G2) -> (r: Self)
        ensures
            r.first() == generator1,
            r.second() == generator2,
    {
        CompositionGenerator { generator1, generator2, _phantom: core::marker::PhantomData }
    }
}

impl<G1: Clone, G2: Clone, T> Clone for CompositionGenerator<G1, G2, T> {
    fn clone(&self) -> (r: Self)
        ensures
            cloned::<G1>(self.first(), r.first()),
            cloned::<G2>(self.second(), r.second()),
    {
        CompositionGenerator::new(self.generator1.clone(), self.generator2.clone())
    }
}

impl<
    G1: LspParamsGenerator,
    G2: LspParamsGenerator,
    T: Compose<Components = (G1::Output, G2::Output)>,
> LspParamsGenerator for CompositionGenerator<G1, G2, T> {
    type Output = T;

    /// The composition of a value of each generator.
    open spec fn may_generate(&self, state: FuzzState, input: LspInput, out: T) -> bool {
        exists|mid: FuzzState, a: G1::Output, b: G2::Output|
            #![trigger self.first().may_generate(state, input, a), self.second().may_generate(mid, input, b)]
            same_replies(mid, state) && self.first().may_generate(state, input, a)
                && self.second().may_generate(mid, input, b) && call_ensures(T::compose, ((a, b),), out)
    }

    /// When the first generator gives nothing, or the second one does after it.
    open spec fn may_give_nothing(&self, state: FuzzState, input: LspInput) -> bool {
        self.first().may_give_nothing(state, input) || exists|mid: FuzzState|
            #![trigger self.second().may_give_nothing(mid, input)]
            same_replies(mid, state) && self.second().may_give_nothing(mid, input)
    }

    open spec fn may_fail(&self) -> bool {
        self.first().may_fail() || self.second().may_fail()
    }

    fn generate(
        &self,
        state: &mut FuzzState,
        input: &LspInput,
    ) -> (r: Result<T, GenerationError>)
    {
        let ghost before = *state;
        let c1 = match self.generator1.generate(state, input) {
            Ok(c) => c,
            Err(e) => {
                return Err(e);
            },
        };
        let ghost a = c1;
        let ghost mid = *state;
        let c2 = match self.generator2.generate(state, input) {
            Ok(c) => c,
            Err(e) => {
                proof {
                    if e is NothingGenerated {
                        assert(same_replies(mid, before) && self.second().may_give_nothing(mid, *input));
                    }
                }
                return Err(e);
            },
        };
        let ghost b = c2;
        let out = T::compose((c1, c2));
        assert(same_replies(mid, before) && self.first().may_generate(before, *input, a)
            && self.second().may_generate(mid, *input, b) && call_ensures(T::compose, ((a, b),), out));
        Ok(out)
    }
}

/// Generates with `first`; when it generates nothing, with `second`.
#[derive(Debug, Clone)]
pub struct FallbackGenerator<G1, G2> {
    first: G1,
    second: G2,
}

impl<G1, G2> FallbackGenerator<G1, G2> {
    pub closed spec fn first(&self) -> G1 {
        self.first
    }

    pub closed spec fn second(&self) -> G2 {
        self.second
    }

    pub fn new(first: G1, second: G2) -> (r: Self)
        ensures
            r.first() == first,
            r.second() == second,
    {
        FallbackGenerator { first, second }
    }
}

impl<G1: LspParamsGenerator, G2: LspParamsGenerator<Output = G1::Output>> LspParamsGenerator for FallbackGenerator<
    G1,
    G2,
> {
    type Output = G1::Output;

    /// A value of the first generator, or of the second one after the first
    /// one generated nothing.
    open spec fn may_generate(&self, state: FuzzState, input: LspInput, out: G1::Output) -> bool {
        self.first().may_generate(state, input, out) || exists|mid: FuzzState|
            #![trigger self.second().may_generate(mid, input, out)]
            same_replies(mid, state) && self.second().may_generate(mid, input, out)
    }

    /// When the first generator gives nothing and the second one does after it.
    open spec fn may_give_nothing(&self, state: FuzzState, input: LspInput) -> bool {
        self.first().may_give_nothing(state, input) && exists|mid: FuzzState|
            #![trigger self.second().may_give_nothing(mid, input)]
            same_replies(mid, state) && self.second().may_give_nothing(mid, input)
    }

    open spec fn may_fail(&self) -> bool {
        self.first().may_fail() || self.second().may_fail()
    }

    fn generate(&self, state: &mut FuzzState, input: &LspInput) -> (r: Result<
        G1::Output,
        GenerationError,
    >) {
        let ghost before = *state;
        match self.first.generate(state, input) {
            Err(GenerationError::NothingGenerated) => {
                let ghost mid = *state;
                let r = self.second.generate(state, input);
                proof {
                    if r is Ok {
                        assert(same_replies(mid, before) && self.second().may_generate(mid, *input, r->Ok_0));
                    }
                    if r matches Err(GenerationError::NothingGenerated) {
                        assert(same_replies(mid, before) && self.second().may_give_nothing(mid, *input));
                    }
                }
                r
            },
            other => other,
        }
    }
}

// ---------------------------------------------------------------------------
// Containers and choices
// ---------------------------------------------------------------------------

/// Generates a list of values, each made by a randomly chosen element generator.
#[derive(Debug, Clone)]
pub struct VecGenerator<G> {
    element_generators: Vec<G>,
    max_items: usize,
}

impl<G> VecGenerator<G> {
    pub closed spec fn elements(&self) -> Seq<G> {
        self.element_generators@
    }

    pub closed spec fn max_items(&self) -> usize {
        self.max_items
    }

    pub fn new(element_generators: Vec<G>, max_items: usize) -> (r: Self)
        ensures
            r.elements() == element_generators@,
            r.max_items() == max_items,
    {
        VecGenerator { element_generators, max_items }
    }
}

/// Whether `item` is a value one of `elements` may give from a state with
/// the same replies as `state`.
pub open spec fn element_may_generate<G: LspParamsGenerator>(
    elements: Seq<G>,
    state: FuzzState,
    input: LspInput,
    item: G::Output,
) -> bool {
    exists|k: int, mid: FuzzState|
        #![trigger elements[k].may_generate(mid, input, item)]
        0 <= k < elements.len() && same_replies(mid, state) && elements[k].may_generate(mid, input, item)
}

impl<G: LspParamsGenerator> LspParamsGenerator for VecGenerator<G> {
    type Output = Vec<G::Output>;

    /// Fewer values than the bound, at least one, each from one of the
    /// element generators.
    open spec fn may_generate(&self, state: FuzzState, input: LspInput, out: Vec<G::Output>) -> bool {
        &&& 0 < out@.len() < self.max_items()
        &&& forall|i: int| 0 <= i < out@.len() ==> element_may_generate(self.elements(), state, input, #[trigger] out@[i])
    }

    /// The drawn length may be zero, so it may always give nothing.
    open spec fn may_give_nothing(&self, state: FuzzState, input: LspInput) -> bool {
        true
    }

    /// When one of the element generators may fail.
    open spec fn may_fail(&self) -> bool {
        exists|k: int| 0 <= k < self.elements().len() && #[trigger] self.elements()[k].may_fail()
    }

    /// Draws a length under `max_items` and makes that many attempts, each
    /// with a randomly chosen element generator; an error ends the attempts.
    /// The outcomes are then collected by `collect_generated`.
    fn generate(
        &self,
        state: &mut FuzzState,
        input: &LspInput,
    ) -> (r: Result<Vec<G::Output>, GenerationError>)
        ensures
            r matches Ok(items) ==> 0 < items@.len() < self.max_items(),
            self.max_items() <= 1 || self.elements().len() == 0 ==> r matches Err(
                GenerationError::NothingGenerated,
            ),
            exists|outcomes: Seq<Result<G::Output, GenerationError>>| #[trigger] collected(outcomes, r)
                && attempts_made(self.elements(), self.max_items(), *old(state), *input, outcomes),
    {
        let ghost start = *state;
        let len = rand_below_or_zero(&mut state.rand, self.max_items);
        let mut outcomes: Vec<Result<G::Output, GenerationError>> = Vec::new();
        let mut failed = false;
        let mut i: usize = 0;
        while i < len && !failed
            invariant
                i <= len,
                self.max_items == 0 ==> len == 0,
                self.max_items > 0 ==> len < self.max_items,
                outcomes@.len() <= i,
                self.element_generators@.len() == 0 ==> outcomes@.len() == 0,
                same_replies(*state, start),
                start == *old(state),
                forall|j: int| #![trigger outcomes@[j]]
                    0 <= j < outcomes@.len() ==> (outcomes@[j] matches Ok(v) ==> element_may_generate(
                        self.element_generators@,
                        start,
                        *input,
                        v,
                    )),
                forall|j: int| #![trigger outcomes@[j]]
                    0 <= j < outcomes@.len() && is_fuzzer_error(outcomes@[j]) ==> failed && j == outcomes@.len() - 1
                        && self.may_fail(),
            decreases len - i,
        {
            match rand_choose_index(&mut state.rand, self.element_generators.len()) {
                Some(k) => {
                    let ghost before_gen = *state;
                    let ghost before_push = outcomes@;
                    let o = self.element_generators[k].generate(state, input);
                    proof {
                        if o is Ok {
                            let item = o->Ok_0;
                            assert(0 <= k < self.element_generators@.len() && same_replies(before_gen, start)
                                && self.element_generators@[k as int].may_generate(before_gen, *input, item));
                        }
                        if is_fuzzer_error(o) {
                            assert(self.elements()[k as int].may_fail());
                        }
                    }
                    if let Err(GenerationError::Error(_)) = &o {
                        failed = true;
                    }
                    outcomes.push(o);
                    assert forall|j: int| 0 <= j < before_push.len() implies #[trigger] outcomes@[j] == before_push[j] by {}
                },
                None => {},
            }
            i = i + 1;
        }
        let ghost all = outcomes@;
        let r = collect_generated(outcomes);
        proof {
            lemma_ok_values(all);
            if exists|i: int| first_error_at(all, i) {
                let i = choose|i: int| first_error_at(all, i);
                assert(is_fuzzer_error(all[i]));
            } else if ok_values(all).len() > 0 {
                let items = r->Ok_0;
                assert forall|m: int| 0 <= m < items@.len() implies element_may_generate(
                    self.elements(),
                    *old(state),
                    *input,
                    #[trigger] items@[m],
                ) by {
                    let j = choose|j: int| 0 <= j < all.len() && #[trigger] all[j] == Ok::<G::Output, GenerationError>(ok_values(all)[m]);
                    assert(all[j] matches Ok(v) && v == items@[m]);
                }
            }
        }
        assert(collected(all, r));
        r
    }
}

/// An outcome that is an error of the fuzzer.
pub open spec fn is_fuzzer_error<T>(o: Result<T, GenerationError>) -> bool {
    o matches Err(GenerationError::Error(_))
}

/// The values of the successful outcomes, in order.
pub open spec fn ok_values<T>(outcomes: Seq<Result<T, GenerationError>>) -> Seq<T>
    decreases outcomes.len(),
{
    if outcomes.len() == 0 {
        Seq::empty()
    } else {
        let rest = ok_values(outcomes.drop_last());
        match outcomes.last() {
            Ok(v) => rest.push(v),
            Err(_) => rest,
        }
    }
}

/// Outcome `i` is the first one that is an error of the fuzzer.
pub open spec fn first_error_at<T>(outcomes: Seq<Result<T, GenerationError>>, i: int) -> bool {
    &&& 0 <= i < outcomes.len()
    &&& is_fuzzer_error(outcomes[i])
    &&& forall|j: int| 0 <= j < i ==> !is_fuzzer_error(#[trigger] outcomes[j])
}

/// What a list of attempts comes to: the first error of the fuzzer, if there
/// is one; else the values generated, in order, unless there are none.
pub open spec fn collected<T>(outcomes: Seq<Result<T, GenerationError>>, r: Result<Vec<T>, GenerationError>) -> bool {
    if exists|i: int| first_error_at(outcomes, i) {
        exists|i: int| #[trigger] first_error_at(outcomes, i) && r is Err && outcomes[i] == Err::<T, GenerationError>(r->Err_0)
    } else if ok_values(outcomes).len() > 0 {
        r matches Ok(items) && items@ == ok_values(outcomes)
    } else {
        r matches Err(GenerationError::NothingGenerated)
    }
}

/// The attempts a list generator makes: fewer than `max_items`, each value
/// from one of the element generators, none after an error, and none
/// without element generators.
pub open spec fn attempts_made<G: LspParamsGenerator>(
    elements: Seq<G>,
    max_items: usize,
    state: FuzzState,
    input: LspInput,
    outcomes: Seq<Result<G::Output, GenerationError>>,
) -> bool {
    &&& outcomes.len() == 0 || outcomes.len() < max_items
    &&& elements.len() == 0 ==> outcomes.len() == 0
    &&& forall|j: int| #![trigger outcomes[j]]
        0 <= j < outcomes.len() ==> (outcomes[j] matches Ok(v) ==> element_may_generate(elements, state, input, v))
    &&& forall|j: int| #![trigger outcomes[j]]
        0 <= j < outcomes.len() && is_fuzzer_error(outcomes[j]) ==> j == outcomes.len() - 1
}

/// Every collected value is the value of some successful outcome, and there
/// are no more of them than outcomes.
proof fn lemma_ok_values<T>(outcomes: Seq<Result<T, GenerationError>>)
    ensures
        ok_values(outcomes).len() <= outcomes.len(),
        forall|k: int| 0 <= k < ok_values(outcomes).len() ==> exists|j: int|
            0 <= j < outcomes.len() && #[trigger] outcomes[j] == Ok::<T, GenerationError>(#[trigger] ok_values(outcomes)[k]),
    decreases outcomes.len(),
{
    if outcomes.len() > 0 {
        let rest = outcomes.drop_last();
        lemma_ok_values(rest);
        assert forall|k: int| 0 <= k < ok_values(outcomes).len() implies exists|j: int|
            0 <= j < outcomes.len() && #[trigger] outcomes[j] == Ok::<T, GenerationError>(#[trigger] ok_values(outcomes)[k]) by {
            if k < ok_values(rest).len() {
                let j = choose|j: int| 0 <= j < rest.len() && #[trigger] rest[j] == Ok::<T, GenerationError>(ok_values(rest)[k]);
                assert(outcomes[j] == rest[j]);
            } else {
                assert(outcomes[outcomes.len() - 1] == outcomes.last());
            }
        }
    }
}

/// Collects the outcomes of a list generator's attempts: the first error of
/// the fuzzer is passed on; else the values generated, in order, unless
/// there are none, which is `NothingGenerated`.
pub fn collect_generated<T>(outcomes: Vec<Result<T, GenerationError>>) -> (r: Result<Vec<T>, GenerationError>)
    ensures
        collected(outcomes@, r),
{
    let ghost all = outcomes@;
    let mut items: Vec<T> = Vec::new();
    assert(ok_values(all.take(0)) =~= Seq::<T>::empty());
    for o in it: outcomes
        invariant
            it.seq() == all,
            items@ == ok_values(all.take(it.index() as int)),
            forall|j: int| 0 <= j < it.index() ==> !is_fuzzer_error(#[trigger] all[j]),
    {
        let ghost idx = it.index() as int;
        assert(all.take(idx + 1).drop_last() =~= all.take(idx));
        assert(all.take(idx + 1).last() == all[idx]);
        match o {
            Ok(v) => {
                items.push(v);
            },
            Err(GenerationError::NothingGenerated) => {},
            Err(GenerationError::Error(e)) => {
                assert(first_error_at(all, idx));
                return Err(GenerationError::Error(e));
            },
        }
    }
    assert(all.take(all.len() as int) =~= all);
    assert(!exists|i: int| first_error_at(all, i));
    if items.len() > 0 {
        Ok(items)
    } else {
        Err(GenerationError::NothingGenerated)
    }
}

/// One of two values.
#[derive(Debug, Clone, PartialEq, Eq)]
pub enum OneOf<L, R> {
    Left(L),
    Right(R),
}

/// Generates with the left or with the right generator, and says which.
#[derive(Debug, Clone)]
pub enum OneOfGenerator<L, R> {
    Left(L),
    Right(R),
}

impl<L: LspParamsGenerator, R: LspParamsGenerator> LspParamsGenerator for OneOfGenerator<L, R> {
    type Output = OneOf<L::Output, R::Output>;

    /// A value of the chosen side's generator, marked with its side.
    open spec fn may_generate(&self, state: FuzzState, input: LspInput, out: OneOf<L::Output, R::Output>) -> bool {
        match (self, out) {
            (OneOfGenerator::Left(g), OneOf::Left(v)) => g.may_generate(state, input, v),
            (OneOfGenerator::Right(g), OneOf::Right(v)) => g.may_generate(state, input, v),
            _ => false,
        }
    }

    /// When the chosen side's generator gives nothing.
    open spec fn may_give_nothing(&self, state: FuzzState, input: LspInput) -> bool {
        match self {
            OneOfGenerator::Left(g) => g.may_give_nothing(state, input),
            OneOfGenerator::Right(g) => g.may_give_nothing(state, input),
        }
    }

    open spec fn may_fail(&self) -> bool {
        match self {
            OneOfGenerator::Left(g) => g.may_fail(),
            OneOfGenerator::Right(g) => g.may_fail(),
        }
    }

    fn generate(
        &self,
        state: &mut FuzzState,
        input: &LspInput,
    ) -> (r: Result<OneOf<L::Output, R::Output>, GenerationError>)
        ensures
            self is Left ==> (r is Ok ==> r->Ok_0 is Left),
            self is Right ==> (r is Ok ==> r->Ok_0 is Right),
    {
        match self {
            OneOfGenerator::Left(lgen) => match lgen.generate(state, input) {
                Ok(v) => Ok(OneOf::Left(v)),
                Err(e) => Err(e),
            },
            OneOfGenerator::Right(rgen) => match rgen.generate(state, input) {
                Ok(v) => Ok(OneOf::Right(v)),
                Err(e) => Err(e),
            },
        }
    }
}

// ---------------------------------------------------------------------------
// Strings and numbers
// ---------------------------------------------------------------------------

/// Picks one of the UTF-8 tokens that the fuzzer collected.
#[derive(Debug, Default)]
pub struct UTF8TokensGenerator;

impl UTF8TokensGenerator {
    pub fn new() -> (r: Self) {
        UTF8TokensGenerator
    }

    /// A random token of `tokens`; nothing when there are no tokens.
    pub fn generate_from(
        &self,
        rand: &mut libafl_bolts::rands::RomuDuoJrRand,
        tokens: Option<&Vec<String>>,
    ) -> (r: Result<String, GenerationError>)
        ensures
            match tokens {
                None => r matches Err(GenerationError::NothingGenerated),
                Some(ts) => if ts@.len() == 0 {
                    r matches Err(GenerationError::NothingGenerated)
                } else {
                    r matches Ok(t) && exists|i: int| 0 <= i < ts@.len() && t@ == ts@[i]@
                },
            },
    {
        let tokens = match tokens {
            Some(ts) => ts,
            None => {
                return Err(GenerationError::NothingGenerated);
            },
        };
        if tokens.len() == 0 {
            return Err(GenerationError::NothingGenerated);
        }
        let idx = rand_below(rand, tokens.len());
        let token = tokens[idx].clone();
        assert(token@ == tokens@[idx as int]@);
        Ok(token)
    }
}

/// Picks the text of a leaf of a document's syntax tree.
#[derive(Debug, Default)]
pub struct TerminalTextGenerator<DocSel> {
    _phantom: core::marker::PhantomData<DocSel>,
}

impl<DocSel> TerminalTextGenerator<DocSel> {
    pub fn new() -> (r: Self) {
        TerminalTextGenerator { _phantom: core::marker::PhantomData }
    }

    /// A random one of the leaf texts; nothing when the document has none.
    pub fn choose_text(
        &self,
        rand: &mut libafl_bolts::rands::RomuDuoJrRand,
        terminal_texts: Vec<String>,
    ) -> (r: Result<String, GenerationError>)
        ensures
            terminal_texts@.len() == 0 ==> r matches Err(GenerationError::NothingGenerated),
            terminal_texts@.len() > 0 ==> (r matches Ok(t) && exists|i: int|
                0 <= i < terminal_texts@.len() && t == terminal_texts@[i]),
    {
        let mut texts = terminal_texts;
        match rand_choose_index(rand, texts.len()) {
            Some(i) => {
                let t = texts.swap_remove(i);
                Ok(t)
            },
            None => Err(GenerationError::NothingGenerated),
        }
    }
}

/// The `tabSize` of formatting options.
#[derive(Debug, Clone, Copy, PartialEq, Eq)]
pub struct TabSize(pub u32);

/// Generates tab sizes: one of the candidates, or any number when there are none.
#[derive(Debug, Clone)]
pub struct TabSizeGen {
    pub candidates: Vec<u32>,
}

impl LspParamsGenerator for TabSizeGen {
    type Output = TabSize;

    /// One of the candidates, or any size when there are none.
    open spec fn may_generate(&self, state: FuzzState, input: LspInput, out: TabSize) -> bool {
        self.candidates@.len() > 0 ==> exists|i: int| 0 <= i < self.candidates@.len() && out.0 == self.candidates@[i]
    }

    /// It always gives a size.
    open spec fn may_give_nothing(&self, state: FuzzState, input: LspInput) -> bool {
        false
    }

    open spec fn may_fail(&self) -> bool {
        false
    }

    fn generate(
        &self,
        state: &mut FuzzState,
        input: &LspInput,
    ) -> (r: Result<TabSize, GenerationError>)
        ensures
            r is Ok,
            self.candidates@.len() > 0 ==> exists|i: int|
                0 <= i < self.candidates@.len() && r->Ok_0.0 == self.candidates@[i],
    {
        match rand_choose_index(&mut state.rand, self.candidates.len()) {
            Some(i) => Ok(TabSize(self.candidates[i])),
            None => {
                let raw = rand_next(&mut state.rand);
                Ok(TabSize(raw as u32))
            },
        }
    }
}

// ---------------------------------------------------------------------------
// Lists of generators
// ---------------------------------------------------------------------------

/// Collects generators, some of them several times to weigh the choice.
#[derive(Debug, Default)]
pub struct GeneratorBag<G> {
    generators: Vec<G>,
}

impl<G> View for GeneratorBag<G> {
    type V = Seq<G>;

    closed spec fn view(&self) -> Seq<G> {
        self.generators@
    }
}

impl<G> GeneratorBag<G> {
    pub fn new() -> (r: Self)
        ensures
            r@ == Seq::<G>::empty(),
    {
        GeneratorBag { generators: Vec::new() }
    }

    pub fn with_capacity(capacity: usize) -> (r: Self)
        ensures
            r@ == Seq::<G>::empty(),
    {
        GeneratorBag { generators: Vec::with_capacity(capacity) }
    }

    pub fn push(&mut self, generator: G)
        ensures
            final(self)@ == old(self)@.push(generator),
    {
        self.generators.push(generator);
    }

    /// Adds `weight` copies of `generator`; a weight of zero adds nothing.
    pub fn push_weighted(&mut self, generator: G, weight: usize)
        where
            G: Clone,
        ensures
            final(self)@.len() == old(self)@.len() + weight,
            forall|i: int| 0 <= i < old(self)@.len() ==> final(self)@[i] == old(self)@[i],
            forall|i: int|
                old(self)@.len() <= i < final(self)@.len() ==> cloned::<G>(
                    generator,
                    #[trigger] final(self)@[i],
                ),
    {
        if weight == 0 {
            return;
        }
        let ghost start = self.generators@;
        let mut k: usize = 0;
        while k < weight
            invariant
                k <= weight,
                self.generators@.len() == start.len() + k,
                forall|i: int| 0 <= i < start.len() ==> self.generators@[i] == start[i],
                forall|i: int|
                    start.len() <= i < self.generators@.len() ==> cloned::<G>(
                        generator,
                        #[trigger] self.generators@[i],
                    ),
            decreases weight - k,
        {
            let g = generator.clone();
            self.generators.push(g);
            k = k + 1;
        }
    }

    /// Adds all of `generators`, in order.
    pub fn extend(&mut self, generators: Vec<G>)
        ensures
            final(self)@ == old(self)@ + generators@,
    {
        let mut more = generators;
        self.generators.append(&mut more);
    }

    /// The generators collected.
    pub fn finish(self) -> (r: Vec<G>)
        ensures
            r@ == self@,
    {
        self.generators
    }
}

} // verus!
