//! The part of the fuzzer's state that generators and mutators read and
//! update: the random source and the metadata they keep.
use vstd::prelude::*;

use crate::feedback::LspResponseInfo;

verus! {

/// How often position selection was steered to each highlight group.
#[derive(Debug)]
pub struct HighlightGroupUsage {
    inner: Vec<(String, usize)>,
}

/// No group name occurs twice.
pub open spec fn group_names_distinct(entries: Seq<(String, usize)>) -> bool {
    forall|i: int, j: int| 0 <= i < j < entries.len() ==> (#[trigger] entries[i]).0@ != (#[trigger] entries[j]).0@
}

/// Whether some entry is the group `name`.
pub open spec fn has_group(entries: Seq<(String, usize)>, name: Seq<char>) -> bool {
    exists|j: int| 0 <= j < entries.len() && entries[j].0@ == name
}

/// Whether `name` is one of `names`.
pub open spec fn names_contain(names: Seq<String>, name: Seq<char>) -> bool {
    exists|i: int| 0 <= i < names.len() && names[i]@ == name
}

/// `after` is `before` with one more use of group `name` counted, saturating.
pub open spec fn use_recorded(before: Seq<(String, usize)>, after: Seq<(String, usize)>, name: Seq<char>) -> bool {
    &&& after.len() == before.len()
    &&& forall|i: int| 0 <= i < before.len() ==> (#[trigger] after[i]).0 == before[i].0
    &&& forall|i: int|
        0 <= i < before.len() ==> #[trigger] after[i].1 == if before[i].0@ == name {
            if before[i].1 < usize::MAX {
                (before[i].1 + 1) as usize
            } else {
                before[i].1
            }
        } else {
            before[i].1
        }
}

/// `entries` start the statistics of `names`: no use yet of any group, each
/// of `names` a group, and no other group.
pub open spec fn usage_started(entries: Seq<(String, usize)>, names: Seq<String>) -> bool {
    &&& forall|i: int| 0 <= i < entries.len() ==> (#[trigger] entries[i]).1 == 0
    &&& forall|i: int| 0 <= i < names.len() ==> has_group(entries, #[trigger] names[i]@)
    &&& forall|j: int| 0 <= j < entries.len() ==> names_contain(names, #[trigger] entries[j].0@)
}

impl HighlightGroupUsage {
    pub closed spec fn entries(&self) -> Seq<(String, usize)> {
        self.inner@
    }

    #[verifier::type_invariant]
    closed spec fn wf(&self) -> bool {
        group_names_distinct(self.inner@)
    }

    /// Every group of `names` at zero uses; a name given twice counts once.
    pub fn new(names: Vec<String>) -> (r: Self)
        ensures
            usage_started(r.entries(), names@),
    {
        let mut inner: Vec<(String, usize)> = Vec::new();
        let ghost ns = names@;
        for name in it: names
            invariant
                it.seq() == ns,
                group_names_distinct(inner@),
                forall|k: int| 0 <= k < inner@.len() ==> (#[trigger] inner@[k]).1 == 0,
                forall|i: int| 0 <= i < it.index() ==> has_group(inner@, #[trigger] ns[i]@),
                forall|j: int|
                    0 <= j < inner@.len() ==> names_contain(ns.take(it.index() as int), #[trigger] inner@[j].0@),
        {
            let ghost idx = it.index();
            let ghost before = inner@;
            assert(ns[idx] == name);
            match find_group(&inner, name.as_str()) {
                Some(j) => {
                    assert(has_group(inner@, ns[idx]@)) by {
                        assert(inner@[j as int].0@ == ns[idx]@);
                    }
                },
                None => {
                    inner.push((name, 0));
                    assert(has_group(inner@, ns[idx]@)) by {
                        assert(inner@[before.len() as int].0@ == ns[idx]@);
                    }
                    assert forall|i: int| 0 <= i < idx implies has_group(inner@, #[trigger] ns[i]@) by {
                        let j = choose|j: int| 0 <= j < before.len() && before[j].0@ == ns[i]@;
                        assert(inner@[j] == before[j]);
                    }
                },
            }
            proof {
                assert forall|j: int| 0 <= j < inner@.len() implies names_contain(
                    ns.take(idx + 1),
                    #[trigger] inner@[j].0@,
                ) by {
                    if j < before.len() {
                        assert(inner@[j] == before[j]);
                        let i = choose|i: int| 0 <= i < ns.take(idx as int).len() && ns.take(idx as int)[i]@ == before[j].0@;
                        assert(ns.take(idx + 1)[i] == ns.take(idx as int)[i]);
                    } else {
                        assert(ns.take(idx + 1)[idx as int] == ns[idx]);
                    }
                }
            }
        }
        proof {
            assert(ns.take(ns.len() as int) =~= ns);
        }
        HighlightGroupUsage { inner }
    }

    /// The groups with their uses.
    pub fn as_slice(&self) -> (r: &[(String, usize)])
        ensures
            r@ == self.entries(),
    {
        self.inner.as_slice()
    }

    /// Counts one more use of `name`, saturating; an unknown name changes nothing.
    pub fn record_use(&mut self, name: &str)
        ensures
            use_recorded(old(self).entries(), final(self).entries(), name@),
    {
        proof {
            use_type_invariant(&*self);
        }
        let ghost before = self.inner@;
        let mut inner: Vec<(String, usize)> = Vec::new();
        std::mem::swap(&mut inner, &mut self.inner);
        assert(inner@ == before);
        match find_group(&inner, name) {
            Some(j) => {
                let (n, count) = inner.remove(j);
                let next = if count < usize::MAX {
                    count + 1
                } else {
                    count
                };
                inner.insert(j, (n, next));
                proof {
                    assert forall|i: int| 0 <= i < before.len() && i != j implies before[i].0@ != name@ by {
                        if i < j {
                            assert(before[i].0@ != before[j as int].0@);
                        } else {
                            assert(before[j as int].0@ != before[i].0@);
                        }
                    }
                    assert forall|a: int, b: int| 0 <= a < b < inner@.len() implies (#[trigger] inner@[a]).0@
                        != (#[trigger] inner@[b]).0@ by {
                        assert(inner@[a].0 == before[a].0);
                        assert(inner@[b].0 == before[b].0);
                    }
                }
            },
            None => {},
        }
        self.inner = inner;
    }
}

/// The most uses of any group; zero without groups.
pub open spec fn max_count(entries: Seq<(String, usize)>) -> nat
    decreases entries.len(),
{
    if entries.len() == 0 {
        0
    } else {
        let m = max_count(entries.drop_last());
        if entries.last().1 > m {
            entries.last().1 as nat
        } else {
            m
        }
    }
}

proof fn lemma_max_count_bounds(entries: Seq<(String, usize)>)
    ensures
        forall|i: int| 0 <= i < entries.len() ==> (#[trigger] entries[i]).1 <= max_count(entries),
        max_count(entries) <= usize::MAX,
    decreases entries.len(),
{
    if entries.len() > 0 {
        lemma_max_count_bounds(entries.drop_last());
        assert forall|i: int| 0 <= i < entries.len() implies (#[trigger] entries[i]).1 <= max_count(entries) by {
            if i < entries.len() - 1 {
                assert(entries.drop_last()[i] == entries[i]);
            }
        }
    }
}

/// How far group `i` is behind the most used group.
pub open spec fn steering_weight(entries: Seq<(String, usize)>, i: int) -> int {
    max_count(entries) - entries[i].1
}

/// The sum of the weights of the first `upto` groups.
pub open spec fn weights_total(entries: Seq<(String, usize)>, upto: int) -> int
    decreases upto,
{
    if upto <= 0 {
        0
    } else {
        weights_total(entries, upto - 1) + steering_weight(entries, upto - 1)
    }
}

impl HighlightGroupUsage {
    /// The most uses of any group.
    pub fn max_usage(&self) -> (r: usize)
        ensures
            r == max_count(self.entries()),
    {
        let mut m: usize = 0;
        let mut i: usize = 0;
        while i < self.inner.len()
            invariant
                i <= self.inner@.len(),
                m == max_count(self.inner@.take(i as int)),
            decreases self.inner.len() - i,
        {
            assert(self.inner@.take(i + 1).drop_last() =~= self.inner@.take(i as int));
            if self.inner[i].1 > m {
                m = self.inner[i].1;
            }
            i = i + 1;
        }
        assert(self.inner@.take(self.inner@.len() as int) =~= self.inner@);
        m
    }

    /// A group chosen with a weight of how far it is behind the most used
    /// group, so that rarely used groups come first; any group when all are
    /// used equally; `None` without groups.
    pub fn choose_rare_group(&self, rand: &mut libafl_bolts::rands::RomuDuoJrRand) -> (r: Option<usize>)
        ensures
            r is None <==> self.entries().len() == 0,
            r matches Some(i) ==> i < self.entries().len(),
            r matches Some(i) ==> steering_weight(self.entries(), i as int) > 0 || (forall|j: int|
                0 <= j < self.entries().len() ==> steering_weight(self.entries(), j) == 0),
    {
        let n = self.inner.len();
        if n == 0 {
            return None;
        }
        let max = self.max_usage();
        proof {
            lemma_max_count_bounds(self.inner@);
        }
        let mut total: u128 = 0;
        let mut i: usize = 0;
        while i < n
            invariant
                n == self.inner@.len(),
                max == max_count(self.inner@),
                forall|k: int| 0 <= k < n ==> (#[trigger] self.inner@[k]).1 <= max,
                i <= n,
                total <= i * (usize::MAX as u128),
                total == weights_total(self.inner@, i as int),
                total == 0 <==> (forall|k: int| 0 <= k < i ==> steering_weight(self.inner@, k) == 0),
            decreases n - i,
        {
            assert(self.inner@[i as int].1 <= max);
            let w = max - self.inner[i].1;
            assert(steering_weight(self.inner@, i as int) == w);
            assert(forall|k: int| 0 <= k < n ==> steering_weight(self.inner@, k) >= 0);
            assert(total + w <= (i + 1) * (usize::MAX as u128)) by (nonlinear_arith)
                requires
                    total <= i * (usize::MAX as u128),
                    w <= usize::MAX,
            ;
            assert((i + 1) * (usize::MAX as u128) <= (usize::MAX as u128) * (usize::MAX as u128)) by (nonlinear_arith)
                requires
                    i < n,
                    n <= usize::MAX,
            ;
            assert((usize::MAX as u128) * (usize::MAX as u128) < u128::MAX) by (nonlinear_arith);
            total = total + w as u128;
            i = i + 1;
        }
        if total == 0 {
            let k = crate::fuzz_rand::rand_below(rand, n);
            return Some(k);
        }
        let hi = crate::fuzz_rand::rand_next(rand);
        let lo = crate::fuzz_rand::rand_next(rand);
        let draw: u128 = ((hi as u128) * 0x1_0000_0000_0000_0000u128 + lo as u128) % total;
        let mut acc: u128 = 0;
        let mut j: usize = 0;
        while j < n
            invariant
                n == self.inner@.len(),
                max == max_count(self.inner@),
                forall|k: int| 0 <= k < n ==> (#[trigger] self.inner@[k]).1 <= max,
                j <= n,
                acc <= draw,
                draw < total,
                acc <= j * (usize::MAX as u128),
                acc == weights_total(self.inner@, j as int),
                total == weights_total(self.inner@, n as int),
            decreases n - j,
        {
            let w = max - self.inner[j].1;
            assert(steering_weight(self.inner@, j as int) == w);
            assert(acc + w <= (j + 1) * (usize::MAX as u128)) by (nonlinear_arith)
                requires
                    acc <= j * (usize::MAX as u128),
                    w <= usize::MAX,
            ;
            assert((j + 1) * (usize::MAX as u128) <= (usize::MAX as u128) * (usize::MAX as u128)) by (nonlinear_arith)
                requires
                    j < n,
                    n <= usize::MAX,
            ;
            assert((usize::MAX as u128) * (usize::MAX as u128) < u128::MAX) by (nonlinear_arith);
            if draw < acc + w as u128 {
                return Some(j);
            }
            acc = acc + w as u128;
            j = j + 1;
        }
        Some(n - 1)
    }
}

/// Index of the entry of group `name`.
fn find_group(entries: &Vec<(String, usize)>, name: &str) -> (r: Option<usize>)
    ensures
        match r {
            Some(j) => j < entries@.len() && entries@[j as int].0@ == name@,
            None => forall|j: int| 0 <= j < entries@.len() ==> (#[trigger] entries@[j]).0@ != name@,
        },
{
    let mut j: usize = 0;
    while j < entries.len()
        invariant
            j <= entries@.len(),
            forall|k: int| 0 <= k < j ==> (#[trigger] entries@[k]).0@ != name@,
        decreases entries.len() - j,
    {
        if crate::text::str_eq(entries[j].0.as_str(), name) {
            return Some(j);
        }
        j = j + 1;
    }
    None
}

/// What generators and mutators read and update of the fuzzer's state.
#[derive(Debug)]
pub struct FuzzState {
    /// The random source.
    pub rand: libafl_bolts::rands::RomuDuoJrRand,
    /// What the server replied to the test case being mutated, if known.
    pub response_info: Option<LspResponseInfo>,
    /// Highlight group usage, once position steering has started.
    pub highlight_usage: Option<HighlightGroupUsage>,
}

impl FuzzState {
    /// A state that knows nothing yet.
    pub fn new(rand: libafl_bolts::rands::RomuDuoJrRand) -> (r: Self)
        ensures
            r.rand == rand,
            r.response_info is None,
            r.highlight_usage is None,
    {
        FuzzState { rand, response_info: None, highlight_usage: None }
    }
}

} // verus!
