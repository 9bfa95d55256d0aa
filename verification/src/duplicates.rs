//! Duplicate detection over arrays of numbers, in the several variants the
//! benchmarks compare, and the generator of their input arrays.
use vstd::prelude::*;
use std::collections::HashSet;
use dashmap::DashSet;
use rand::rngs::StdRng;
use rand::{Rng, SeedableRng};

verus! {

broadcast use vstd::std_specs::hash::group_hash_axioms;

/// Some value occurs twice in `s`.
pub open spec fn has_duplicates(s: Seq<u32>) -> bool {
    exists|i: int, j: int| 0 <= i < j < s.len() && s[i] == s[j]
}

/// The set of values among the first `n` elements of `s`.
pub open spec fn seen_prefix(s: Seq<u32>, n: int) -> Set<u32> {
    Set::new(|x: u32| exists|k: int| 0 <= k < n && s[k] == x)
}

/// The seed that makes the generated arrays repeatable.
pub const ARRAY_SEED: u64 = 42;

#[verifier::external_type_specification]
#[verifier::external_body]
pub struct ExStdRng(StdRng);

/// The seed a generator was made with by `StdRng::seed_from_u64`.
pub uninterp spec fn rng_seed_of(rng: StdRng) -> u64;

/// How many values the generator has handed out through `gen_range(1..=10)`
/// since it was seeded.
pub uninterp spec fn rng_draws_of(rng: StdRng) -> nat;

/// The value that the call of `gen_range(1..=10)` numbered `index` (from 0)
/// hands out, on a generator made by `StdRng::seed_from_u64(seed)` and drawn
/// from only by such calls. The generator is deterministic, so this is a
/// function of the seed and the index.
pub uninterp spec fn seeded_draw_of(seed: u64, index: nat) -> u32;

/// `StdRng::seed_from_u64`: a generator made with the seed that has handed
/// out nothing yet.
#[verifier::external_body]
fn seeded_rng(seed: u64) -> (rng: StdRng)
    ensures
        rng_seed_of(rng) == seed,
        rng_draws_of(rng) == 0,
{
    StdRng::seed_from_u64(seed)
}

/// `Rng::gen_range(1..=10)`: the next value of the generator's sequence,
/// which lies in the inclusive range; the generator moves on by one.
#[verifier::external_body]
fn draw_one_to_ten(rng: &mut StdRng) -> (v: u32)
    ensures
        v == seeded_draw_of(rng_seed_of(*old(rng)), rng_draws_of(*old(rng))),
        1 <= v <= 10,
        rng_seed_of(*final(rng)) == rng_seed_of(*old(rng)),
        rng_draws_of(*final(rng)) == rng_draws_of(*old(rng)) + 1,
{
    rng.gen_range(1..=10)
}

/// An array of `size` numbers between 1 and 10: the first `size` values of
/// the generator seeded with `ARRAY_SEED`, so that every call gives the same.
pub fn random_array_with_numbers(size: usize) -> (res: Vec<u32>)
    ensures
        res.len() == size,
        forall|i: int| 0 <= i < size ==> #[trigger] res[i] == seeded_draw_of(ARRAY_SEED, i as nat),
        forall|i: int| 0 <= i < size ==> 1 <= #[trigger] res[i] <= 10,
{
    let mut rng = seeded_rng(ARRAY_SEED);
    let mut res: Vec<u32> = Vec::new();
    let mut i: usize = 0;
    while i < size
        invariant
            i <= size,
            res.len() == i,
            rng_seed_of(rng) == ARRAY_SEED,
            rng_draws_of(rng) == i,
            forall|k: int| 0 <= k < i ==> #[trigger] res[k] == seeded_draw_of(ARRAY_SEED, k as nat),
            forall|k: int| 0 <= k < i ==> 1 <= #[trigger] res[k] <= 10,
        decreases size - i,
    {
        let v = draw_one_to_ten(&mut rng);
        res.push(v);
        i = i + 1;
    }
    res
}

proof fn lemma_seen_step(s: Seq<u32>, n: int)
    requires
        0 <= n < s.len(),
    ensures
        seen_prefix(s, n + 1) == seen_prefix(s, n).insert(s[n]),
        seen_prefix(s, n).contains(s[n]) <==> (exists|k: int| 0 <= k < n && s[k] == s[n]),
{
    assert(seen_prefix(s, n + 1) =~= seen_prefix(s, n).insert(s[n]));
}

proof fn lemma_dup_step(s: Seq<u32>, n: int)
    requires
        0 <= n < s.len(),
    ensures
        has_duplicates(s.take(n + 1)) <==> (has_duplicates(s.take(n)) || seen_prefix(s, n).contains(
            s[n],
        )),
{
    let t = s.take(n + 1);
    if has_duplicates(t) {
        let (i, j) = choose|i: int, j: int| 0 <= i < j < t.len() && t[i] == t[j];
        if j < n {
            assert(s.take(n)[i] == s.take(n)[j]);
        } else {
            assert(s[i] == s[n]);
        }
    }
    if has_duplicates(s.take(n)) {
        let (i, j) = choose|i: int, j: int|
            0 <= i < j < s.take(n).len() && s.take(n)[i] == s.take(n)[j];
        assert(t[i] == t[j]);
    }
    if seen_prefix(s, n).contains(s[n]) {
        let k = choose|k: int| 0 <= k < n && s[k] == s[n];
        assert(t[k] == t[n]);
    }
}

proof fn lemma_take_all(s: Seq<u32>)
    ensures
        s.take(s.len() as int) == s,
{
    assert(s.take(s.len() as int) =~= s);
}

proof fn lemma_no_dup_empty(s: Seq<u32>)
    ensures
        !has_duplicates(s.take(0)),
        seen_prefix(s, 0) == Set::<u32>::empty(),
{
    assert(seen_prefix(s, 0) =~= Set::<u32>::empty());
}

/// Duplicate check that asks a hash set before each insertion.
pub fn using_map(arr: &[u32]) -> (res: bool)
    ensures
        res == has_duplicates(arr@),
{
    let mut seen: HashSet<u32> = HashSet::new();
    let n = arr.len();
    let mut i: usize = 0;
    proof {
        lemma_no_dup_empty(arr@);
    }
    while i < n
        invariant
            n == arr@.len(),
            i <= n,
            seen@ == seen_prefix(arr@, i as int),
            !has_duplicates(arr@.take(i as int)),
        decreases n - i,
    {
        let num = arr[i];
        proof {
            lemma_seen_step(arr@, i as int);
            lemma_dup_step(arr@, i as int);
        }
        if seen.contains(&num) {
            proof {
                let k = choose|k: int| 0 <= k < i && arr@[k] == arr@[i as int];
                assert(arr@[k] == arr@[i as int]);
            }
            return true;
        }
        seen.insert(num);
        i = i + 1;
    }
    proof {
        lemma_take_all(arr@);
    }
    false
}

/// Duplicate check that puts every element in a set and compares sizes.
pub fn using_set(arr: &[u32]) -> (res: bool)
    ensures
        res == has_duplicates(arr@),
{
    let mut unique: HashSet<u32> = HashSet::new();
    let n = arr.len();
    let mut i: usize = 0;
    proof {
        lemma_no_dup_empty(arr@);
    }
    while i < n
        invariant
            n == arr@.len(),
            i <= n,
            unique@ == seen_prefix(arr@, i as int),
            unique@.finite(),
            unique@.len() <= i,
            (unique@.len() == i) == !has_duplicates(arr@.take(i as int)),
        decreases n - i,
    {
        let num = arr[i];
        proof {
            lemma_seen_step(arr@, i as int);
            lemma_dup_step(arr@, i as int);
        }
        unique.insert(num);
        i = i + 1;
    }
    proof {
        lemma_take_all(arr@);
    }
    unique.len() < n
}

/// Duplicate check that relies on the answer of each insertion.
pub fn using_set_optimized(arr: &[u32]) -> (res: bool)
    ensures
        res == has_duplicates(arr@),
{
    let n = arr.len();
    let mut seen: HashSet<u32> = HashSet::with_capacity(n);
    let mut i: usize = 0;
    proof {
        lemma_no_dup_empty(arr@);
    }
    while i < n
        invariant
            n == arr@.len(),
            i <= n,
            seen@ == seen_prefix(arr@, i as int),
            !has_duplicates(arr@.take(i as int)),
        decreases n - i,
    {
        let num = arr[i];
        proof {
            lemma_seen_step(arr@, i as int);
            lemma_dup_step(arr@, i as int);
        }
        if !seen.insert(num) {
            proof {
                let k = choose|k: int| 0 <= k < i && arr@[k] == arr@[i as int];
                assert(arr@[k] == arr@[i as int]);
            }
            return true;
        }
        i = i + 1;
    }
    proof {
        lemma_take_all(arr@);
    }
    false
}

#[verifier::external_type_specification]
#[verifier::external_body]
#[verifier::reject_recursive_types(K)]
#[verifier::reject_recursive_types(S)]
pub struct ExDashSet<K, S>(DashSet<K, S>);

/// The values a concurrent set of numbers holds.
pub uninterp spec fn dash_set_contents(set: DashSet<u32>) -> Set<u32>;

/// `DashSet::new`: an empty set.
#[verifier::external_body]
fn dash_set_new() -> (set: DashSet<u32>)
    ensures
        dash_set_contents(set) == Set::<u32>::empty(),
{
    DashSet::new()
}

/// `DashSet::insert`: adds the value, and answers whether it was absent before.
#[verifier::external_body]
fn dash_set_insert(set: &mut DashSet<u32>, v: u32) -> (fresh: bool)
    ensures
        dash_set_contents(*final(set)) == dash_set_contents(*old(set)).insert(v),
        fresh == !dash_set_contents(*old(set)).contains(v),
{
    set.insert(v)
}

/// Duplicate check through a concurrent set, stopping at the first value
/// that the set already held.
fn any_repeat_in_concurrent_set(arr: &[u32]) -> (res: bool)
    ensures
        res == has_duplicates(arr@),
{
    let mut seen = dash_set_new();
    let n = arr.len();
    let mut i: usize = 0;
    proof {
        lemma_no_dup_empty(arr@);
    }
    while i < n
        invariant
            n == arr@.len(),
            i <= n,
            dash_set_contents(seen) == seen_prefix(arr@, i as int),
            !has_duplicates(arr@.take(i as int)),
        decreases n - i,
    {
        let num = arr[i];
        proof {
            lemma_seen_step(arr@, i as int);
            lemma_dup_step(arr@, i as int);
        }
        if !dash_set_insert(&mut seen, num) {
            proof {
                let k = choose|k: int| 0 <= k < i && arr@[k] == arr@[i as int];
                assert(arr@[k] == arr@[i as int]);
            }
            return true;
        }
        i = i + 1;
    }
    proof {
        lemma_take_all(arr@);
    }
    false
}

/// Duplicate check through a concurrent set. The values are inserted one
/// after another on the calling thread, not by a thread pool; the concurrent
/// set stays, and the answer is the same whichever order the inserts take.
pub fn using_map_parallel(arr: &[u32]) -> (res: bool)
    ensures
        res == has_duplicates(arr@),
{
    any_repeat_in_concurrent_set(arr)
}

/// Duplicate check through a concurrent set, inserting without a lookup
/// first. As in `using_map_parallel`, the inserts run one after another on
/// the calling thread.
pub fn using_set_optimized_parallel(arr: &[u32]) -> (res: bool)
    ensures
        res == has_duplicates(arr@),
{
    any_repeat_in_concurrent_set(arr)
}

} // verus!
