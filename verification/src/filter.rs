//! The author-eligibility filter.
//!
//! Starting from an ordered candidate-author set, the filter repeatedly draws
//! deterministic randomness for a subject built from the draw index and an
//! external rotation key, and moves the addressed candidate from the active
//! set into the eligible subset. Selection is without replacement: removal
//! shifts the remainder, preserving its relative order. The number of draws
//! is `ceil(ratio% * |candidates|)`.
//!
//! Only the first byte of each 256-bit sample is used to derive an index, so
//! a draw can address at most 256 positions; this narrowing is part of the
//! wire protocol and is preserved exactly.

use vstd::prelude::*;

use vstd::arithmetic::div_mod::{lemma_div_is_ordered, lemma_fundamental_div_mod_converse};

verus! {

/// An account identifier of a potential author.
pub type AccountId = u64;

/// The deterministic randomness beacon: a 32-byte output per 8-byte subject,
/// fixed by chain state. Each implementation pins its outputs through the
/// spec member, so the whole selection is a function of its inputs alone.
pub trait RandomnessSource {
    /// The sample as a function of the subject alone.
    spec fn spec_random(&self, subject: Seq<u8>) -> Seq<u8>;

    /// Draw the 32-byte sample for an 8-byte subject.
    fn random(&self, subject: &Vec<u8>) -> (r: Vec<u8>)
        requires
            subject@.len() == 8,
        ensures
            r@ == self.spec_random(subject@),
            r@.len() == 32,
    ;
}

/// The 8-byte randomness subject of draw `i`: the fixed tag `b"filter"`,
/// then the low byte of the draw index, then the low byte of the rotation
/// key.
pub open spec fn spec_subject(i: int, rotation_key: u32) -> Seq<u8> {
    seq![
        102u8,
        105u8,
        108u8,
        116u8,
        101u8,
        114u8,
        (i % 256) as u8,
        ((rotation_key as int) % 256) as u8,
    ]
}

/// The index byte of draw `i`: the first byte of the source's sample for the
/// draw's subject.
pub open spec fn spec_draw<R: RandomnessSource>(source: R, i: int, rotation_key: u32) -> u8 {
    let sample = source.spec_random(spec_subject(i, rotation_key));
    if sample.len() > 0 {
        sample[0]
    } else {
        0u8
    }
}

/// The index bytes of the first `n` draws.
pub open spec fn spec_draws<R: RandomnessSource>(source: R, rotation_key: u32, n: nat) -> Seq<
    u8,
> {
    Seq::new(n, |i: int| spec_draw(source, i, rotation_key))
}

/// Selection without replacement: each draw byte addresses a position of the
/// remaining active set modulo its size, and the addressed candidate moves
/// into the result; removal shifts the remainder, keeping its order.
pub open spec fn spec_select(active: Seq<AccountId>, draws: Seq<u8>) -> Seq<AccountId>
    decreases draws.len(),
{
    if draws.len() == 0 || active.len() == 0 {
        Seq::empty()
    } else {
        let idx = (draws[0] as int) % (active.len() as int);
        seq![active[idx]] + spec_select(active.remove(idx), draws.drop_first())
    }
}

/// `ceil(ratio% * count)`: how many candidates out of `count` are eligible
/// at a given percentage.
pub open spec fn spec_num_eligible(ratio: int, count: int) -> int {
    (ratio * count + 99) / 100
}

/// The eligible subset as a function of the randomness source, the ordered
/// candidate set, the percentage and the rotation key.
pub open spec fn spec_eligible_subset<R: RandomnessSource>(
    source: R,
    candidates: Seq<AccountId>,
    ratio: u8,
    rotation_key: u32,
) -> Seq<AccountId> {
    spec_select(
        candidates,
        spec_draws(
            source,
            rotation_key,
            spec_num_eligible(ratio as int, candidates.len() as int) as nat,
        ),
    )
}

/// How many of `count` candidates are eligible at `ratio` percent; never
/// more than `count`.
pub fn num_eligible(ratio: u8, count: usize) -> (n: usize)
    requires
        ratio <= 100,
    ensures
        n as int == spec_num_eligible(ratio as int, count as int),
        n <= count,
{
    proof {
        let r = ratio as int;
        let c = count as int;
        assert(r * c <= 100 * c) by (nonlinear_arith)
            requires
                r <= 100,
                c >= 0,
        ;
        lemma_div_is_ordered(r * c + 99, 100 * c + 99, 100);
        lemma_fundamental_div_mod_converse(100 * c + 99, 100, c, 99);
    }
    let wide: u128 = (ratio as u128) * (count as u128) + 99;
    let q: u128 = wide / 100;
    q as usize
}

/// Compute the eligible subset: `ceil(ratio% * |candidates|)` draws of the
/// source, each moving the addressed candidate from the active copy into the
/// result. The result is exactly the mathematical selection, so identical
/// inputs — candidate order, ratio, rotation key and randomness outputs —
/// give the identical subset on every evaluator.
pub fn eligible_subset<R: RandomnessSource>(
    candidates: &Vec<AccountId>,
    ratio: u8,
    rotation_key: u32,
    source: &R,
) -> (eligible: Vec<AccountId>)
    requires
        ratio <= 100,
    ensures
        eligible@ == spec_eligible_subset(*source, candidates@, ratio, rotation_key),
        eligible@.len() == spec_num_eligible(ratio as int, candidates@.len() as int),
{
    let n = num_eligible(ratio, candidates.len());
    let ghost all_draws = spec_draws(*source, rotation_key, n as nat);
    let mut active = candidates.clone();
    proof {
        assert forall|j: int| 0 <= j < candidates@.len() implies active@[j] == candidates@[j]
        by {}
        assert(active@ =~= candidates@);
        assert(all_draws.skip(0) =~= all_draws);
        assert(Seq::<AccountId>::empty() + spec_select(active@, all_draws) =~= spec_select(
            candidates@,
            all_draws,
        ));
    }
    let mut eligible: Vec<AccountId> = Vec::new();
    let mut i: usize = 0;
    while i < n
        invariant
            i <= n,
            n <= candidates@.len(),
            n as int == spec_num_eligible(ratio as int, candidates@.len() as int),
            all_draws == spec_draws(*source, rotation_key, n as nat),
            active@.len() == candidates@.len() - i,
            eligible@.len() == i,
            eligible@ + spec_select(active@, all_draws.skip(i as int)) == spec_select(
                candidates@,
                all_draws,
            ),
        decreases n - i,
    {
        let ghost active0 = active@;
        let ghost eligible0 = eligible@;
        let ghost rem = all_draws.skip(i as int);
        let mut subject: Vec<u8> = Vec::new();
        subject.push(102);
        subject.push(105);
        subject.push(108);
        subject.push(116);
        subject.push(101);
        subject.push(114);
        subject.push((i % 256) as u8);
        subject.push((rotation_key % 256) as u8);
        proof {
            assert(subject@ =~= spec_subject(i as int, rotation_key));
        }
        let sample = source.random(&subject);
        let first = sample[0];
        proof {
            assert(rem.len() == n - i);
            assert(rem[0] == all_draws[i as int]);
            assert(first == spec_draw(*source, i as int, rotation_key));
        }
        let idx = (first as usize) % active.len();
        let chosen = active.remove(idx);
        eligible.push(chosen);
        proof {
            assert(rem.drop_first() =~= all_draws.skip(i as int + 1));
            assert(spec_select(active0, rem) == seq![chosen] + spec_select(
                active@,
                rem.drop_first(),
            ));
            assert(eligible@ =~= eligible0 + seq![chosen]);
            assert((eligible0 + seq![chosen]) + spec_select(active@, rem.drop_first())
                =~= eligible0 + (seq![chosen] + spec_select(active@, rem.drop_first())));
        }
        i = i + 1;
    }
    proof {
        assert(all_draws.skip(n as int) =~= Seq::<u8>::empty());
        assert(eligible@ + Seq::<AccountId>::empty() =~= eligible@);
    }
    eligible
}

/// Whether one account is in the eligible subset: membership needs one
/// surviving copy, so duplicate candidate entries are independent positional
/// slots.
pub fn is_eligible<R: RandomnessSource>(
    account: AccountId,
    candidates: &Vec<AccountId>,
    ratio: u8,
    rotation_key: u32,
    source: &R,
) -> (r: bool)
    requires
        ratio <= 100,
    ensures
        r == spec_eligible_subset(*source, candidates@, ratio, rotation_key).contains(account),
{
    let eligible = eligible_subset(candidates, ratio, rotation_key, source);
    let m = eligible.len();
    let mut j: usize = 0;
    while j < m
        invariant
            j <= m,
            m == eligible@.len(),
            eligible@ == spec_eligible_subset(*source, candidates@, ratio, rotation_key),
            forall|k: int| 0 <= k < j ==> eligible@[k] != account,
        decreases m - j,
    {
        if eligible[j] == account {
            proof {
                assert(eligible@[j as int] == account);
            }
            return true;
        }
        j = j + 1;
    }
    false
}

/// The selection is a pure function of its inputs: two randomness sources
/// that agree on every subject yield the identical eligible subset for every
/// candidate set, ratio and rotation key.
pub proof fn lemma_eligible_subset_deterministic<R1: RandomnessSource, R2: RandomnessSource>(
    source1: R1,
    source2: R2,
    candidates: Seq<AccountId>,
    ratio: u8,
    rotation_key: u32,
)
    requires
        forall|subject: Seq<u8>| source1.spec_random(subject) == source2.spec_random(subject),
    ensures
        spec_eligible_subset(source1, candidates, ratio, rotation_key) == spec_eligible_subset(
            source2,
            candidates,
            ratio,
            rotation_key,
        ),
{
    let n = spec_num_eligible(ratio as int, candidates.len() as int) as nat;
    assert(spec_draws(source1, rotation_key, n) =~= spec_draws(source2, rotation_key, n)) by {
        assert forall|i: int| 0 <= i < n implies spec_draws(source1, rotation_key, n)[i]
            == spec_draws(source2, rotation_key, n)[i] by {
            assert(source1.spec_random(spec_subject(i, rotation_key)) == source2.spec_random(
                spec_subject(i, rotation_key),
            ));
        }
    }
}

/// A ratio of zero selects nobody, for any candidate set and rotation key.
pub proof fn lemma_zero_ratio_empty<R: RandomnessSource>(
    source: R,
    candidates: Seq<AccountId>,
    rotation_key: u32,
)
    ensures
        spec_eligible_subset(source, candidates, 0u8, rotation_key) == Seq::<AccountId>::empty(),
{
    assert(spec_num_eligible(0, candidates.len() as int) == 0);
    assert(spec_draws(source, rotation_key, 0nat) =~= Seq::<u8>::empty());
}

/// Draining selection permutes: when there is one draw per candidate, the
/// selection returns the whole active set, as a multiset.
pub proof fn lemma_select_drains(active: Seq<AccountId>, draws: Seq<u8>)
    requires
        draws.len() == active.len(),
    ensures
        spec_select(active, draws).to_multiset() == active.to_multiset(),
    decreases draws.len(),
{
    broadcast use vstd::seq_lib::group_to_multiset_ensures;
    broadcast use vstd::multiset::group_multiset_axioms;

    if draws.len() == 0 {
        assert(spec_select(active, draws) =~= Seq::<AccountId>::empty());
        assert(active =~= Seq::<AccountId>::empty());
    } else {
        let idx = (draws[0] as int) % (active.len() as int);
        let a = active[idx];
        let rest = active.remove(idx);
        lemma_select_drains(rest, draws.drop_first());
        let s = spec_select(rest, draws.drop_first());
        assert(seq![a] + s =~= s.insert(0, a));
        assert(s.insert(0, a).to_multiset() == s.to_multiset().insert(a));
        assert(rest.to_multiset() == active.to_multiset().remove(a));
        assert(active.contains(a));
        assert(active.to_multiset().count(a) > 0);
        assert(active.to_multiset().remove(a).insert(a) =~= active.to_multiset());
    }
}

/// A ratio of one hundred selects the full candidate set, as a multiset, for
/// any candidate set and rotation key.
pub proof fn lemma_full_ratio_spans<R: RandomnessSource>(
    source: R,
    candidates: Seq<AccountId>,
    rotation_key: u32,
)
    ensures
        spec_eligible_subset(source, candidates, 100u8, rotation_key).to_multiset() == candidates
            .to_multiset(),
{
    let c = candidates.len() as int;
    lemma_fundamental_div_mod_converse(100 * c + 99, 100, c, 99);
    assert(spec_num_eligible(100, c) == c);
    lemma_select_drains(candidates, spec_draws(source, rotation_key, c as nat));
}

} // verus!
