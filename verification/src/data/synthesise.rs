//! Synthetic columns for the expanded census: a seeded random income and weight per
//! resident, and the number of copies the sample is expanded by.

use vstd::prelude::*;
use rand::{Rng, SeedableRng};
use rand_chacha::ChaCha8Rng;

verus! {

#[verifier::external_type_specification]
#[verifier::external_body]
pub struct ExChaCha8Rng(ChaCha8Rng);

/// Seed of the generator, so that every run synthesises the same columns.
pub const SYNTHESIS_SEED: u64 = 1949;

/// How many copies of the sample make up the expanded dataset.
pub const EXPANSION_TIMES: usize = 100;

pub const INCOME_LOW: i64 = 10000;
pub const INCOME_HIGH: i64 = 100000;
pub const WEIGHT_LOW: i64 = 75;
pub const WEIGHT_HIGH: i64 = 125;

/// The value that the last of a run of `Rng::random_range` calls returns, on a
/// `ChaCha8Rng` freshly seeded from `seed` by `SeedableRng::seed_from_u64` and then
/// asked, in turn, for a value in each inclusive range of `ranges`. rand_chacha's
/// generators are deterministic and portable, so this depends on the arguments alone.
pub uninterp spec fn chacha8_draw(seed: u64, ranges: Seq<(i64, i64)>) -> i64;

/// What the generator seeded from `seed` returns, call by call, when asked for a value in
/// each range of `ranges` in turn.
pub open spec fn seeded_draws(seed: u64, ranges: Seq<(i64, i64)>) -> Seq<i64> {
    Seq::new(ranges.len(), |i: int| chacha8_draw(seed, ranges.take(i + 1)))
}

/// The ranges that the synthesis asks for: `height` incomes, then `height` weights.
pub open spec fn synthesis_ranges(height: nat) -> Seq<(i64, i64)> {
    Seq::new(height, |i: int| (INCOME_LOW, INCOME_HIGH)) + Seq::new(
        height,
        |i: int| (WEIGHT_LOW, WEIGHT_HIGH),
    )
}

/// The income and weight columns for `height` residents: the first `height` draws of
/// the generator seeded with `SYNTHESIS_SEED`, then the next `height`.
pub open spec fn synthesised_columns(height: nat) -> (Seq<i64>, Seq<i64>) {
    let draws = seeded_draws(SYNTHESIS_SEED, synthesis_ranges(height));
    (draws.take(height as int), draws.skip(height as int))
}

/// A `ChaCha8Rng` together with the seed it was made from and the ranges it has been
/// asked for so far.
struct SeededGenerator {
    rng: ChaCha8Rng,
    seed: Ghost<u64>,
    drawn: Ghost<Seq<(i64, i64)>>,
}

/// rand_chacha's `ChaCha8Rng::seed_from_u64`: a generator seeded from `seed`, that has
/// not been asked for anything yet.
#[verifier::external_body]
fn seeded_generator(seed: u64) -> (g: SeededGenerator)
    ensures
        g.seed@ == seed,
        g.drawn@ == Seq::<(i64, i64)>::empty(),
{
    SeededGenerator { rng: ChaCha8Rng::seed_from_u64(seed), seed: Ghost(seed), drawn: Ghost(Seq::empty()) }
}

/// rand's `Rng::random_range` over `low..=high`: a value in that range, and the value
/// that the generator's seed and the ranges asked for so far, this one last, determine.
#[verifier::external_body]
fn random_in(g: &mut SeededGenerator, low: i64, high: i64) -> (r: i64)
    requires
        low <= high,
    ensures
        final(g).seed == old(g).seed,
        final(g).drawn@ == old(g).drawn@.push((low, high)),
        r == chacha8_draw(old(g).seed@, final(g).drawn@),
        low <= r <= high,
{
    g.rng.random_range(low..=high)
}

/// Income and weight columns for `height` residents, drawn in that order from the
/// generator seeded with `SYNTHESIS_SEED`: incomes in 10,000..=100,000 and weights in
/// 75..=125. The same `height` gives the same columns on every run.
pub fn synthesise_census_columns(height: usize) -> (r: (Vec<i64>, Vec<i64>))
    ensures
        (r.0@, r.1@) == synthesised_columns(height as nat),
        r.0.len() == height,
        r.1.len() == height,
        forall|i: int| 0 <= i < height ==> INCOME_LOW <= #[trigger] r.0@[i] <= INCOME_HIGH,
        forall|i: int| 0 <= i < height ==> WEIGHT_LOW <= #[trigger] r.1@[i] <= WEIGHT_HIGH,
{
    let ghost ranges = synthesis_ranges(height as nat);
    let ghost draws = seeded_draws(SYNTHESIS_SEED, ranges);
    let mut g = seeded_generator(SYNTHESIS_SEED);
    let mut income: Vec<i64> = Vec::new();
    let mut i: usize = 0;
    assert(g.drawn@ =~= ranges.take(0));
    while i < height
        invariant
            i <= height,
            ranges == synthesis_ranges(height as nat),
            draws == seeded_draws(SYNTHESIS_SEED, ranges),
            g.seed@ == SYNTHESIS_SEED,
            g.drawn@ == ranges.take(i as int),
            income@ == draws.take(i as int),
            forall|k: int| 0 <= k < i ==> INCOME_LOW <= #[trigger] income@[k] <= INCOME_HIGH,
        decreases height - i,
    {
        let v = random_in(&mut g, INCOME_LOW, INCOME_HIGH);
        proof {
            assert(ranges[i as int] == (INCOME_LOW, INCOME_HIGH));
            assert(g.drawn@ =~= ranges.take(i + 1));
        }
        income.push(v);
        i = i + 1;
        assert(income@ =~= draws.take(i as int));
    }
    let mut weight: Vec<i64> = Vec::new();
    let mut j: usize = 0;
    while j < height
        invariant
            j <= height,
            i == height,
            ranges == synthesis_ranges(height as nat),
            draws == seeded_draws(SYNTHESIS_SEED, ranges),
            g.seed@ == SYNTHESIS_SEED,
            g.drawn@ == ranges.take(height + j),
            weight@ == draws.subrange(height as int, height + j),
            forall|k: int| 0 <= k < j ==> WEIGHT_LOW <= #[trigger] weight@[k] <= WEIGHT_HIGH,
        decreases height - j,
    {
        let v = random_in(&mut g, WEIGHT_LOW, WEIGHT_HIGH);
        proof {
            assert(ranges[height + j] == (WEIGHT_LOW, WEIGHT_HIGH));
            assert(g.drawn@ =~= ranges.take(height + j + 1));
        }
        weight.push(v);
        j = j + 1;
        assert(weight@ =~= draws.subrange(height as int, height + j));
    }
    assert(income@ =~= synthesised_columns(height as nat).0);
    assert(weight@ =~= synthesised_columns(height as nat).1);
    (income, weight)
}

/// The law of the synthesis: the incomes are the first `height` draws, in 10,000 to
/// 100,000, of the ChaCha8 generator seeded with 1949, and the weights its next `height`
/// draws, in 75 to 125; nothing else decides them.
pub proof fn lemma_synthesis_uses_seed_1949(height: nat)
    ensures
        ({
            let ranges = Seq::new(height, |i: int| (10000i64, 100000i64)) + Seq::new(height, |i: int| (75i64, 125i64));
            &&& synthesised_columns(height).0 == Seq::new(height, |i: int| chacha8_draw(1949, ranges.take(i + 1)))
            &&& synthesised_columns(height).1 == Seq::new(height, |i: int| chacha8_draw(1949, ranges.take(height + i + 1)))
        }),
{
    let ranges = Seq::new(height, |i: int| (10000i64, 100000i64)) + Seq::new(height, |i: int| (75i64, 125i64));
    assert(synthesis_ranges(height) =~= ranges);
    assert(synthesised_columns(height).0 =~= Seq::new(height, |i: int| chacha8_draw(1949, ranges.take(i + 1))));
    assert(synthesised_columns(height).1 =~= Seq::new(height, |i: int| chacha8_draw(1949, ranges.take(height + i + 1))));
}

} // verus!
