//! Genetic operators: tournament selection, one-point crossover and bitwise mutation.
//!
//! Each operator is split in two: a deterministic function that takes the random
//! draws as arguments and has an exact contract, and a driver that makes the draws.
use crate::chromosome::{Chromosome, BITS};
use crate::random::{draw_in_range, draw_ratio};
use rand::rngs::StdRng;
use vstd::prelude::*;

verus! {

/// Probabilities are given in parts per million.
pub const PROB_SCALE: u32 = 1_000_000;

/// `w` is the first of the drawn indices whose fitness is greatest among all draws.
pub open spec fn is_tournament_winner(parents: Seq<Chromosome>, draws: Seq<usize>, w: usize) -> bool {
    exists|j: int|
        0 <= j < draws.len() && draws[j] == w && (forall|i: int|
            0 <= i < j ==> #[trigger] parents[draws[i] as int].rank() < parents[w as int].rank())
            && (forall|i: int|
            0 <= i < draws.len() ==> #[trigger] parents[draws[i] as int].rank()
                <= parents[w as int].rank())
}

/// Child of a one-point crossover cut at `cut`: the bits before `cut` from `a`,
/// the rest from `b`.
pub open spec fn one_point(a: Seq<bool>, b: Seq<bool>, cut: int) -> Seq<bool> {
    a.subrange(0, cut) + b.subrange(cut, b.len() as int)
}

/// `genes` with every bit flipped where `flips` is set.
pub open spec fn flipped(genes: Seq<bool>, flips: Seq<bool>) -> Seq<bool> {
    Seq::new(genes.len(), |i: int| genes[i] != flips[i])
}

/// Flips that bitwise mutation can draw for `len` bits at `mutation_ppm`: none at
/// probability zero, every bit at probability one.
pub open spec fn mutation_flips(flips: Seq<bool>, len: nat, mutation_ppm: u32) -> bool {
    &&& flips.len() == len
    &&& mutation_ppm == 0 ==> forall|i: int| 0 <= i < len ==> !#[trigger] flips[i]
    &&& mutation_ppm == PROB_SCALE ==> forall|i: int| 0 <= i < len ==> #[trigger] flips[i]
}

/// Winner of a tournament among the parents at the drawn indices: the first draw of
/// greatest fitness (a later draw replaces it only when strictly fitter; fitness
/// compares by [`crate::chromosome::fitness_rank`], so -0.0 and +0.0 tie).
pub fn tournament_winner(parents: &Vec<Chromosome>, draws: &Vec<usize>) -> (w: usize)
    requires
        draws@.len() >= 1,
        forall|i: int| 0 <= i < draws@.len() ==> #[trigger] draws@[i] < parents@.len(),
    ensures
        w < parents@.len(),
        is_tournament_winner(parents@, draws@, w),
{
    let mut best: usize = draws[0];
    let ghost mut at: int = 0;
    let mut i: usize = 1;
    while i < draws.len()
        invariant
            1 <= i <= draws@.len(),
            forall|t: int| 0 <= t < draws@.len() ==> #[trigger] draws@[t] < parents@.len(),
            0 <= at < i,
            draws@[at] == best,
            forall|t: int|
                0 <= t < at ==> #[trigger] parents@[draws@[t] as int].rank()
                    < parents@[best as int].rank(),
            forall|t: int|
                0 <= t < i ==> #[trigger] parents@[draws@[t] as int].rank()
                    <= parents@[best as int].rank(),
        decreases draws@.len() - i,
    {
        let idx = draws[i];
        if parents[idx].fitness_key() > parents[best].fitness_key() {
            best = idx;
            proof {
                at = i as int;
            }
        }
        i = i + 1;
    }
    best
}

/// Tournament selection: draws `k` indices uniformly, with replacement, and returns
/// the index of the winner.
pub fn tournament(parents: &Vec<Chromosome>, k: usize, rng: &mut StdRng) -> (w: usize)
    requires
        parents@.len() >= 1,
        k >= 1,
    ensures
        w < parents@.len(),
        exists|draws: Seq<usize>|
            draws.len() == k && (forall|i: int|
                0 <= i < k ==> #[trigger] draws[i] < parents@.len()) && is_tournament_winner(
                parents@,
                draws,
                w,
            ),
{
    let mut draws: Vec<usize> = Vec::new();
    let mut i: usize = 0;
    while i < k
        invariant
            i <= k,
            parents@.len() >= 1,
            draws@.len() == i,
            forall|t: int| 0 <= t < i ==> #[trigger] draws@[t] < parents@.len(),
        decreases k - i,
    {
        let idx = draw_in_range(rng, 0, parents.len());
        draws.push(idx);
        i = i + 1;
    }
    let w = tournament_winner(parents, &draws);
    assert(draws@.len() == k && (forall|i: int|
        0 <= i < k ==> #[trigger] draws@[i] < parents@.len()) && is_tournament_winner(
        parents@,
        draws@,
        w,
    ));
    w
}

/// One-point crossover cut at `cut`.
pub fn crossover_at(a: &Vec<bool>, b: &Vec<bool>, cut: usize) -> (r: Vec<bool>)
    requires
        a@.len() == BITS,
        b@.len() == BITS,
        cut <= BITS,
    ensures
        r@ == one_point(a@, b@, cut as int),
        r@.len() == BITS,
{
    let mut r: Vec<bool> = Vec::new();
    let mut i: usize = 0;
    while i < BITS
        invariant
            i <= BITS,
            a@.len() == BITS,
            b@.len() == BITS,
            cut <= BITS,
            r@.len() == i,
            forall|t: int| 0 <= t < i ==> #[trigger] r@[t] == if t < cut {
                a@[t]
            } else {
                b@[t]
            },
        decreases BITS - i,
    {
        if i < cut {
            r.push(a[i]);
        } else {
            r.push(b[i]);
        }
        i = i + 1;
    }
    assert(r@ =~= one_point(a@, b@, cut as int));
    r
}

/// One-point crossover of two parents' genes: with chance `crossover_ppm` per million
/// a cut point is drawn uniformly in `[1, BITS)`; otherwise the child is a copy of `a`.
pub fn crossover(a: &Vec<bool>, b: &Vec<bool>, crossover_ppm: u32, rng: &mut StdRng) -> (r: Vec<
    bool,
>)
    requires
        a@.len() == BITS,
        b@.len() == BITS,
        crossover_ppm <= PROB_SCALE,
    ensures
        r@.len() == BITS,
        crossover_ppm == 0 ==> r@ == a@,
        crossover_ppm == PROB_SCALE ==> exists|cut: int|
            1 <= cut < BITS && r@ == one_point(a@, b@, cut),
        r@ == a@ || exists|cut: int| 1 <= cut < BITS && r@ == one_point(a@, b@, cut),
{
    if draw_ratio(rng, crossover_ppm, PROB_SCALE) {
        let cut = draw_in_range(rng, 1, BITS);
        let r = crossover_at(a, b, cut);
        assert(1 <= cut as int && (cut as int) < BITS && r@ == one_point(a@, b@, cut as int));
        r
    } else {
        crate::chromosome::copy_genes(a)
    }
}

/// Flips every bit of `genes` where `flips` is set.
pub fn apply_flips(genes: &mut Vec<bool>, flips: &Vec<bool>)
    requires
        flips@.len() == old(genes)@.len(),
    ensures
        final(genes)@ == flipped(old(genes)@, flips@),
{
    let ghost start = genes@;
    let mut i: usize = 0;
    while i < genes.len()
        invariant
            i <= genes@.len() == start.len() == flips@.len(),
            forall|t: int| 0 <= t < i ==> #[trigger] genes@[t] == (start[t] != flips@[t]),
            forall|t: int| i <= t < genes@.len() ==> #[trigger] genes@[t] == start[t],
        decreases genes@.len() - i,
    {
        if flips[i] {
            let bit = !genes[i];
            genes.set(i, bit);
        }
        i = i + 1;
    }
    assert(genes@ =~= flipped(start, flips@));
}

/// Bitwise mutation: each bit flips independently with chance `mutation_ppm` per million.
pub fn mutate(genes: &mut Vec<bool>, mutation_ppm: u32, rng: &mut StdRng)
    requires
        mutation_ppm <= PROB_SCALE,
    ensures
        final(genes)@.len() == old(genes)@.len(),
        mutation_ppm == 0 ==> final(genes)@ == old(genes)@,
        mutation_ppm == PROB_SCALE ==> forall|i: int|
            0 <= i < old(genes)@.len() ==> #[trigger] final(genes)@[i] == !old(genes)@[i],
        exists|flips: Seq<bool>| mutation_flips(flips, old(genes)@.len(), mutation_ppm) && final(genes)@ == flipped(old(genes)@, flips),
{
    let mut flips: Vec<bool> = Vec::new();
    let mut i: usize = 0;
    while i < genes.len()
        invariant
            i <= genes@.len(),
            mutation_ppm <= PROB_SCALE,
            flips@.len() == i,
            mutation_ppm == 0 ==> forall|t: int| 0 <= t < i ==> !#[trigger] flips@[t],
            mutation_ppm == PROB_SCALE ==> forall|t: int| 0 <= t < i ==> #[trigger] flips@[t],
        decreases genes@.len() - i,
    {
        let f = draw_ratio(rng, mutation_ppm, PROB_SCALE);
        flips.push(f);
        i = i + 1;
    }
    let ghost start = genes@;
    apply_flips(genes, &flips);
    if mutation_ppm == 0 {
        assert(genes@ =~= start);
    }
    assert(mutation_flips(flips@, start.len(), mutation_ppm));
}

} // verus!
