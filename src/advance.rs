//! Advancing a population by one generation: elitism, then children bred by
//! tournament selection, one-point crossover and bitwise mutation.
use crate::chromosome::{Chromosome, BITS, MAX_GENE_VALUE};
use crate::operators::{crossover, flipped, mutate, mutation_flips, one_point, tournament, PROB_SCALE};
use crate::population::{all_wf, evaluated_by, insert_sorted, sorted_desc, Population};
use crate::random::seeded_rng;
use rand::rngs::StdRng;
use vstd::prelude::*;
use vstd::wrapping::u64_specs::{wrapping_add, wrapping_mul};

verus! {

/// Added to every advance seed.
pub const SEED_OFFSET: u64 = 0xdeadbeef;

/// Parameters of the algorithm. Probabilities are in parts per million.
#[derive(Clone, Copy, Debug, PartialEq, Eq)]
pub struct GaParams {
    /// Chance that one bit flips during mutation.
    pub mutation_ppm: u32,
    /// Chance that a child is produced by crossover rather than copied from parent A.
    pub crossover_ppm: u32,
    /// Number of candidates drawn per tournament.
    pub tournament_k: usize,
    /// Number of chromosomes per generation.
    pub pop_size: usize,
}

/// Why a parameter set was rejected.
#[derive(Clone, Copy, Debug, PartialEq, Eq)]
pub enum ParamError {
    MutationProbability,
    CrossoverProbability,
    TournamentSize,
    PopulationSize,
}

impl GaParams {
    /// Probabilities within `[0, 1]`, at least one candidate per tournament and at
    /// least two chromosomes per generation.
    pub open spec fn wf(&self) -> bool {
        self.mutation_ppm <= PROB_SCALE && self.crossover_ppm <= PROB_SCALE
            && self.tournament_k >= 1 && self.pop_size >= 2
    }

    /// Checks a parameter set; the first field out of range, in declaration order,
    /// names the error.
    pub fn new(mutation_ppm: u32, crossover_ppm: u32, tournament_k: usize, pop_size: usize) -> (r:
        Result<GaParams, ParamError>)
        ensures
            mutation_ppm > PROB_SCALE ==> r == Err::<GaParams, ParamError>(
                ParamError::MutationProbability,
            ),
            mutation_ppm <= PROB_SCALE && crossover_ppm > PROB_SCALE ==> r == Err::<
                GaParams,
                ParamError,
            >(ParamError::CrossoverProbability),
            mutation_ppm <= PROB_SCALE && crossover_ppm <= PROB_SCALE && tournament_k < 1 ==> r
                == Err::<GaParams, ParamError>(ParamError::TournamentSize),
            mutation_ppm <= PROB_SCALE && crossover_ppm <= PROB_SCALE && tournament_k >= 1
                && pop_size < 2 ==> r == Err::<GaParams, ParamError>(ParamError::PopulationSize),
            r.is_ok() ==> r == Ok::<GaParams, ParamError>(
                (GaParams { mutation_ppm, crossover_ppm, tournament_k, pop_size }),
            ),
            r.is_ok() <==> (GaParams { mutation_ppm, crossover_ppm, tournament_k, pop_size }).wf(),
    {
        if mutation_ppm > PROB_SCALE {
            Err(ParamError::MutationProbability)
        } else if crossover_ppm > PROB_SCALE {
            Err(ParamError::CrossoverProbability)
        } else if tournament_k < 1 {
            Err(ParamError::TournamentSize)
        } else if pop_size < 2 {
            Err(ParamError::PopulationSize)
        } else {
            Ok(GaParams { mutation_ppm, crossover_ppm, tournament_k, pop_size })
        }
    }

    /// Mutation 5%, crossover 80%, tournaments of 3, 20 chromosomes.
    pub fn standard() -> (r: GaParams)
        ensures
            r.wf(),
            r.mutation_ppm == 50_000,
            r.crossover_ppm == 800_000,
            r.tournament_k == 3,
            r.pop_size == 20,
    {
        GaParams { mutation_ppm: 50_000, crossover_ppm: 800_000, tournament_k: 3, pop_size: 20 }
    }
}

/// Genes that crossover and mutation at the given probabilities can make from two
/// parents of `parents`. A cut at `BITS` is a copy of the first parent: it is the
/// only cut at crossover probability zero and excluded at probability one. No bit
/// flips at mutation probability zero, every bit at probability one.
pub open spec fn is_offspring(
    parents: Seq<Chromosome>,
    genes: Seq<bool>,
    crossover_ppm: u32,
    mutation_ppm: u32,
) -> bool {
    exists|a: int, b: int, cut: int, flips: Seq<bool>|
        0 <= a < parents.len() && 0 <= b < parents.len() && 1 <= cut <= BITS
            && (crossover_ppm == 0 ==> cut == BITS) && (crossover_ppm == PROB_SCALE ==> cut < BITS)
            && mutation_flips(flips, genes.len(), mutation_ppm) && genes == #[trigger] flipped(
            one_point(parents[a].genes@, parents[b].genes@, cut),
            flips,
        )
}

/// The genes are those of one of the parents.
pub open spec fn copies_a_parent(parents: Seq<Chromosome>, genes: Seq<bool>) -> bool {
    exists|p: int| 0 <= p < parents.len() && genes == #[trigger] parents[p].genes@
}

/// The genes are a one-point crossover of two parents, with no bit flipped (a cut
/// at `BITS` copies the first parent).
pub open spec fn crossed_from_parents(parents: Seq<Chromosome>, genes: Seq<bool>) -> bool {
    exists|a: int, b: int, cut: int|
        0 <= a < parents.len() && 0 <= b < parents.len() && 1 <= cut <= BITS && genes
            == #[trigger] one_point(parents[a].genes@, parents[b].genes@, cut)
}

/// Without mutation, offspring are plain one-point crossovers of two parents.
pub proof fn lemma_offspring_without_mutation(
    parents: Seq<Chromosome>,
    genes: Seq<bool>,
    crossover_ppm: u32,
)
    requires
        all_wf(parents),
        is_offspring(parents, genes, crossover_ppm, 0),
    ensures
        crossed_from_parents(parents, genes),
{
    let (a, b, cut, flips) = choose|a: int, b: int, cut: int, flips: Seq<bool>|
        0 <= a < parents.len() && 0 <= b < parents.len() && 1 <= cut <= BITS && (crossover_ppm
            == 0 ==> cut == BITS) && (crossover_ppm == PROB_SCALE ==> cut < BITS)
            && mutation_flips(flips, genes.len(), 0) && genes == #[trigger] flipped(
            one_point(parents[a].genes@, parents[b].genes@, cut),
            flips,
        );
    assert(parents[a].wf() && parents[b].wf());
    let crossed = one_point(parents[a].genes@, parents[b].genes@, cut);
    assert(genes =~= crossed);
}

/// Without crossover and without mutation, offspring are copies of a parent.
pub proof fn lemma_offspring_without_variation(parents: Seq<Chromosome>, genes: Seq<bool>)
    requires
        all_wf(parents),
        is_offspring(parents, genes, 0, 0),
    ensures
        copies_a_parent(parents, genes),
{
    let (a, b, cut, flips) = choose|a: int, b: int, cut: int, flips: Seq<bool>|
        0 <= a < parents.len() && 0 <= b < parents.len() && 1 <= cut <= BITS && (0u32 == 0
            ==> cut == BITS) && (0u32 == PROB_SCALE ==> cut < BITS) && mutation_flips(
            flips,
            genes.len(),
            0,
        ) && genes == #[trigger] flipped(
            one_point(parents[a].genes@, parents[b].genes@, cut),
            flips,
        );
    assert(parents[a].wf() && parents[b].wf());
    assert(genes =~= parents[a].genes@);
}

/// A parent's own genes are a crossover of it with itself, cut at `BITS`.
proof fn lemma_parent_is_crossed(parents: Seq<Chromosome>, p: int)
    requires
        all_wf(parents),
        0 <= p < parents.len(),
    ensures
        crossed_from_parents(parents, parents[p].genes@),
        copies_a_parent(parents, parents[p].genes@),
{
    assert(parents[p].wf());
    assert(parents[p].genes@ =~= one_point(parents[p].genes@, parents[p].genes@, BITS as int));
}

/// Seed of the generator for the advance to generation `new_gen`: the clock's
/// sub-second nanoseconds (or `new_gen` when there is no clock reading), times
/// `new_gen + 1`, plus a fixed offset, all modulo 2^64.
pub open spec fn seed_for(clock_nanos: Option<u32>, new_gen: u64) -> u64 {
    let base: u64 = match clock_nanos {
        Some(n) => n as u64,
        None => new_gen,
    };
    wrapping_add(wrapping_mul(base, wrapping_add(new_gen, 1)), SEED_OFFSET)
}

/// The seed for the advance to generation `new_gen`.
pub fn advance_seed(clock_nanos: Option<u32>, new_gen: u64) -> (r: u64)
    ensures
        r == seed_for(clock_nanos, new_gen),
{
    let base: u64 = match clock_nanos {
        Some(n) => n as u64,
        None => new_gen,
    };
    base.wrapping_mul(new_gen.wrapping_add(1)).wrapping_add(SEED_OFFSET)
}

/// The next generation of `old`, drawing from `rng`: the best chromosome of `old`
/// carried over unchanged, then children bred from `old` until `pop_size` is reached,
/// each evaluated by `objective`; the result is sorted best-first.
pub fn advance_with_rng<F: Fn(u64) -> u64>(
    old: &Population,
    params: &GaParams,
    rng: &mut StdRng,
    objective: &F,
) -> (r: Population)
    requires
        old.wf(),
        old.chromosomes@.len() >= 1,
        params.wf(),
        old.generation < u64::MAX,
        forall|v: u64| v <= MAX_GENE_VALUE ==> #[trigger] objective.requires((v,)),
    ensures
        r.wf(),
        r.chromosomes@.len() == params.pop_size,
        r.generation == old.generation + 1,
        exists|e: int|
            0 <= e < r.chromosomes@.len() && #[trigger] r.chromosomes@[e].same_as(
                old.chromosomes@[0],
            ) && forall|i: int|
                0 <= i < r.chromosomes@.len() && i != e ==> evaluated_by(
                    #[trigger] r.chromosomes@[i],
                    *objective,
                ) && is_offspring(
                    old.chromosomes@,
                    r.chromosomes@[i].genes@,
                    params.crossover_ppm,
                    params.mutation_ppm,
                ),
        r.chromosomes@[0].rank() >= old.chromosomes@[0].rank(),
        params.mutation_ppm == 0 ==> forall|i: int|
            0 <= i < r.chromosomes@.len() ==> crossed_from_parents(
                old.chromosomes@,
                #[trigger] r.chromosomes@[i].genes@,
            ),
        params.mutation_ppm == 0 && params.crossover_ppm == 0 ==> forall|i: int|
            0 <= i < r.chromosomes@.len() ==> copies_a_parent(
                old.chromosomes@,
                #[trigger] r.chromosomes@[i].genes@,
            ),
{
    let parents = &old.chromosomes;
    let ghost elite = old.chromosomes@[0];
    let ghost cp = params.crossover_ppm;
    let ghost mp = params.mutation_ppm;
    let mut next: Vec<Chromosome> = Vec::new();
    assert(parents@[0].wf());
    next.push(parents[0].duplicate());
    let ghost mut elite_at: int = 0;
    while next.len() < params.pop_size
        invariant
            old.wf(),
            parents@.len() >= 1,
            parents == &old.chromosomes,
            elite == parents@[0],
            params.wf(),
            cp == params.crossover_ppm,
            mp == params.mutation_ppm,
            forall|v: u64| v <= MAX_GENE_VALUE ==> #[trigger] objective.requires((v,)),
            1 <= next@.len() <= params.pop_size,
            sorted_desc(next@),
            all_wf(next@),
            0 <= elite_at < next@.len(),
            next@[elite_at].same_as(elite),
            forall|i: int|
                0 <= i < next@.len() && i != elite_at ==> evaluated_by(
                    #[trigger] next@[i],
                    *objective,
                ) && is_offspring(parents@, next@[i].genes@, cp, mp),
        decreases params.pop_size - next@.len(),
    {
        let a = tournament(parents, params.tournament_k, rng);
        let b = tournament(parents, params.tournament_k, rng);
        let pa = &parents[a];
        let pb = &parents[b];
        assert(pa.wf() && pb.wf());
        let mut genes = crossover(&pa.genes, &pb.genes, params.crossover_ppm, rng);
        let ghost crossed = genes@;
        mutate(&mut genes, params.mutation_ppm, rng);
        proof {
            let flips = choose|flips: Seq<bool>|
                mutation_flips(flips, crossed.len(), mp) && genes@ == flipped(crossed, flips);
            let pag = parents@[a as int].genes@;
            let pbg = parents@[b as int].genes@;
            if cp == PROB_SCALE {
                let cut = choose|cut: int| 1 <= cut < BITS && crossed == one_point(pag, pbg, cut);
                assert(genes@ == flipped(one_point(pag, pbg, cut), flips));
            } else if crossed == pa.genes@ {
                let whole = BITS as int;
                assert(pag =~= one_point(pag, pbg, whole));
                assert(genes@ == flipped(one_point(pag, pbg, whole), flips));
            } else {
                let cut = choose|cut: int| 1 <= cut < BITS && crossed == one_point(pag, pbg, cut);
                assert(genes@ == flipped(one_point(pag, pbg, cut), flips));
            }
            assert(is_offspring(parents@, genes@, cp, mp));
        }
        let mut child = Chromosome::from_genes(genes);
        child.evaluate(objective);
        let ghost before = next@;
        let ghost before_elite = elite_at;
        let pos = insert_sorted(&mut next, child);
        proof {
            if pos as int <= elite_at {
                elite_at = elite_at + 1;
            }
            assert(next@[elite_at] == before[before_elite]);
            assert forall|i: int|
                0 <= i < next@.len() && i != elite_at implies evaluated_by(
                #[trigger] next@[i],
                *objective,
            ) && is_offspring(parents@, next@[i].genes@, cp, mp) by {
                if i > pos {
                    assert(next@[i] == before[i - 1]);
                } else if i < pos {
                    assert(next@[i] == before[i]);
                }
            }
        }
    }
    proof {
        assert(next@[0].rank() >= next@[elite_at].rank());
        assert(forall|i: int|
            0 <= i < next@.len() && i != elite_at ==> evaluated_by(
                #[trigger] next@[i],
                *objective,
            ) && is_offspring(parents@, next@[i].genes@, cp, mp));
        lemma_parent_is_crossed(parents@, 0);
        if mp == 0 {
            assert forall|i: int| 0 <= i < next@.len() implies crossed_from_parents(
                parents@,
                #[trigger] next@[i].genes@,
            ) by {
                if i != elite_at {
                    lemma_offspring_without_mutation(parents@, next@[i].genes@, cp);
                }
            }
            if cp == 0 {
                assert forall|i: int| 0 <= i < next@.len() implies copies_a_parent(
                    parents@,
                    #[trigger] next@[i].genes@,
                ) by {
                    if i != elite_at {
                        lemma_offspring_without_variation(parents@, next@[i].genes@);
                    }
                }
            }
        }
    }
    Population { chromosomes: next, generation: old.generation + 1 }
}

/// The next generation of `old`, drawn from a generator seeded by
/// [`seed_for`]`(clock_nanos, old.generation + 1)`.
pub fn next_generation<F: Fn(u64) -> u64>(
    old: &Population,
    params: &GaParams,
    clock_nanos: Option<u32>,
    objective: &F,
) -> (r: Population)
    requires
        old.wf(),
        old.chromosomes@.len() >= 1,
        params.wf(),
        old.generation < u64::MAX,
        forall|v: u64| v <= MAX_GENE_VALUE ==> #[trigger] objective.requires((v,)),
    ensures
        r.wf(),
        r.chromosomes@.len() == params.pop_size,
        r.generation == old.generation + 1,
        exists|e: int|
            0 <= e < r.chromosomes@.len() && #[trigger] r.chromosomes@[e].same_as(
                old.chromosomes@[0],
            ) && forall|i: int|
                0 <= i < r.chromosomes@.len() && i != e ==> evaluated_by(
                    #[trigger] r.chromosomes@[i],
                    *objective,
                ) && is_offspring(
                    old.chromosomes@,
                    r.chromosomes@[i].genes@,
                    params.crossover_ppm,
                    params.mutation_ppm,
                ),
        r.chromosomes@[0].rank() >= old.chromosomes@[0].rank(),
        params.mutation_ppm == 0 ==> forall|i: int|
            0 <= i < r.chromosomes@.len() ==> crossed_from_parents(
                old.chromosomes@,
                #[trigger] r.chromosomes@[i].genes@,
            ),
        params.mutation_ppm == 0 && params.crossover_ppm == 0 ==> forall|i: int|
            0 <= i < r.chromosomes@.len() ==> copies_a_parent(
                old.chromosomes@,
                #[trigger] r.chromosomes@[i].genes@,
            ),
{
    let seed = advance_seed(clock_nanos, old.generation + 1);
    let mut rng = seeded_rng(seed);
    advance_with_rng(old, params, &mut rng, objective)
}

} // verus!
