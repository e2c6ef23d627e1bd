//! Populations: the chromosomes of one generation, kept sorted best-first.
use crate::chromosome::{bits_value, Chromosome, MAX_GENE_VALUE};
use crate::random::seeded_rng;
use vstd::prelude::*;

verus! {

/// Seed of the initial population, so that a run starts reproducibly.
pub const INITIAL_SEED: u64 = 12345;

/// Fitness does not increase along the sequence.
pub open spec fn sorted_desc(s: Seq<Chromosome>) -> bool {
    forall|i: int, j: int| 0 <= i < j < s.len() ==> s[i].rank() >= s[j].rank()
}

/// Every chromosome has the fixed width.
pub open spec fn all_wf(s: Seq<Chromosome>) -> bool {
    forall|i: int| 0 <= i < s.len() ==> #[trigger] s[i].wf()
}

/// The fitness of `c` is a value that `objective` may return for its genes.
pub open spec fn evaluated_by<F: Fn(u64) -> u64>(c: Chromosome, objective: F) -> bool {
    objective.ensures((bits_value(c.genes@) as u64,), c.fitness_bits)
}

/// The chromosomes of one generation and its number.
#[derive(Clone, Debug)]
pub struct Population {
    /// Sorted by non-increasing fitness.
    pub chromosomes: Vec<Chromosome>,
    /// 0 for an initial population, one more for each advance.
    pub generation: u64,
}

impl Population {
    /// Sorted best-first, every chromosome of the fixed width.
    pub open spec fn wf(&self) -> bool {
        sorted_desc(self.chromosomes@) && all_wf(self.chromosomes@)
    }

    /// A fresh random population of `size` evaluated chromosomes at generation 0,
    /// drawn from a generator seeded with `seed`.
    pub fn random<F: Fn(u64) -> u64>(size: usize, seed: u64, objective: &F) -> (r: Population)
        requires
            forall|v: u64| v <= MAX_GENE_VALUE ==> #[trigger] objective.requires((v,)),
        ensures
            r.wf(),
            r.chromosomes@.len() == size,
            r.generation == 0,
            forall|i: int|
                0 <= i < size ==> evaluated_by(#[trigger] r.chromosomes@[i], *objective),
    {
        let mut rng = seeded_rng(seed);
        let mut chromosomes: Vec<Chromosome> = Vec::new();
        let mut i: usize = 0;
        while i < size
            invariant
                i <= size,
                forall|v: u64| v <= MAX_GENE_VALUE ==> #[trigger] objective.requires((v,)),
                chromosomes@.len() == i,
                sorted_desc(chromosomes@),
                all_wf(chromosomes@),
                forall|t: int|
                    0 <= t < i ==> evaluated_by(#[trigger] chromosomes@[t], *objective),
            decreases size - i,
        {
            let mut c = Chromosome::random(&mut rng);
            c.evaluate(objective);
            let ghost before = chromosomes@;
            let pos = insert_sorted(&mut chromosomes, c);
            proof {
                assert forall|t: int| 0 <= t < i + 1 implies evaluated_by(
                    #[trigger] chromosomes@[t],
                    *objective,
                ) by {
                    if t > pos {
                        assert(chromosomes@[t] == before[t - 1]);
                    }
                }
            }
            i = i + 1;
        }
        Population { chromosomes, generation: 0 }
    }

    /// The best chromosome: the first, or `None` for an empty population.
    pub fn best(&self) -> (r: Option<&Chromosome>)
        ensures
            self.chromosomes@.len() == 0 ==> r.is_none(),
            self.chromosomes@.len() > 0 ==> r == Some(&self.chromosomes@[0]),
    {
        if self.chromosomes.len() == 0 {
            None
        } else {
            Some(&self.chromosomes[0])
        }
    }

    /// An exact copy: same generation, and each chromosome the same as the original's.
    pub fn duplicate(&self) -> (r: Population)
        ensures
            r.generation == self.generation,
            r.chromosomes@.len() == self.chromosomes@.len(),
            forall|i: int|
                0 <= i < self.chromosomes@.len() ==> #[trigger] r.chromosomes@[i].same_as(
                    self.chromosomes@[i],
                ),
            self.wf() ==> r.wf(),
    {
        let mut chromosomes: Vec<Chromosome> = Vec::new();
        let mut i: usize = 0;
        while i < self.chromosomes.len()
            invariant
                i <= self.chromosomes@.len(),
                chromosomes@.len() == i,
                forall|t: int|
                    0 <= t < i ==> #[trigger] chromosomes@[t].same_as(self.chromosomes@[t]),
            decreases self.chromosomes@.len() - i,
        {
            chromosomes.push(self.chromosomes[i].duplicate());
            i = i + 1;
        }
        let r = Population { chromosomes, generation: self.generation };
        proof {
            if self.wf() {
                assert forall|a: int, b: int|
                    0 <= a < b < r.chromosomes@.len() implies r.chromosomes@[a].rank()
                    >= r.chromosomes@[b].rank() by {
                    assert(r.chromosomes@[a].same_as(self.chromosomes@[a]));
                    assert(r.chromosomes@[b].same_as(self.chromosomes@[b]));
                }
                assert forall|a: int| 0 <= a < r.chromosomes@.len() implies #[trigger] r.chromosomes@[a].wf() by {
                    assert(r.chromosomes@[a].same_as(self.chromosomes@[a]));
                    assert(self.chromosomes@[a].wf());
                }
            }
        }
        r
    }

    /// Number of chromosomes.
    pub fn len(&self) -> (r: usize)
        ensures
            r == self.chromosomes@.len(),
    {
        self.chromosomes.len()
    }
}

/// Inserts `c` into a best-first sequence, after every chromosome at least as fit,
/// and returns its position.
pub fn insert_sorted(v: &mut Vec<Chromosome>, c: Chromosome) -> (pos: usize)
    requires
        sorted_desc(old(v)@),
        all_wf(old(v)@),
        c.wf(),
    ensures
        pos <= old(v)@.len(),
        final(v)@ == old(v)@.insert(pos as int, c),
        sorted_desc(final(v)@),
        all_wf(final(v)@),
        forall|i: int| 0 <= i < pos ==> #[trigger] old(v)@[i].rank() >= c.rank(),
        forall|i: int| pos <= i < old(v)@.len() ==> #[trigger] old(v)@[i].rank() < c.rank(),
{
    let key = c.fitness_key();
    let mut pos: usize = 0;
    while pos < v.len() && v[pos].fitness_key() >= key
        invariant
            pos <= v@.len(),
            key == c.rank(),
            forall|i: int| 0 <= i < pos ==> #[trigger] v@[i].rank() >= c.rank(),
        decreases v@.len() - pos,
    {
        pos = pos + 1;
    }
    let ghost before = v@;
    proof {
        assert forall|i: int| pos <= i < before.len() implies #[trigger] before[i].rank()
            < c.rank() by {
            assert(before[pos as int].rank() >= before[i].rank());
        }
    }
    v.insert(pos, c);
    proof {
        assert forall|i: int, j: int| 0 <= i < j < v@.len() implies v@[i].rank()
            >= v@[j].rank() by {
            if i < pos && j > pos {
                assert(v@[j] == before[j - 1]);
                assert(before[i].rank() >= before[j - 1].rank());
            } else if j > pos {
                assert(v@[j] == before[j - 1]);
            } else if i < pos {
                assert(v@[i] == before[i]);
            }
        }
        assert forall|i: int| 0 <= i < v@.len() implies #[trigger] v@[i].wf() by {
            if i > pos {
                assert(v@[i] == before[i - 1]);
            }
        }
    }
    pos
}

} // verus!
