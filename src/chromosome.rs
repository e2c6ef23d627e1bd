//! Chromosomes: fixed-width bit strings that encode one scalar decision variable.
use vstd::arithmetic::power2::{lemma2_to64, lemma_pow2_unfold, pow2};
use crate::random::draw_ratio;
use rand::rngs::StdRng;
use vstd::prelude::*;

verus! {

/// Number of bits that encode one chromosome.
pub const BITS: usize = 16;

/// Largest value that a gene string can encode, `2^BITS - 1`.
pub const MAX_GENE_VALUE: u64 = 65535;

/// Unsigned integer value of a bit string read big-endian (first bit most significant).
pub open spec fn bits_value(s: Seq<bool>) -> nat
    decreases s.len(),
{
    if s.len() == 0 {
        0
    } else {
        2 * bits_value(s.drop_last()) + if s.last() {
            1nat
        } else {
            0nat
        }
    }
}

/// Order of the `f64` whose bit pattern is `bits`: the sign bit clear gives the
/// magnitude bits, the sign bit set gives their negation. On numbers this is the
/// order of `<` on `f64`, with -0.0 and +0.0 equal; NaNs go above +inf or below
/// -inf by their sign.
pub open spec fn fitness_rank(bits: u64) -> int {
    if bits < 0x8000_0000_0000_0000 {
        bits as int
    } else {
        -(bits - 0x8000_0000_0000_0000)
    }
}

/// One candidate solution: its genes and the bit pattern of its `f64` fitness.
#[derive(Clone, Debug)]
pub struct Chromosome {
    pub genes: Vec<bool>,
    /// `f64::to_bits` of the objective function's value at the decoded point;
    /// zero until the chromosome has been evaluated.
    pub fitness_bits: u64,
}

impl Chromosome {
    /// The genes have the fixed width.
    pub open spec fn wf(&self) -> bool {
        self.genes@.len() == BITS
    }

    pub open spec fn rank(&self) -> int {
        fitness_rank(self.fitness_bits)
    }

    /// Same genes and same fitness.
    pub open spec fn same_as(&self, other: Chromosome) -> bool {
        self.genes@ == other.genes@ && self.fitness_bits == other.fitness_bits
    }

    /// A chromosome with the given genes, not yet evaluated.
    pub fn from_genes(genes: Vec<bool>) -> (r: Chromosome)
        ensures
            r.genes@ == genes@,
            r.fitness_bits == 0,
    {
        Chromosome { genes, fitness_bits: 0 }
    }

    /// A chromosome of `BITS` independent fair random bits, not yet evaluated.
    pub fn random(rng: &mut StdRng) -> (r: Chromosome)
        ensures
            r.wf(),
            r.fitness_bits == 0,
    {
        let mut genes: Vec<bool> = Vec::new();
        let mut i: usize = 0;
        while i < BITS
            invariant
                i <= BITS,
                genes@.len() == i,
            decreases BITS - i,
        {
            genes.push(draw_ratio(rng, 1, 2));
            i = i + 1;
        }
        Chromosome { genes, fitness_bits: 0 }
    }

    /// An exact copy of this chromosome.
    pub fn duplicate(&self) -> (r: Chromosome)
        ensures
            r.same_as(*self),
    {
        Chromosome { genes: copy_genes(&self.genes), fitness_bits: self.fitness_bits }
    }

    /// The unsigned integer that the genes encode.
    pub fn value(&self) -> (r: u64)
        requires
            self.wf(),
        ensures
            r == bits_value(self.genes@),
            r <= MAX_GENE_VALUE,
    {
        gene_value(&self.genes)
    }

    /// Order key of the fitness, as [`fitness_rank`] orders it.
    pub fn fitness_key(&self) -> (r: i64)
        ensures
            r == self.rank(),
    {
        fitness_key(self.fitness_bits)
    }

    /// Sets the fitness to the objective's value at the encoded point; `objective`
    /// maps the encoded integer to the bit pattern of the fitness.
    pub fn evaluate<F: Fn(u64) -> u64>(&mut self, objective: &F)
        requires
            old(self).wf(),
            forall|v: u64| v <= MAX_GENE_VALUE ==> #[trigger] objective.requires((v,)),
        ensures
            final(self).genes@ == old(self).genes@,
            objective.ensures((bits_value(old(self).genes@) as u64,), final(self).fitness_bits),
    {
        let v = gene_value(&self.genes);
        self.fitness_bits = objective(v);
    }
}

/// A copy of a gene string.
pub fn copy_genes(genes: &Vec<bool>) -> (r: Vec<bool>)
    ensures
        r@ == genes@,
{
    let mut r: Vec<bool> = Vec::new();
    let mut i: usize = 0;
    while i < genes.len()
        invariant
            i <= genes@.len(),
            r@ == genes@.subrange(0, i as int),
        decreases genes@.len() - i,
    {
        r.push(genes[i]);
        i = i + 1;
        assert(r@ =~= genes@.subrange(0, i as int));
    }
    assert(r@ =~= genes@);
    r
}

/// The value of a bit string is below `2^len`.
pub proof fn lemma_bits_value_bound(s: Seq<bool>)
    ensures
        bits_value(s) < pow2(s.len()),
    decreases s.len(),
{
    if s.len() == 0 {
        lemma2_to64();
    } else {
        lemma_bits_value_bound(s.drop_last());
        lemma_pow2_unfold(s.len());
    }
}

/// A string of `n` zero bits encodes 0 and a string of `n` one bits encodes
/// `2^n - 1`, the two ends of the range that decoding maps onto the domain.
pub proof fn lemma_decode_endpoints(n: nat)
    ensures
        bits_value(Seq::new(n, |i: int| false)) == 0,
        bits_value(Seq::new(n, |i: int| true)) + 1 == pow2(n),
    decreases n,
{
    if n == 0 {
        lemma2_to64();
    } else {
        lemma_decode_endpoints((n - 1) as nat);
        assert(Seq::new(n, |i: int| false).drop_last() =~= Seq::new((n - 1) as nat, |i: int| false));
        assert(Seq::new(n, |i: int| true).drop_last() =~= Seq::new((n - 1) as nat, |i: int| true));
        lemma_pow2_unfold(n);
    }
}

/// Decoding follows the order of the bit strings: of two strings of one length that
/// agree before position `k`, where the first has a zero and the second a one, the
/// first encodes the smaller integer.
pub proof fn lemma_bits_value_lexicographic(a: Seq<bool>, b: Seq<bool>, k: int)
    requires
        a.len() == b.len(),
        0 <= k < a.len(),
        forall|i: int| 0 <= i < k ==> a[i] == b[i],
        !a[k],
        b[k],
    ensures
        bits_value(a) < bits_value(b),
    decreases a.len(),
{
    let n = a.len() as int;
    if k == n - 1 {
        assert(a.drop_last() =~= b.drop_last());
    } else {
        lemma_bits_value_lexicographic(a.drop_last(), b.drop_last(), k);
    }
}

/// Of gene strings of the fixed width, all zeros encode 0, all ones encode
/// [`MAX_GENE_VALUE`], and every string encodes a value in between.
pub proof fn lemma_gene_value_range(genes: Seq<bool>)
    requires
        genes.len() == BITS,
    ensures
        bits_value(Seq::new(BITS as nat, |i: int| false)) == 0,
        bits_value(Seq::new(BITS as nat, |i: int| true)) == MAX_GENE_VALUE,
        bits_value(genes) <= MAX_GENE_VALUE,
{
    lemma_decode_endpoints(BITS as nat);
    lemma_bits_value_bound(genes);
    lemma2_to64();
}

/// The unsigned integer that a gene string encodes, big-endian.
pub fn gene_value(genes: &Vec<bool>) -> (r: u64)
    requires
        genes@.len() == BITS,
    ensures
        r == bits_value(genes@),
        r <= MAX_GENE_VALUE,
{
    let mut acc: u64 = 0;
    let mut i: usize = 0;
    while i < genes.len()
        invariant
            i <= genes@.len() == BITS,
            acc == bits_value(genes@.subrange(0, i as int)),
        decreases genes@.len() - i,
    {
        proof {
            lemma_bits_value_bound(genes@.subrange(0, i as int));
            lemma_pow2_bound(i as nat);
        }
        let bit: u64 = if genes[i] { 1 } else { 0 };
        acc = acc * 2 + bit;
        proof {
            let next = genes@.subrange(0, i + 1);
            assert(next.drop_last() =~= genes@.subrange(0, i as int));
        }
        i = i + 1;
    }
    proof {
        assert(genes@.subrange(0, i as int) =~= genes@);
        lemma_bits_value_bound(genes@);
        lemma2_to64();
    }
    acc
}

proof fn lemma_pow2_bound(i: nat)
    requires
        i <= BITS,
    ensures
        pow2(i) <= pow2(BITS as nat),
        pow2(BITS as nat) == 65536,
    decreases BITS - i,
{
    lemma2_to64();
    if i < BITS {
        lemma_pow2_bound(i + 1);
        lemma_pow2_unfold(i + 1);
    }
}

/// Order key of an `f64` bit pattern, see [`fitness_rank`].
pub fn fitness_key(bits: u64) -> (r: i64)
    ensures
        r == fitness_rank(bits),
{
    if bits < 0x8000_0000_0000_0000 {
        bits as i64
    } else {
        let magnitude: u64 = bits - 0x8000_0000_0000_0000;
        -(magnitude as i64)
    }
}

} // verus!
