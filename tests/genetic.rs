use genetic_tool::advance::{advance_seed, advance_with_rng, next_generation, GaParams, ParamError, SEED_OFFSET};
use genetic_tool::chromosome::{fitness_key, gene_value, Chromosome, BITS, MAX_GENE_VALUE};
use genetic_tool::operators::{apply_flips, crossover, crossover_at, mutate, tournament, tournament_winner, PROB_SCALE};
use genetic_tool::population::{insert_sorted, Population, INITIAL_SEED};
use rand::rngs::StdRng;
use rand::SeedableRng;

fn decode(genes: &Vec<bool>, x_min: f64, x_max: f64) -> f64 {
    let v = gene_value(genes) as f64;
    x_min + (v / MAX_GENE_VALUE as f64) * (x_max - x_min)
}

fn objective(v: u64) -> u64 {
    let x = -10.0 + (v as f64 / MAX_GENE_VALUE as f64) * 20.0;
    ((x + 5.0) * (2.0 * x - 5.0).cos() - 5.0).to_bits()
}

fn fitness(c: &Chromosome) -> f64 {
    f64::from_bits(c.fitness_bits)
}

fn with_fitness(genes: Vec<bool>, f: f64) -> Chromosome {
    Chromosome { genes, fitness_bits: f.to_bits() }
}

fn bits_of(v: u64) -> Vec<bool> {
    (0..BITS).map(|i| (v >> (BITS - 1 - i)) & 1 == 1).collect()
}

fn is_sorted(p: &Population) -> bool {
    p.chromosomes.windows(2).all(|w| fitness(&w[0]) >= fitness(&w[1]))
}

#[test]
fn decode_endpoints_of_domain() {
    let zeros = vec![false; BITS];
    let ones = vec![true; BITS];
    assert_eq!(gene_value(&zeros), 0);
    assert_eq!(gene_value(&ones), 65535);
    assert_eq!(decode(&zeros, -10.0, 10.0), -10.0);
    assert_eq!(decode(&ones, -10.0, 10.0), 10.0);
}

#[test]
fn gene_value_is_big_endian() {
    let mut genes = vec![false; BITS];
    genes[0] = true;
    assert_eq!(gene_value(&genes), 32768);
    let mut low = vec![false; BITS];
    low[BITS - 1] = true;
    low[BITS - 3] = true;
    assert_eq!(gene_value(&low), 5);
    assert_eq!(gene_value(&bits_of(12345)), 12345);
}

#[test]
fn decode_is_monotone_in_value() {
    let mut last = f64::NEG_INFINITY;
    for v in (0..=MAX_GENE_VALUE).step_by(97) {
        let x = decode(&bits_of(v), -10.0, 10.0);
        assert!(x >= last);
        last = x;
    }
}

#[test]
fn fitness_key_orders_like_float_comparison() {
    let values = [f64::NEG_INFINITY, -3.5, -1.0, -f64::MIN_POSITIVE, 0.0, 0.25, 7.0, f64::INFINITY];
    for w in values.windows(2) {
        assert!(fitness_key(w[0].to_bits()) < fitness_key(w[1].to_bits()));
    }
    assert_eq!(fitness_key(0.0f64.to_bits()), 0);
    assert_eq!(fitness_key((-0.0f64).to_bits()), 0);
    assert_eq!(fitness_key((-1.0f64).to_bits()), -(1.0f64.to_bits() as i64));
}

#[test]
fn tournament_treats_both_zeros_as_equal() {
    let parents = vec![with_fitness(bits_of(1), -0.0), with_fitness(bits_of(2), 0.0)];
    assert_eq!(tournament_winner(&parents, &vec![0, 1]), 0);
    assert_eq!(tournament_winner(&parents, &vec![1, 0]), 1);
}

#[test]
fn chromosome_evaluate_sets_fitness() {
    let mut c = Chromosome::from_genes(bits_of(40000));
    assert_eq!(c.fitness_bits, 0);
    c.evaluate(&objective);
    assert_eq!(c.fitness_bits, objective(40000));
    assert_eq!(c.value(), 40000);
    let d = c.duplicate();
    assert_eq!(d.genes, c.genes);
    assert_eq!(d.fitness_bits, c.fitness_bits);
}

#[test]
fn random_chromosome_has_fixed_width() {
    let mut rng = StdRng::seed_from_u64(7);
    let c = Chromosome::random(&mut rng);
    assert_eq!(c.genes.len(), BITS);
    assert_eq!(c.fitness_bits, 0);
}

#[test]
fn tournament_keeps_first_maximum() {
    let parents = vec![
        with_fitness(bits_of(1), 1.0),
        with_fitness(bits_of(2), 5.0),
        with_fitness(bits_of(3), 5.0),
        with_fitness(bits_of(4), -2.0),
    ];
    assert_eq!(tournament_winner(&parents, &vec![3, 2, 1, 0]), 2);
    assert_eq!(tournament_winner(&parents, &vec![1, 2]), 1);
    assert_eq!(tournament_winner(&parents, &vec![3]), 3);
    assert_eq!(tournament_winner(&parents, &vec![0, 3, 0]), 0);
}

#[test]
fn tournament_draws_valid_index() {
    let parents = vec![with_fitness(bits_of(1), 1.0), with_fitness(bits_of(2), 3.0)];
    let mut rng = StdRng::seed_from_u64(3);
    for _ in 0..50 {
        assert!(tournament(&parents, 3, &mut rng) < 2);
    }
    // With many draws the fitter parent wins almost surely.
    assert_eq!(tournament(&parents, 200, &mut rng), 1);
}

#[test]
fn crossover_at_splices_parents() {
    let a = vec![true; BITS];
    let b = vec![false; BITS];
    let child = crossover_at(&a, &b, 4);
    assert_eq!(gene_value(&child), 0b1111_0000_0000_0000);
    assert_eq!(crossover_at(&a, &b, BITS), a);
    assert_eq!(crossover_at(&a, &b, 0), b);
}

#[test]
fn crossover_with_zero_probability_copies_parent_a() {
    let a = bits_of(0xA5A5);
    let b = bits_of(0x5A5A);
    let mut rng = StdRng::seed_from_u64(11);
    for _ in 0..100 {
        assert_eq!(crossover(&a, &b, 0, &mut rng), a);
    }
}

#[test]
fn crossover_with_certain_probability_cuts_inside() {
    let a = vec![true; BITS];
    let b = vec![false; BITS];
    let mut rng = StdRng::seed_from_u64(5);
    let mut cuts = std::collections::BTreeSet::new();
    for _ in 0..100 {
        let child = crossover(&a, &b, PROB_SCALE, &mut rng);
        let cut = child.iter().take_while(|&&g| g).count();
        assert!(cut >= 1 && cut < BITS);
        assert!(child[cut..].iter().all(|&g| !g));
        cuts.insert(cut);
    }
    assert!(cuts.len() > 1);
}

#[test]
fn mutation_with_zero_probability_changes_nothing() {
    let original = bits_of(0x1234);
    let mut rng = StdRng::seed_from_u64(13);
    for _ in 0..100 {
        let mut genes = original.clone();
        mutate(&mut genes, 0, &mut rng);
        assert_eq!(genes, original);
    }
}

#[test]
fn mutation_with_certain_probability_flips_every_bit() {
    let mut genes = bits_of(0x1234);
    let mut rng = StdRng::seed_from_u64(17);
    mutate(&mut genes, PROB_SCALE, &mut rng);
    assert_eq!(gene_value(&genes), 0xFFFF ^ 0x1234);
}

#[test]
fn apply_flips_is_exclusive_or() {
    let mut genes = bits_of(0b1100);
    apply_flips(&mut genes, &bits_of(0b1010));
    assert_eq!(gene_value(&genes), 0b0110);
}

#[test]
fn insert_sorted_places_after_equals() {
    let mut v = vec![with_fitness(bits_of(1), 3.0), with_fitness(bits_of(2), 1.0)];
    assert_eq!(insert_sorted(&mut v, with_fitness(bits_of(3), 2.0)), 1);
    assert_eq!(insert_sorted(&mut v, with_fitness(bits_of(4), 3.0)), 1);
    assert_eq!(insert_sorted(&mut v, with_fitness(bits_of(5), -1.0)), 4);
    assert_eq!(insert_sorted(&mut v, with_fitness(bits_of(6), 9.0)), 0);
    let values: Vec<u64> = v.iter().map(|c| gene_value(&c.genes)).collect();
    assert_eq!(values, vec![6, 1, 4, 3, 2, 5]);
}

#[test]
fn random_population_is_sorted_at_generation_zero() {
    let p = Population::random(20, INITIAL_SEED, &objective);
    assert_eq!(p.len(), 20);
    assert_eq!(p.generation, 0);
    assert!(is_sorted(&p));
    for c in &p.chromosomes {
        assert_eq!(c.fitness_bits, objective(gene_value(&c.genes)));
    }
    let q = Population::random(20, INITIAL_SEED, &objective);
    assert_eq!(p.chromosomes.iter().map(|c| c.genes.clone()).collect::<Vec<_>>(),
        q.chromosomes.iter().map(|c| c.genes.clone()).collect::<Vec<_>>());
}

#[test]
fn best_of_empty_population_is_none() {
    let p = Population::random(0, INITIAL_SEED, &objective);
    assert!(p.best().is_none());
    let q = Population::random(3, INITIAL_SEED, &objective);
    assert_eq!(q.best().unwrap().fitness_bits, q.chromosomes[0].fitness_bits);
}

#[test]
fn advance_of_four_keeps_size_and_best() {
    let p = Population::random(4, INITIAL_SEED, &objective);
    let params = GaParams::new(50_000, 800_000, 3, 4).unwrap();
    let next = next_generation(&p, &params, Some(123_456), &objective);
    assert_eq!(next.len(), 4);
    assert_eq!(next.generation, 1);
    assert!(fitness(&next.chromosomes[0]) >= fitness(&p.chromosomes[0]));
    assert!(is_sorted(&next));
    assert!(next.chromosomes.iter().any(|c| c.genes == p.chromosomes[0].genes));
}

#[test]
fn repeated_advances_never_lose_the_best() {
    let mut p = Population::random(20, INITIAL_SEED, &objective);
    let params = GaParams::standard();
    for g in 1..=30u64 {
        let best = fitness(&p.chromosomes[0]);
        p = next_generation(&p, &params, None, &objective);
        assert_eq!(p.generation, g);
        assert_eq!(p.len(), 20);
        assert!(is_sorted(&p));
        assert!(fitness(&p.chromosomes[0]) >= best);
    }
}

#[test]
fn advance_grows_to_requested_size() {
    let p = Population::random(3, INITIAL_SEED, &objective);
    let params = GaParams::new(0, 0, 2, 9).unwrap();
    let mut rng = StdRng::seed_from_u64(99);
    let next = advance_with_rng(&p, &params, &mut rng, &objective);
    assert_eq!(next.len(), 9);
    // Without crossover or mutation every chromosome copies one of the parents.
    for c in &next.chromosomes {
        assert!(p.chromosomes.iter().any(|q| q.genes == c.genes));
        assert_eq!(c.fitness_bits, objective(gene_value(&c.genes)));
    }
}

#[test]
fn params_are_checked_in_order() {
    assert_eq!(GaParams::new(PROB_SCALE + 1, 0, 3, 20), Err(ParamError::MutationProbability));
    assert_eq!(GaParams::new(0, PROB_SCALE + 1, 0, 0), Err(ParamError::CrossoverProbability));
    assert_eq!(GaParams::new(0, 0, 0, 20), Err(ParamError::TournamentSize));
    assert_eq!(GaParams::new(0, 0, 1, 1), Err(ParamError::PopulationSize));
    let ok = GaParams::new(PROB_SCALE, 0, 1, 2).unwrap();
    assert_eq!(ok.pop_size, 2);
    assert_eq!(ok.mutation_ppm, PROB_SCALE);
    let s = GaParams::standard();
    assert_eq!((s.mutation_ppm, s.crossover_ppm, s.tournament_k, s.pop_size), (50_000, 800_000, 3, 20));
}

#[test]
fn advance_seed_mixes_clock_and_generation() {
    assert_eq!(advance_seed(Some(1000), 1), 2000 + SEED_OFFSET);
    assert_eq!(advance_seed(None, 5), 30 + 0xdeadbeef);
    assert_eq!(advance_seed(Some(7), u64::MAX), 0xdeadbeef);
    assert_eq!(advance_seed(None, u64::MAX - 1), 2 + 0xdeadbeef);
}

#[test]
fn advance_without_mutation_makes_plain_crossovers() {
    let p = Population::random(5, INITIAL_SEED, &objective);
    let params = GaParams::new(0, PROB_SCALE, 2, 12).unwrap();
    let mut rng = StdRng::seed_from_u64(21);
    let next = advance_with_rng(&p, &params, &mut rng, &objective);
    assert_eq!(next.len(), 12);
    for c in &next.chromosomes {
        let crossed = p.chromosomes.iter().any(|a| {
            p.chromosomes.iter().any(|b| {
                (1..=BITS).any(|k| c.genes[..k] == a.genes[..k] && c.genes[k..] == b.genes[k..])
            })
        });
        assert!(crossed);
    }
}
