use vstd::prelude::*;

verus! {

/// How many genomes make up one generation.
pub const GENERATION_SIZE: usize = 10;

/// How many of the best genomes survive unchanged into the next generation.
pub const ELITE_COUNT: usize = 2;

/// How many genomes, ranked right after the survivors, are paired as parents.
pub const CROSSOVER_PARENT_COUNT: usize = 4;

/// How many genomes of the next generation are drawn at random.
pub const RANDOM_COUNT: usize = 4;

/// Where one genome of the next generation comes from.
#[derive(Debug, PartialEq, Eq)]
pub enum Offspring<G> {
    /// The genome survives unchanged.
    Survivor(G),
    /// A child crossed from the first parent with the second.
    Child(G, G),
    /// A freshly drawn random genome.
    Random,
}

/// The rank, among the ranked genomes, of the parent paired with rank `rank`:
/// ranks two and three form a pair, then four and five.
pub open spec fn spec_partner(rank: int) -> int {
    if (rank - ELITE_COUNT) % 2 == 0 {
        rank + 1
    } else {
        rank - 1
    }
}

/// Slot `slot` of the next generation, built from genomes ranked best to
/// worst: the best `ELITE_COUNT` survive in order, each following pair of
/// parents yields two children (one with each parent first), and the
/// remaining slots are random.
pub open spec fn spec_offspring<G>(ranked: Seq<G>, slot: int) -> Offspring<G> {
    if slot < ELITE_COUNT {
        Offspring::Survivor(ranked[slot])
    } else if slot < ELITE_COUNT + CROSSOVER_PARENT_COUNT {
        Offspring::Child(ranked[slot], ranked[spec_partner(slot)])
    } else {
        Offspring::Random
    }
}

/// Builds a ten-genome generation from genomes ranked best to worst.
///
/// The best two survive unchanged, the next four are paired to produce four
/// children, and the remaining four genomes are generated randomly.
pub fn sample_next_generation<G: Copy>(ranked_genomes: &[G]) -> (next: Vec<Offspring<G>>)
    requires
        ranked_genomes@.len() == GENERATION_SIZE,
    ensures
        next@.len() == GENERATION_SIZE,
        forall|slot: int|
            0 <= slot < GENERATION_SIZE ==> #[trigger] next@[slot] == spec_offspring(
                ranked_genomes@,
                slot,
            ),
{
    let mut next: Vec<Offspring<G>> = Vec::new();
    let mut i: usize = 0;
    while i < ELITE_COUNT
        invariant
            ranked_genomes@.len() == GENERATION_SIZE,
            i <= ELITE_COUNT,
            next@.len() == i,
            forall|slot: int|
                0 <= slot < next@.len() ==> #[trigger] next@[slot] == spec_offspring(
                    ranked_genomes@,
                    slot,
                ),
        decreases ELITE_COUNT - i,
    {
        next.push(Offspring::Survivor(ranked_genomes[i]));
        i = i + 1;
    }
    let crossover_end: usize = ELITE_COUNT + CROSSOVER_PARENT_COUNT;
    while i < crossover_end
        invariant
            ranked_genomes@.len() == GENERATION_SIZE,
            crossover_end == ELITE_COUNT + CROSSOVER_PARENT_COUNT,
            ELITE_COUNT <= i <= crossover_end,
            (i - ELITE_COUNT) % 2 == 0,
            next@.len() == i,
            forall|slot: int|
                0 <= slot < next@.len() ==> #[trigger] next@[slot] == spec_offspring(
                    ranked_genomes@,
                    slot,
                ),
        decreases crossover_end - i,
    {
        let first = ranked_genomes[i];
        let second = ranked_genomes[i + 1];
        next.push(Offspring::Child(first, second));
        next.push(Offspring::Child(second, first));
        i = i + 2;
    }
    while i < GENERATION_SIZE
        invariant
            ranked_genomes@.len() == GENERATION_SIZE,
            crossover_end <= i <= GENERATION_SIZE,
            crossover_end == ELITE_COUNT + CROSSOVER_PARENT_COUNT,
            next@.len() == i,
            forall|slot: int|
                0 <= slot < next@.len() ==> #[trigger] next@[slot] == spec_offspring(
                    ranked_genomes@,
                    slot,
                ),
        decreases GENERATION_SIZE - i,
    {
        next.push(Offspring::Random);
        i = i + 1;
    }
    next
}

/// The slots of a generation from ten genomes ranked best to worst: the
/// first and second survive in slots 0 and 1; the third and fourth are
/// crossed both ways in slots 2 and 3, the fifth and sixth in slots 4 and 5;
/// slots 6 to 9 are random.
pub proof fn lemma_generation_slots<G>(ranked: Seq<G>)
    ensures
        GENERATION_SIZE == 10,
        spec_offspring(ranked, 0) == Offspring::Survivor(ranked[0]),
        spec_offspring(ranked, 1) == Offspring::Survivor(ranked[1]),
        spec_offspring(ranked, 2) == Offspring::Child(ranked[2], ranked[3]),
        spec_offspring(ranked, 3) == Offspring::Child(ranked[3], ranked[2]),
        spec_offspring(ranked, 4) == Offspring::Child(ranked[4], ranked[5]),
        spec_offspring(ranked, 5) == Offspring::Child(ranked[5], ranked[4]),
        forall|slot: int| 6 <= slot < 10 ==> #[trigger] spec_offspring(ranked, slot) == Offspring::<G>::Random,
{
}

/// The shape of a generation: pairing is symmetric, every crossover parent
/// is the first parent of exactly one child and the second parent of the
/// other, and no genome ranked below the crossover parents is used.
pub proof fn lemma_generation_shape<G>(ranked: Seq<G>)
    ensures
        ELITE_COUNT + CROSSOVER_PARENT_COUNT + RANDOM_COUNT == GENERATION_SIZE,
        forall|rank: int|
            ELITE_COUNT <= rank < ELITE_COUNT + CROSSOVER_PARENT_COUNT ==> {
                let partner = #[trigger] spec_partner(rank);
                &&& ELITE_COUNT <= partner < ELITE_COUNT + CROSSOVER_PARENT_COUNT
                &&& partner != rank
                &&& spec_partner(partner) == rank
                &&& spec_offspring(ranked, rank) == Offspring::Child(ranked[rank], ranked[partner])
                &&& spec_offspring(ranked, partner) == Offspring::Child(ranked[partner], ranked[rank])
            },
        forall|slot: int|
            ELITE_COUNT + CROSSOVER_PARENT_COUNT <= slot < GENERATION_SIZE ==> spec_offspring(
                ranked,
                slot,
            ) == Offspring::<G>::Random,
{
}

} // verus!
