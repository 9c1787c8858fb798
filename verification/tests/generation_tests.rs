use neurocar::generation::{
    sample_next_generation, Offspring, CROSSOVER_PARENT_COUNT, ELITE_COUNT, GENERATION_SIZE,
    RANDOM_COUNT,
};

#[test]
fn next_generation_layout() {
    let ranked: Vec<u32> = (0..10).collect();
    let next = sample_next_generation(&ranked);
    assert_eq!(
        next,
        vec![
            Offspring::Survivor(0),
            Offspring::Survivor(1),
            Offspring::Child(2, 3),
            Offspring::Child(3, 2),
            Offspring::Child(4, 5),
            Offspring::Child(5, 4),
            Offspring::Random,
            Offspring::Random,
            Offspring::Random,
            Offspring::Random,
        ]
    );
}

#[test]
fn next_generation_uses_references() {
    let names = ["a", "b", "c", "d", "e", "f", "g", "h", "i", "j"];
    let ranked: Vec<&&str> = names.iter().collect();
    let next = sample_next_generation(&ranked);
    assert_eq!(next.len(), GENERATION_SIZE);
    assert_eq!(next[1], Offspring::Survivor(&"b"));
    assert_eq!(next[4], Offspring::Child(&"e", &"f"));
}

#[test]
fn generation_counts_add_up() {
    assert_eq!(ELITE_COUNT + CROSSOVER_PARENT_COUNT + RANDOM_COUNT, GENERATION_SIZE);
    let ranked = [7u8; 10];
    let next = sample_next_generation(&ranked);
    let randoms = next.iter().filter(|o| **o == Offspring::Random).count();
    assert_eq!(randoms, RANDOM_COUNT);
}
