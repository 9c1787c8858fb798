use neurocar::world::World;

#[test]
fn spawning_gives_sequential_ids() {
    let mut world: World<u8, &str> = World::new(7);
    assert!(world.racers().is_empty());
    assert_eq!(world.spawn_racer("first"), 0);
    assert_eq!(world.spawn_racer("second"), 1);
    assert_eq!(world.racer(0), Some(&"first"));
    assert_eq!(world.racer(1), Some(&"second"));
    assert_eq!(world.racer(2), None);
    assert_eq!(world.racers(), &["first", "second"]);
    assert_eq!(*world.physics(), 7);
}

#[test]
fn physics_can_be_changed_in_place() {
    let mut world: World<u32, u32> = World::new(1);
    world.spawn_racer(10);
    *world.physics_mut() += 5;
    assert_eq!(*world.physics(), 6);
    assert_eq!(world.racers(), &[10]);
}
