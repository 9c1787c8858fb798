use vstd::prelude::*;

verus! {

/// A racing world: a physics engine of type `P` and the racers in it, each
/// known by the id it was given when it was spawned.
pub struct World<P, R> {
    physics: P,
    racers: Vec<R>,
}

impl<P, R> World<P, R> {
    /// The physics engine of the world.
    pub closed spec fn spec_physics(&self) -> P {
        self.physics
    }

    /// The racers of the world; a racer's id is its index here.
    pub closed spec fn spec_racers(&self) -> Seq<R> {
        self.racers@
    }

    /// A world with no racers, around the given physics engine.
    pub fn new(physics: P) -> (world: Self)
        ensures
            world.spec_physics() == physics,
            world.spec_racers() == Seq::<R>::empty(),
    {
        World { physics, racers: Vec::new() }
    }

    /// Adds a racer whose body the physics engine has just spawned, and
    /// returns its id: the number of racers spawned before it.
    pub fn spawn_racer(&mut self, racer: R) -> (racer_id: usize)
        ensures
            racer_id == old(self).spec_racers().len(),
            final(self).spec_racers() == old(self).spec_racers().push(racer),
            final(self).spec_physics() == old(self).spec_physics(),
    {
        self.racers.push(racer);
        self.racers.len() - 1
    }

    /// The racer with the given id, if there is one.
    pub fn racer(&self, racer_id: usize) -> (racer: Option<&R>)
        ensures
            racer == (if racer_id < self.spec_racers().len() {
                Some(&self.spec_racers()[racer_id as int])
            } else {
                None
            }),
    {
        if racer_id < self.racers.len() {
            Some(&self.racers[racer_id])
        } else {
            None
        }
    }

    /// All racers, in id order.
    pub fn racers(&self) -> (racers: &[R])
        ensures
            racers@ == self.spec_racers(),
    {
        self.racers.as_slice()
    }

    /// The physics engine of the world.
    pub fn physics(&self) -> (physics: &P)
        ensures
            *physics == self.spec_physics(),
    {
        &self.physics
    }

    /// The physics engine of the world, to step it or act on racer bodies;
    /// the racers are left as they are.
    pub fn physics_mut(&mut self) -> (physics: &mut P)
        ensures
            *physics == old(self).spec_physics(),
            final(self).spec_physics() == *final(physics),
            final(self).spec_racers() == old(self).spec_racers(),
    {
        &mut self.physics
    }
}

/// Spawning a racer gives it the next free id, under which it is then
/// found, and every racer spawned before keeps its id.
pub proof fn lemma_spawn_then_lookup<P, R>(before: World<P, R>, after: World<P, R>, racer: R)
    requires
        after.spec_racers() == before.spec_racers().push(racer),
    ensures
        after.spec_racers().len() == before.spec_racers().len() + 1,
        after.spec_racers()[before.spec_racers().len() as int] == racer,
        forall|racer_id: int|
            0 <= racer_id < before.spec_racers().len() ==> #[trigger] after.spec_racers()[racer_id]
                == before.spec_racers()[racer_id],
{
}

} // verus!
