# neurocar

A sandbox in which racers driven by small neural networks learn to follow a
track that the player draws.  The player places track vertices and spawn
points in an editor, starts a simulation, and reruns it with the next
generation of genomes.

`src/` is the verified library: the parts of the sandbox that decide and
keep books, each with a Verus contract.

- `collider`: the kind tag stored in a collider's user data.
- `controls`: digital input axes, keyboard zoom steps and driver controls.
- `generation`: which ranked genomes survive, are crossed, or are replaced.
- `ring`: index arithmetic on closed loops of points.
- `track`: the editable chain of curves and the order in which it is sampled.
- `world`: racers registered in a world and found by id.
- `editor`: the per-frame decisions of the sandbox as a state machine.

`app/` is the program around it: rendering and input (macroquad), rigid-body
physics (rapier2d), the neural network and all floating-point geometry.  It
carries out the steps that `editor::plan_frame` decides.
