use vstd::prelude::*;

verus! {

/// What the frame loop needs to know of the sandbox to decide a frame.
#[derive(Clone, Copy, Debug, PartialEq, Eq, Structural)]
pub struct EditorState {
    /// Whether the track editor is active (racers idle, editing keys live).
    pub edit_mode: bool,
    /// The number of racers of the running simulation, if one was started.
    pub simulation_racers: Option<usize>,
    /// The number of spawn points placed so far.
    pub spawner_count: usize,
    /// The number of vertices of the track being edited, if there is one.
    pub track_vertices: Option<usize>,
}

/// The player's requests of one frame.
#[derive(Clone, Copy, Debug, PartialEq, Eq, Structural)]
pub struct FrameInput {
    /// Switch between editing and driving (Tab).
    pub toggle_mode: bool,
    /// Start the simulation at the spawn points (Enter).
    pub start_simulation: bool,
    /// Rerun the simulation with the next generation of genomes (R).
    pub rerun_simulation: bool,
    /// Undo the last track edit (Ctrl+Z).
    pub undo: bool,
    /// Place a track vertex at the cursor (left click).
    pub place_vertex: bool,
    /// Place a spawn point at the cursor (right click).
    pub place_spawner: bool,
}

/// One step that the frame loop carries out, in the order given.
#[derive(Clone, Copy, Debug, PartialEq, Eq, Structural)]
pub enum FrameAction {
    /// Rebuild the track's wall colliders from its current samples.
    UpdateCollider,
    /// Create the simulation, one racer per spawn point.
    InitSimulation,
    /// Restart every racer with the next generation of genomes.
    RerunSimulation,
    /// Drive every racer: by its genome's network when `autonomous`, else
    /// with no input.
    DriveRacers { autonomous: bool },
    /// Advance the physics world by one step.
    StepPhysics,
    /// Point the camera at the first racer.
    FollowFirstRacer,
    /// Let the camera be moved freely.
    FreeCamera,
    /// Remove the track's last vertex and curve.
    RemoveFromTrack,
    /// Remove the track's walls and the track itself.
    ClearTrack,
    /// Add a curve from the track's last vertex to the cursor.
    AddToTrack,
    /// Start a new track at the cursor.
    InitTrack,
    /// Add a spawn point at the cursor.
    AddSpawner,
}

/// Whether the simulation starts this frame: only when none runs, there is
/// a spawn point, and it is asked for.
pub open spec fn spec_starts_simulation(state: EditorState, input: FrameInput) -> bool {
    state.simulation_racers is None && state.spawner_count > 0 && input.start_simulation
}

/// The edit mode after this frame.
pub open spec fn spec_next_edit_mode(state: EditorState, input: FrameInput) -> bool {
    state.edit_mode != input.toggle_mode
}

/// The simulation after this frame.
pub open spec fn spec_next_simulation(state: EditorState, input: FrameInput) -> Option<usize> {
    if spec_starts_simulation(state, input) {
        Some(state.spawner_count)
    } else {
        state.simulation_racers
    }
}

/// The track's vertex count after an undo: a track with more than one
/// vertex loses its last one; a track with a single vertex is removed.
pub open spec fn spec_track_after_undo(track: Option<usize>) -> Option<usize> {
    match track {
        Some(count) => if count > 1 {
            Some((count - 1) as usize)
        } else {
            None
        },
        None => None,
    }
}

/// The track's vertex count after placing a vertex.
pub open spec fn spec_track_after_place(track: Option<usize>) -> Option<usize> {
    match track {
        Some(count) => Some((count + 1) as usize),
        None => Some(1usize),
    }
}

/// The track after this frame: edits apply only in edit mode, the undo
/// before the placement.
pub open spec fn spec_next_track(state: EditorState, input: FrameInput) -> Option<usize> {
    if spec_next_edit_mode(state, input) {
        let undone = if input.undo {
            spec_track_after_undo(state.track_vertices)
        } else {
            state.track_vertices
        };
        if input.place_vertex {
            spec_track_after_place(undone)
        } else {
            undone
        }
    } else {
        state.track_vertices
    }
}

/// The number of spawn points after this frame.
pub open spec fn spec_next_spawners(state: EditorState, input: FrameInput) -> int {
    if spec_next_edit_mode(state, input) && input.place_spawner {
        state.spawner_count + 1
    } else {
        state.spawner_count as int
    }
}

/// The state after this frame.
pub open spec fn spec_next_state(state: EditorState, input: FrameInput) -> EditorState {
    EditorState {
        edit_mode: spec_next_edit_mode(state, input),
        simulation_racers: spec_next_simulation(state, input),
        spawner_count: spec_next_spawners(state, input) as usize,
        track_vertices: spec_next_track(state, input),
    }
}

/// `action` when `condition` holds, nothing otherwise.
pub open spec fn spec_when(condition: bool, action: FrameAction) -> Seq<FrameAction> {
    if condition {
        seq![action]
    } else {
        Seq::empty()
    }
}

/// The frame's steps before the edits: walls are rebuilt when driving
/// begins on an existing track, the simulation is started or rerun, racers
/// are driven, physics steps, and the camera follows the first racer while
/// driving.
pub open spec fn spec_simulation_actions(state: EditorState, input: FrameInput) -> Seq<
    FrameAction,
> {
    let edit_mode = spec_next_edit_mode(state, input);
    let simulation = spec_next_simulation(state, input);
    spec_when(input.toggle_mode && !edit_mode && state.track_vertices is Some, FrameAction::UpdateCollider)
        + spec_when(spec_starts_simulation(state, input), FrameAction::InitSimulation)
        + spec_when(input.rerun_simulation && simulation is Some, FrameAction::RerunSimulation)
        + spec_when(simulation is Some, FrameAction::DriveRacers { autonomous: !edit_mode })
        + seq![FrameAction::StepPhysics]
        + seq![if !edit_mode && (simulation matches Some(count) && count > 0) {
            FrameAction::FollowFirstRacer
        } else {
            FrameAction::FreeCamera
        }]
}

/// The frame's edits, in edit mode only: undo, then vertex placement, then
/// spawn point placement.
pub open spec fn spec_edit_actions(state: EditorState, input: FrameInput) -> Seq<FrameAction> {
    if spec_next_edit_mode(state, input) {
        let undone = if input.undo {
            spec_track_after_undo(state.track_vertices)
        } else {
            state.track_vertices
        };
        let undo_action = if input.undo {
            match state.track_vertices {
                Some(count) => if count > 1 {
                    seq![FrameAction::RemoveFromTrack]
                } else {
                    seq![FrameAction::ClearTrack]
                },
                None => Seq::empty(),
            }
        } else {
            Seq::empty()
        };
        let place_action = if input.place_vertex {
            if undone is Some {
                seq![FrameAction::AddToTrack]
            } else {
                seq![FrameAction::InitTrack]
            }
        } else {
            Seq::empty()
        };
        undo_action + place_action + spec_when(input.place_spawner, FrameAction::AddSpawner)
    } else {
        Seq::empty()
    }
}

fn plan_simulation_actions(state: EditorState, input: FrameInput) -> (actions: Vec<FrameAction>)
    ensures
        actions@ == spec_simulation_actions(state, input),
{
    let mut actions: Vec<FrameAction> = Vec::new();
    let edit_mode = state.edit_mode != input.toggle_mode;
    if input.toggle_mode && !edit_mode && state.track_vertices.is_some() {
        actions.push(FrameAction::UpdateCollider);
    }
    let starts = state.simulation_racers.is_none() && state.spawner_count > 0
        && input.start_simulation;
    if starts {
        actions.push(FrameAction::InitSimulation);
    }
    let simulation = if starts {
        Some(state.spawner_count)
    } else {
        state.simulation_racers
    };
    if input.rerun_simulation && simulation.is_some() {
        actions.push(FrameAction::RerunSimulation);
    }
    if simulation.is_some() {
        actions.push(FrameAction::DriveRacers { autonomous: !edit_mode });
    }
    actions.push(FrameAction::StepPhysics);
    let follow = match simulation {
        Some(count) => !edit_mode && count > 0,
        None => false,
    };
    if follow {
        actions.push(FrameAction::FollowFirstRacer);
    } else {
        actions.push(FrameAction::FreeCamera);
    }
    assert(actions@ =~= spec_simulation_actions(state, input));
    actions
}

fn plan_edit_actions(state: EditorState, input: FrameInput) -> (plan: (
    Option<usize>,
    usize,
    Vec<FrameAction>,
))
    requires
        state.spawner_count < usize::MAX,
        state.track_vertices matches Some(count) ==> count < usize::MAX,
    ensures
        plan.0 == spec_next_track(state, input),
        plan.1 == spec_next_spawners(state, input),
        plan.2@ == spec_edit_actions(state, input),
{
    let mut actions: Vec<FrameAction> = Vec::new();
    let mut track = state.track_vertices;
    let mut spawner_count = state.spawner_count;
    if state.edit_mode != input.toggle_mode {
        if input.undo {
            match track {
                Some(count) => {
                    if count > 1 {
                        track = Some(count - 1);
                        actions.push(FrameAction::RemoveFromTrack);
                    } else {
                        track = None;
                        actions.push(FrameAction::ClearTrack);
                    }
                },
                None => {},
            }
        }
        if input.place_vertex {
            match track {
                Some(count) => {
                    track = Some(count + 1);
                    actions.push(FrameAction::AddToTrack);
                },
                None => {
                    track = Some(1);
                    actions.push(FrameAction::InitTrack);
                },
            }
        }
        if input.place_spawner {
            spawner_count = spawner_count + 1;
            actions.push(FrameAction::AddSpawner);
        }
        assert(actions@ =~= spec_edit_actions(state, input));
    } else {
        assert(actions@ =~= spec_edit_actions(state, input));
    }
    (track, spawner_count, actions)
}

/// Decides one frame of the sandbox: the state after it and the steps that
/// carry it out, in order.  The counts must leave room for one more.
pub fn plan_frame(state: EditorState, input: FrameInput) -> (plan: (EditorState, Vec<FrameAction>))
    requires
        state.spawner_count < usize::MAX,
        state.track_vertices matches Some(count) ==> count < usize::MAX,
    ensures
        plan.0 == spec_next_state(state, input),
        plan.1@ == spec_simulation_actions(state, input) + spec_edit_actions(state, input),
{
    let mut actions = plan_simulation_actions(state, input);
    let (track, spawner_count, mut edits) = plan_edit_actions(state, input);
    actions.append(&mut edits);
    let simulation = if state.simulation_racers.is_none() && state.spawner_count > 0
        && input.start_simulation {
        Some(state.spawner_count)
    } else {
        state.simulation_racers
    };
    let next = EditorState {
        edit_mode: state.edit_mode != input.toggle_mode,
        simulation_racers: simulation,
        spawner_count,
        track_vertices: track,
    };
    (next, actions)
}

/// The sandbox starts in edit mode with nothing placed.
pub fn initial_editor_state() -> (state: EditorState)
    ensures
        state == (EditorState {
            edit_mode: true,
            simulation_racers: None,
            spawner_count: 0,
            track_vertices: None,
        }),
{
    EditorState { edit_mode: true, simulation_racers: None, spawner_count: 0, track_vertices: None }
}

/// A frame switches the mode exactly when the toggle is requested, and a
/// simulation starts exactly when none runs, a spawn point exists and the
/// start is requested, whatever the mode: it then has one racer per spawn
/// point and the frame initialises it; otherwise the simulation stays as it
/// was and no simulation is initialised.
pub proof fn lemma_mode_and_start(state: EditorState, input: FrameInput)
    ensures
        spec_next_state(state, input).edit_mode == (if input.toggle_mode {
            !state.edit_mode
        } else {
            state.edit_mode
        }),
        (state.simulation_racers is None && state.spawner_count > 0 && input.start_simulation)
            ==> {
            &&& spec_next_state(state, input).simulation_racers == Some(state.spawner_count)
            &&& spec_simulation_actions(state, input).contains(FrameAction::InitSimulation)
        },
        !(state.simulation_racers is None && state.spawner_count > 0 && input.start_simulation)
            ==> {
            &&& spec_next_state(state, input).simulation_racers == state.simulation_racers
            &&& !spec_simulation_actions(state, input).contains(FrameAction::InitSimulation)
        },
{
    let actions = spec_simulation_actions(state, input);
    if state.simulation_racers is None && state.spawner_count > 0 && input.start_simulation {
        let before = spec_when(
            input.toggle_mode && !spec_next_edit_mode(state, input) && state.track_vertices is Some,
            FrameAction::UpdateCollider,
        );
        assert(actions[before.len() as int] == FrameAction::InitSimulation);
    } else {
        assert forall|k: int| 0 <= k < actions.len() implies actions[k]
            != FrameAction::InitSimulation by {}
    }
}

/// The frame's steps before the edits end with one physics step followed by
/// the camera step: the camera follows the first racer exactly when the
/// frame ends in driving mode with a simulation of at least one racer
/// (one that ran already, or one started this frame from at least one spawn
/// point), and is free otherwise.  Racers are driven exactly when a
/// simulation runs, by their networks exactly when driving.
pub proof fn lemma_camera_and_driving(state: EditorState, input: FrameInput)
    ensures
        ({
            let actions = spec_simulation_actions(state, input);
            let driving = if input.toggle_mode {
                state.edit_mode
            } else {
                !state.edit_mode
            };
            let starts = state.simulation_racers is None && state.spawner_count > 0
                && input.start_simulation;
            let has_racer = (state.simulation_racers matches Some(count) && count > 0) || starts;
            let runs = state.simulation_racers is Some || starts;
            &&& actions.len() >= 2
            &&& actions[actions.len() - 2] == FrameAction::StepPhysics
            &&& actions.last() == (if driving && has_racer {
                FrameAction::FollowFirstRacer
            } else {
                FrameAction::FreeCamera
            })
            &&& runs ==> actions.contains(FrameAction::DriveRacers { autonomous: driving })
            &&& !runs ==> !actions.contains(FrameAction::DriveRacers { autonomous: driving })
            &&& !actions.contains(FrameAction::DriveRacers { autonomous: !driving })
        }),
{
    let actions = spec_simulation_actions(state, input);
    let edit_mode = spec_next_edit_mode(state, input);
    let simulation = spec_next_simulation(state, input);
    let driving = if input.toggle_mode {
        state.edit_mode
    } else {
        !state.edit_mode
    };
    assert(driving == !edit_mode);
    let prefix = spec_when(
        input.toggle_mode && !edit_mode && state.track_vertices is Some,
        FrameAction::UpdateCollider,
    ) + spec_when(spec_starts_simulation(state, input), FrameAction::InitSimulation) + spec_when(
        input.rerun_simulation && simulation is Some,
        FrameAction::RerunSimulation,
    );
    let drive = spec_when(simulation is Some, FrameAction::DriveRacers { autonomous: !edit_mode });
    assert(actions == prefix + drive + seq![FrameAction::StepPhysics] + seq![actions.last()]);
    assert forall|k: int| 0 <= k < prefix.len() implies prefix[k] != FrameAction::DriveRacers {
        autonomous: true,
    } && prefix[k] != FrameAction::DriveRacers { autonomous: false } by {}
    if simulation is Some {
        assert(actions[prefix.len() as int] == FrameAction::DriveRacers { autonomous: driving });
    }
    assert forall|k: int|
        0 <= k < actions.len() && actions[k] == (FrameAction::DriveRacers {
            autonomous: !driving,
        }) implies false by {
        if k < prefix.len() {
        } else if k < prefix.len() + drive.len() {
        } else {
        }
    }
    if !(simulation is Some) {
        assert forall|k: int| 0 <= k < actions.len() implies actions[k] != (FrameAction::DriveRacers {
            autonomous: driving,
        }) by {
            if k < prefix.len() {
            } else {
            }
        }
    }
}

/// The walls are rebuilt exactly when the frame switches from editing to
/// driving while a track exists, and then first of all; the simulation is
/// rerun exactly when that is requested while a simulation runs (one that
/// ran already or one started this frame).
pub proof fn lemma_walls_and_rerun(state: EditorState, input: FrameInput)
    ensures
        ({
            let actions = spec_simulation_actions(state, input);
            let rebuild = input.toggle_mode && state.edit_mode && state.track_vertices is Some;
            let runs = state.simulation_racers is Some || (state.simulation_racers is None
                && state.spawner_count > 0 && input.start_simulation);
            &&& actions.len() == (if rebuild {
                1int
            } else {
                0int
            }) + (if state.simulation_racers is None && state.spawner_count > 0
                && input.start_simulation {
                1int
            } else {
                0int
            }) + (if input.rerun_simulation && runs {
                1int
            } else {
                0int
            }) + (if runs {
                1int
            } else {
                0int
            }) + 2
            &&& rebuild ==> actions[0] == FrameAction::UpdateCollider
            &&& !rebuild ==> !actions.contains(FrameAction::UpdateCollider)
            &&& (input.rerun_simulation && runs) ==> actions.contains(FrameAction::RerunSimulation)
            &&& !(input.rerun_simulation && runs) ==> !actions.contains(
                FrameAction::RerunSimulation,
            )
        }),
{
    let actions = spec_simulation_actions(state, input);
    let edit_mode = spec_next_edit_mode(state, input);
    let simulation = spec_next_simulation(state, input);
    let walls = spec_when(
        input.toggle_mode && !edit_mode && state.track_vertices is Some,
        FrameAction::UpdateCollider,
    );
    let start = spec_when(spec_starts_simulation(state, input), FrameAction::InitSimulation);
    let rerun = spec_when(
        input.rerun_simulation && simulation is Some,
        FrameAction::RerunSimulation,
    );
    let rest = spec_when(simulation is Some, FrameAction::DriveRacers { autonomous: !edit_mode })
        + seq![FrameAction::StepPhysics] + seq![actions.last()];
    assert(actions == walls + start + rerun + rest);
    assert(actions.last() != FrameAction::UpdateCollider);
    assert(actions.last() != FrameAction::RerunSimulation);
    if input.rerun_simulation && simulation is Some {
        assert(actions[(walls.len() + start.len()) as int] == FrameAction::RerunSimulation);
    }
    assert forall|k: int| 0 <= k < actions.len() && actions[k] == FrameAction::UpdateCollider
        implies k == 0 && input.toggle_mode && !edit_mode && state.track_vertices is Some by {
        if k < walls.len() {
        } else if k < walls.len() + start.len() {
        } else if k < walls.len() + start.len() + rerun.len() {
        } else {
        }
    }
    assert forall|k: int| 0 <= k < actions.len() && actions[k] == FrameAction::RerunSimulation
        implies input.rerun_simulation && simulation is Some by {
        if k < walls.len() {
        } else if k < walls.len() + start.len() {
        } else if k < walls.len() + start.len() + rerun.len() {
        } else {
        }
    }
}

/// The edits of a frame that ends in edit mode: an undo removes the last
/// vertex of a track with more than one vertex and removes a track with a
/// single vertex; then placing a vertex extends the track by one vertex, or
/// starts a track of one vertex where there is none; then placing a spawn
/// point adds one.  A frame that ends in driving mode edits nothing.
pub proof fn lemma_edits(state: EditorState, input: FrameInput)
    requires
        state.spawner_count < usize::MAX,
        state.track_vertices matches Some(count) ==> count < usize::MAX,
    ensures
        ({
            let editing = if input.toggle_mode {
                !state.edit_mode
            } else {
                state.edit_mode
            };
            let next = spec_next_state(state, input);
            let edits = spec_edit_actions(state, input);
            &&& !editing ==> next.track_vertices == state.track_vertices && next.spawner_count
                == state.spawner_count && edits.len() == 0
            &&& editing && !input.undo && input.place_vertex ==> match state.track_vertices {
                Some(count) => next.track_vertices == Some((count + 1) as usize) && edits[0]
                    == FrameAction::AddToTrack,
                None => next.track_vertices == Some(1usize) && edits[0] == FrameAction::InitTrack,
            }
            &&& editing && !input.undo && !input.place_vertex ==> next.track_vertices
                == state.track_vertices
            &&& editing && input.undo ==> match state.track_vertices {
                Some(count) => if count > 1 {
                    edits[0] == FrameAction::RemoveFromTrack && (!input.place_vertex
                        ==> next.track_vertices == Some((count - 1) as usize)) && (
                    input.place_vertex ==> next.track_vertices == Some(count))
                } else {
                    edits[0] == FrameAction::ClearTrack && (!input.place_vertex
                        ==> next.track_vertices == None::<usize>) && (input.place_vertex
                        ==> next.track_vertices == Some(1usize))
                },
                None => next.track_vertices == (if input.place_vertex {
                    Some(1usize)
                } else {
                    None
                }),
            }
            &&& editing && input.place_spawner ==> next.spawner_count == state.spawner_count + 1
                && edits.last() == FrameAction::AddSpawner
            &&& !(editing && input.place_spawner) ==> next.spawner_count == state.spawner_count
            &&& editing ==> edits.len() == (if input.undo && state.track_vertices is Some {
                1int
            } else {
                0int
            }) + (if input.place_vertex {
                1int
            } else {
                0int
            }) + (if input.place_spawner {
                1int
            } else {
                0int
            })
        }),
{
}

/// What every frame keeps: a started simulation keeps running with the same
/// racers; spawn points are never removed; a track never has zero vertices;
/// and while driving the track and spawn points stay as they are.
pub proof fn lemma_frame_invariants(state: EditorState, input: FrameInput)
    requires
        state.spawner_count < usize::MAX,
        state.track_vertices matches Some(count) ==> 0 < count < usize::MAX,
        state.simulation_racers matches Some(count) ==> count > 0,
    ensures
        state.simulation_racers is Some ==> spec_next_state(state, input).simulation_racers
            == state.simulation_racers,
        spec_next_state(state, input).simulation_racers matches Some(count) ==> count > 0,
        spec_next_state(state, input).spawner_count >= state.spawner_count,
        spec_next_state(state, input).track_vertices != Some(0usize),
        !spec_next_state(state, input).edit_mode ==> {
            &&& spec_next_state(state, input).track_vertices == state.track_vertices
            &&& spec_next_state(state, input).spawner_count == state.spawner_count
        },
        !spec_next_state(state, input).edit_mode ==> spec_edit_actions(state, input) =~= Seq::<
            FrameAction,
        >::empty(),
{
}

/// Two frames that both toggle the mode, with no other request, return the
/// sandbox to the mode it was in; a single toggle always changes it.
pub proof fn lemma_toggle_twice(state: EditorState, first: FrameInput, second: FrameInput)
    requires
        first.toggle_mode,
        second.toggle_mode,
    ensures
        spec_next_state(state, first).edit_mode != state.edit_mode,
        spec_next_state(spec_next_state(state, first), second).edit_mode == state.edit_mode,
{
}

} // verus!
