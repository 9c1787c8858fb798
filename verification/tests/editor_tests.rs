use neurocar::editor::{initial_editor_state, plan_frame, EditorState, FrameAction, FrameInput};

fn idle() -> FrameInput {
    FrameInput {
        toggle_mode: false,
        start_simulation: false,
        rerun_simulation: false,
        undo: false,
        place_vertex: false,
        place_spawner: false,
    }
}

#[test]
fn idle_frame_in_edit_mode() {
    let (next, actions) = plan_frame(initial_editor_state(), idle());
    assert_eq!(next, initial_editor_state());
    assert_eq!(actions, vec![FrameAction::StepPhysics, FrameAction::FreeCamera]);
}

#[test]
fn placing_vertices_starts_then_extends_track() {
    let input = FrameInput { place_vertex: true, ..idle() };
    let (state, actions) = plan_frame(initial_editor_state(), input);
    assert_eq!(state.track_vertices, Some(1));
    assert_eq!(actions.last(), Some(&FrameAction::InitTrack));
    let (state, actions) = plan_frame(state, input);
    assert_eq!(state.track_vertices, Some(2));
    assert_eq!(actions.last(), Some(&FrameAction::AddToTrack));
}

#[test]
fn undo_removes_vertex_then_track() {
    let state = EditorState { track_vertices: Some(2), ..initial_editor_state() };
    let undo = FrameInput { undo: true, ..idle() };
    let (state, actions) = plan_frame(state, undo);
    assert_eq!(state.track_vertices, Some(1));
    assert_eq!(actions.last(), Some(&FrameAction::RemoveFromTrack));
    let (state, actions) = plan_frame(state, undo);
    assert_eq!(state.track_vertices, None);
    assert_eq!(actions.last(), Some(&FrameAction::ClearTrack));
    let (state, actions) = plan_frame(state, undo);
    assert_eq!(state.track_vertices, None);
    assert_eq!(actions, vec![FrameAction::StepPhysics, FrameAction::FreeCamera]);
}

#[test]
fn simulation_needs_a_spawner() {
    let start = FrameInput { start_simulation: true, ..idle() };
    let (state, _) = plan_frame(initial_editor_state(), start);
    assert_eq!(state.simulation_racers, None);
    let spawn = FrameInput { place_spawner: true, ..idle() };
    let (state, actions) = plan_frame(state, spawn);
    assert_eq!(state.spawner_count, 1);
    assert_eq!(actions.last(), Some(&FrameAction::AddSpawner));
    let (state, actions) = plan_frame(state, start);
    assert_eq!(state.simulation_racers, Some(1));
    assert_eq!(
        actions,
        vec![
            FrameAction::InitSimulation,
            FrameAction::DriveRacers { autonomous: false },
            FrameAction::StepPhysics,
            FrameAction::FreeCamera,
        ]
    );
    let (again, _) = plan_frame(state, start);
    assert_eq!(again.simulation_racers, Some(1));
}

#[test]
fn driving_follows_first_racer_and_locks_editing() {
    let state = EditorState {
        edit_mode: true,
        simulation_racers: Some(3),
        spawner_count: 3,
        track_vertices: Some(4),
    };
    let input = FrameInput {
        toggle_mode: true,
        rerun_simulation: true,
        undo: true,
        place_vertex: true,
        place_spawner: true,
        ..idle()
    };
    let (next, actions) = plan_frame(state, input);
    assert!(!next.edit_mode);
    assert_eq!(next.track_vertices, Some(4));
    assert_eq!(next.spawner_count, 3);
    assert_eq!(
        actions,
        vec![
            FrameAction::UpdateCollider,
            FrameAction::RerunSimulation,
            FrameAction::DriveRacers { autonomous: true },
            FrameAction::StepPhysics,
            FrameAction::FollowFirstRacer,
        ]
    );
    let toggle = FrameInput { toggle_mode: true, ..idle() };
    let (back, actions) = plan_frame(next, toggle);
    assert!(back.edit_mode);
    assert_eq!(actions[0], FrameAction::DriveRacers { autonomous: false });
}

#[test]
fn undo_and_place_in_one_frame() {
    let state = EditorState { track_vertices: Some(1), ..initial_editor_state() };
    let input = FrameInput { undo: true, place_vertex: true, ..idle() };
    let (next, actions) = plan_frame(state, input);
    assert_eq!(next.track_vertices, Some(1));
    assert_eq!(
        actions,
        vec![
            FrameAction::StepPhysics,
            FrameAction::FreeCamera,
            FrameAction::ClearTrack,
            FrameAction::InitTrack,
        ]
    );
}

#[test]
fn toggling_twice_restores_mode() {
    let toggle = FrameInput { toggle_mode: true, ..idle() };
    let start = initial_editor_state();
    let (once, _) = plan_frame(start, toggle);
    assert!(!once.edit_mode);
    let (twice, _) = plan_frame(once, toggle);
    assert_eq!(twice, start);
}

#[test]
fn track_with_one_vertex_is_never_empty_after_frame() {
    let state = EditorState { track_vertices: Some(1), spawner_count: 2, ..initial_editor_state() };
    for undo in [false, true] {
        for place_vertex in [false, true] {
            let input = FrameInput { undo, place_vertex, ..idle() };
            let (next, _) = plan_frame(state, input);
            assert_ne!(next.track_vertices, Some(0));
            assert!(next.spawner_count >= state.spawner_count);
        }
    }
}
