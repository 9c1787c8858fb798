use neurocar::track::{add_to_track, init_track, remove_from_track, sample_plan};

#[test]
fn new_track_has_only_its_start() {
    let track = init_track((0, 0));
    assert_eq!(track.vertices(), &[(0, 0)]);
    assert!(track.controls().is_empty());
    assert_eq!(track.curve_count(), 0);
    assert_eq!(track.last_vertex(), Some((0, 0)));
    assert_eq!(track.last_control(), None);
}

#[test]
fn adding_appends_curve() {
    let mut track = init_track((0, 0));
    add_to_track(&mut track, (5, 0), (10, 0));
    add_to_track(&mut track, (15, 0), (20, 5));
    assert_eq!(track.vertices(), &[(0, 0), (10, 0), (20, 5)]);
    assert_eq!(track.controls(), &[(5, 0), (15, 0)]);
    assert_eq!(track.curve_count(), 2);
    assert_eq!(track.curve(1), ((10, 0), (15, 0), (20, 5)));
    assert_eq!(track.last_vertex(), Some((20, 5)));
    assert_eq!(track.last_control(), Some((15, 0)));
}

#[test]
fn remove_undoes_add() {
    let mut track = init_track(1);
    add_to_track(&mut track, 2, 3);
    let vertices = track.vertices().to_vec();
    let controls = track.controls().to_vec();
    add_to_track(&mut track, 4, 5);
    remove_from_track(&mut track);
    assert_eq!(track.vertices(), vertices.as_slice());
    assert_eq!(track.controls(), controls.as_slice());
}

#[test]
fn removing_the_start_empties_the_track() {
    let mut track = init_track(1);
    remove_from_track(&mut track);
    assert!(track.vertices().is_empty());
    assert_eq!(track.last_vertex(), None);
    remove_from_track(&mut track);
    assert!(track.vertices().is_empty());
    assert!(track.controls().is_empty());
}

#[test]
fn sample_plan_shares_curve_ends() {
    assert_eq!(
        sample_plan(2, 3),
        vec![(0, 0), (0, 1), (0, 2), (0, 3), (1, 1), (1, 2), (1, 3)]
    );
    assert!(sample_plan(0, 40).is_empty());
    assert_eq!(sample_plan(3, 40).len(), 3 * 40 + 1);
    assert_eq!(sample_plan(1, 1), vec![(0, 0), (0, 1)]);
}
