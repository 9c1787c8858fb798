use neurocar::ring::{
    closed_loop_edges, closed_polyline_indices, loop_curve_anchors, next_index, previous_index,
};

#[test]
fn ring_steps_wrap() {
    assert_eq!(previous_index(0, 5), 4);
    assert_eq!(previous_index(3, 5), 2);
    assert_eq!(next_index(4, 5), 0);
    assert_eq!(next_index(1, 5), 2);
    assert_eq!(next_index(0, 1), 0);
    assert_eq!(previous_index(0, 1), 0);
}

#[test]
fn ring_steps_invert() {
    for len in 1..8usize {
        for i in 0..len {
            assert_eq!(previous_index(next_index(i, len), len), i);
            assert_eq!(next_index(previous_index(i, len), len), i);
        }
    }
}

#[test]
fn closed_loop_edges_close_the_loop() {
    assert_eq!(closed_loop_edges(3), vec![(0, 1), (1, 2), (2, 0)]);
    assert!(closed_loop_edges(0).is_empty());
    assert_eq!(closed_loop_edges(1), vec![(0, 0)]);
}

#[test]
fn closed_polyline_indices_for_collider() {
    assert_eq!(closed_polyline_indices(4), vec![[0, 1], [1, 2], [2, 3], [3, 0]]);
}

#[test]
fn every_point_ends_one_edge() {
    let edges = closed_loop_edges(6);
    for point in 0..6 {
        assert_eq!(edges.iter().filter(|e| e.1 == point).count(), 1);
        assert_eq!(edges.iter().filter(|e| e.0 == point).count(), 1);
    }
}

#[test]
fn loop_curve_anchors_surround_each_point() {
    assert_eq!(
        loop_curve_anchors(5),
        vec![(4, 0, 1), (0, 1, 2), (1, 2, 3), (2, 3, 4), (3, 4, 0)]
    );
}
