use neurocar::controls::{axis, keyboard_zoom, Axis, Controls};

#[test]
fn axis_follows_single_key() {
    assert_eq!(axis(true, false), Axis::Positive);
    assert_eq!(axis(false, true), Axis::Negative);
    assert_eq!(axis(true, true), Axis::Neutral);
    assert_eq!(axis(false, false), Axis::Neutral);
}

#[test]
fn axis_values_are_units() {
    assert_eq!(Axis::Positive.value(), 1);
    assert_eq!(Axis::Neutral.value(), 0);
    assert_eq!(Axis::Negative.value(), -1);
}

#[test]
fn swapping_keys_negates_axis() {
    for a in [false, true] {
        for b in [false, true] {
            assert_eq!(axis(b, a), axis(a, b).negated());
            assert_eq!(axis(b, a).value(), -axis(a, b).value());
        }
    }
}

#[test]
fn keyboard_zoom_prefers_zoom_in() {
    assert_eq!(keyboard_zoom(true, true), Axis::Positive);
    assert_eq!(keyboard_zoom(true, false), Axis::Positive);
    assert_eq!(keyboard_zoom(false, true), Axis::Negative);
    assert_eq!(keyboard_zoom(false, false), Axis::Neutral);
}

#[test]
fn direction_inputs_map_to_controls() {
    let c = Controls::from_direction_inputs(true, false, false, true);
    assert_eq!(c.throttle, Axis::Positive);
    assert_eq!(c.steering, Axis::Negative);
    let c = Controls::from_direction_inputs(true, true, true, false);
    assert_eq!(c.throttle, Axis::Neutral);
    assert_eq!(c.steering, Axis::Positive);
    let c = Controls::from_direction_inputs(false, true, false, false);
    assert_eq!(c.throttle, Axis::Negative);
    assert_eq!(c.steering, Axis::Neutral);
}

#[test]
fn default_controls_are_neutral() {
    let c = Controls::default();
    assert_eq!(c.throttle, Axis::Neutral);
    assert_eq!(c.steering, Axis::Neutral);
}
