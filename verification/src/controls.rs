use vstd::prelude::*;

verus! {

/// A digital input axis: pushed one way, the other way, or not at all.
#[derive(Clone, Copy, Debug, PartialEq, Eq, Structural)]
pub enum Axis {
    Negative,
    Neutral,
    Positive,
}

impl Axis {
    /// The signed unit that the axis stands for.
    pub open spec fn spec_value(self) -> int {
        match self {
            Axis::Negative => -1,
            Axis::Neutral => 0,
            Axis::Positive => 1,
        }
    }

    /// The axis pointing the other way.
    pub open spec fn spec_negated(self) -> Axis {
        match self {
            Axis::Negative => Axis::Positive,
            Axis::Neutral => Axis::Neutral,
            Axis::Positive => Axis::Negative,
        }
    }

    /// The signed unit of the axis: -1, 0 or 1.
    pub fn value(&self) -> (v: i8)
        ensures
            v == self.spec_value(),
    {
        match self {
            Axis::Negative => -1,
            Axis::Neutral => 0,
            Axis::Positive => 1,
        }
    }

    /// The axis pointing the other way.
    pub fn negated(&self) -> (a: Axis)
        ensures
            a == self.spec_negated(),
    {
        match self {
            Axis::Negative => Axis::Positive,
            Axis::Neutral => Axis::Neutral,
            Axis::Positive => Axis::Negative,
        }
    }
}

/// An axis driven by two held keys: exactly one key held pushes the axis its
/// way; both or neither leave it neutral.
pub open spec fn spec_axis(positive_down: bool, negative_down: bool) -> Axis {
    if positive_down && !negative_down {
        Axis::Positive
    } else if !positive_down && negative_down {
        Axis::Negative
    } else {
        Axis::Neutral
    }
}

/// Reads an axis from the two keys that push it.
pub fn axis(positive_down: bool, negative_down: bool) -> (a: Axis)
    ensures
        a == spec_axis(positive_down, negative_down),
{
    match (positive_down, negative_down) {
        (true, false) => Axis::Positive,
        (false, true) => Axis::Negative,
        _ => Axis::Neutral,
    }
}

/// One keyboard zoom step from the keys pressed this frame: zooming in wins
/// over zooming out when both are pressed.
pub open spec fn spec_keyboard_zoom(zoom_in_pressed: bool, zoom_out_pressed: bool) -> Axis {
    if zoom_in_pressed {
        Axis::Positive
    } else if zoom_out_pressed {
        Axis::Negative
    } else {
        Axis::Neutral
    }
}

/// The keyboard zoom step of one frame.
pub fn keyboard_zoom(zoom_in_pressed: bool, zoom_out_pressed: bool) -> (a: Axis)
    ensures
        a == spec_keyboard_zoom(zoom_in_pressed, zoom_out_pressed),
{
    if zoom_in_pressed {
        Axis::Positive
    } else if zoom_out_pressed {
        Axis::Negative
    } else {
        Axis::Neutral
    }
}

/// What a driver asks of a racer: throttle (forward positive) and steering
/// (left positive).
#[derive(Clone, Copy, Debug, PartialEq, Eq, Structural)]
pub struct Controls {
    pub throttle: Axis,
    pub steering: Axis,
}

impl Controls {
    /// The controls for the four direction keys held this frame.
    pub fn from_direction_inputs(forward: bool, backward: bool, left: bool, right: bool) -> (c:
        Controls)
        ensures
            c.throttle == spec_axis(forward, backward),
            c.steering == spec_axis(left, right),
    {
        Controls { throttle: axis(forward, backward), steering: axis(left, right) }
    }
}

impl Default for Controls {
    /// No throttle and no steering.
    fn default() -> (c: Controls)
        ensures
            c.throttle == Axis::Neutral,
            c.steering == Axis::Neutral,
    {
        Controls { throttle: Axis::Neutral, steering: Axis::Neutral }
    }
}

/// An axis stands for the positive key's count minus the negative key's:
/// +1 with only the positive key, -1 with only the negative key, 0 otherwise.
/// A keyboard zoom step is +1 when zooming in is pressed, else -1 when
/// zooming out is pressed, else 0.
pub proof fn lemma_axis_counts_keys(positive: bool, negative: bool)
    ensures
        spec_axis(positive, negative).spec_value() == (if positive {
            1int
        } else {
            0int
        }) - (if negative {
            1int
        } else {
            0int
        }),
        spec_keyboard_zoom(positive, negative).spec_value() == (if positive {
            1int
        } else if negative {
            -1int
        } else {
            0int
        }),
        Axis::Positive.spec_value() == 1,
        Axis::Neutral.spec_value() == 0,
        Axis::Negative.spec_value() == -1,
{
}

/// Swapping the two keys of an axis turns it the other way, and holding both
/// keys is the same as holding neither.
pub proof fn lemma_axis_antisymmetric(positive_down: bool, negative_down: bool)
    ensures
        spec_axis(negative_down, positive_down) == spec_axis(
            positive_down,
            negative_down,
        ).spec_negated(),
        spec_axis(positive_down, positive_down) == Axis::Neutral,
        spec_axis(false, false) == Axis::Neutral,
{
}

/// Every axis stands for -1, 0 or 1, and negating it negates that unit.
pub proof fn lemma_axis_value(a: Axis)
    ensures
        -1 <= a.spec_value() <= 1,
        a.spec_negated().spec_value() == -a.spec_value(),
        a.spec_negated().spec_negated() == a,
{
}

} // verus!
