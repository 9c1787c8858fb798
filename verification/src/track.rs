use vstd::prelude::*;

verus! {

/// The abstract state of an edited track: its vertices in the order they
/// were placed, and one curve control point for each pair of consecutive
/// vertices.
pub struct TrackPathView<P> {
    pub vertices: Seq<P>,
    pub controls: Seq<P>,
}

/// A track path is well formed when each curve between consecutive vertices
/// has exactly one control point; a path whose start was removed is empty.
pub open spec fn spec_path_well_formed<P>(path: TrackPathView<P>) -> bool {
    ||| path.vertices.len() == path.controls.len() + 1
    ||| (path.vertices.len() == 0 && path.controls.len() == 0)
}

/// The path after appending a curve with `control` that ends at `end`.
pub open spec fn spec_path_added<P>(path: TrackPathView<P>, control: P, end: P) -> TrackPathView<P> {
    TrackPathView { vertices: path.vertices.push(end), controls: path.controls.push(control) }
}

/// The path after removing its last vertex and the control point of the
/// curve leading to it (each only where there is one).
pub open spec fn spec_path_removed<P>(path: TrackPathView<P>) -> TrackPathView<P> {
    TrackPathView {
        vertices: if path.vertices.len() > 0 {
            path.vertices.drop_last()
        } else {
            path.vertices
        },
        controls: if path.controls.len() > 0 {
            path.controls.drop_last()
        } else {
            path.controls
        },
    }
}

/// The centre line of a track being edited: a chain of quadratic curves
/// through the placed vertices, each with its own control point.  `P` is the
/// point type.
pub struct TrackPath<P> {
    vertices: Vec<P>,
    controls: Vec<P>,
}

impl<P> View for TrackPath<P> {
    type V = TrackPathView<P>;

    closed spec fn view(&self) -> TrackPathView<P> {
        TrackPathView { vertices: self.vertices@, controls: self.controls@ }
    }
}

impl<P> TrackPath<P> {
    #[verifier::type_invariant]
    spec fn well_formed(self) -> bool {
        spec_path_well_formed(self@)
    }
}

impl<P: Copy> TrackPath<P> {
    /// The vertices placed so far, in order.
    pub fn vertices(&self) -> (vertices: &[P])
        ensures
            vertices@ == self@.vertices,
    {
        self.vertices.as_slice()
    }

    /// The control points of the curves, in order.
    pub fn controls(&self) -> (controls: &[P])
        ensures
            controls@ == self@.controls,
    {
        self.controls.as_slice()
    }

    /// The number of curves in the path.
    pub fn curve_count(&self) -> (count: usize)
        ensures
            count == self@.controls.len(),
            spec_path_well_formed(self@),
    {
        proof {
            use_type_invariant(self);
        }
        self.controls.len()
    }

    /// The last vertex, where the next curve starts.
    pub fn last_vertex(&self) -> (last: Option<P>)
        ensures
            last == (if self@.vertices.len() > 0 {
                Some(self@.vertices.last())
            } else {
                None
            }),
    {
        let len = self.vertices.len();
        if len > 0 {
            Some(self.vertices[len - 1])
        } else {
            None
        }
    }

    /// The control point of the last curve, if there is a curve.
    pub fn last_control(&self) -> (last: Option<P>)
        ensures
            last == (if self@.controls.len() > 0 {
                Some(self@.controls.last())
            } else {
                None
            }),
    {
        let len = self.controls.len();
        if len > 0 {
            Some(self.controls[len - 1])
        } else {
            None
        }
    }

    /// Curve `curve` of the path: its start vertex, control point and end
    /// vertex.
    pub fn curve(&self, curve: usize) -> (anchors: (P, P, P))
        requires
            curve < self@.controls.len(),
        ensures
            anchors == (
                self@.vertices[curve as int],
                self@.controls[curve as int],
                self@.vertices[curve + 1],
            ),
    {
        proof {
            use_type_invariant(self);
        }
        assert(curve < self.controls.len());
        let next = curve + 1;
        (self.vertices[curve], self.controls[curve], self.vertices[next])
    }
}

/// A new track path that starts at `start`, with no curves yet.
pub fn init_track<P>(start: P) -> (track: TrackPath<P>)
    ensures
        track@.vertices == seq![start],
        track@.controls == Seq::<P>::empty(),
{
    let mut vertices: Vec<P> = Vec::new();
    vertices.push(start);
    TrackPath { vertices, controls: Vec::new() }
}

/// Appends a curve from the last vertex to `end`, bent by `control`.  The
/// path must still have its starting vertex.
pub fn add_to_track<P>(track: &mut TrackPath<P>, control: P, end: P)
    requires
        old(track)@.vertices.len() > 0,
    ensures
        final(track)@ == spec_path_added(old(track)@, control, end),
        final(track)@.vertices.len() == old(track)@.vertices.len() + 1,
        final(track)@.controls.len() == old(track)@.controls.len() + 1,
        final(track)@.vertices[old(track)@.vertices.len() as int] == end,
        final(track)@.controls[old(track)@.controls.len() as int] == control,
        forall|i: int|
            0 <= i < old(track)@.vertices.len() ==> #[trigger] final(track)@.vertices[i]
                == old(track)@.vertices[i],
        forall|i: int|
            0 <= i < old(track)@.controls.len() ==> #[trigger] final(track)@.controls[i]
                == old(track)@.controls[i],
{
    proof {
        use_type_invariant(&*track);
    }
    let mut taken = TrackPath { vertices: Vec::new(), controls: Vec::new() };
    std::mem::swap(&mut taken, track);
    proof {
        use_type_invariant(&taken);
    }
    let TrackPath { mut vertices, mut controls } = taken;
    vertices.push(end);
    controls.push(control);
    *track = TrackPath { vertices, controls };
}

/// Removes the last vertex and the control point of the curve leading to
/// it; on a path with only its start, this removes the start.
pub fn remove_from_track<P>(track: &mut TrackPath<P>)
    ensures
        final(track)@ == spec_path_removed(old(track)@),
        final(track)@.vertices.len() == (if old(track)@.vertices.len() > 0 {
            old(track)@.vertices.len() - 1
        } else {
            0
        }),
        final(track)@.controls.len() == (if old(track)@.controls.len() > 0 {
            old(track)@.controls.len() - 1
        } else {
            0
        }),
        forall|i: int|
            0 <= i < final(track)@.vertices.len() ==> #[trigger] final(track)@.vertices[i]
                == old(track)@.vertices[i],
        forall|i: int|
            0 <= i < final(track)@.controls.len() ==> #[trigger] final(track)@.controls[i]
                == old(track)@.controls[i],
{
    proof {
        use_type_invariant(&*track);
    }
    let mut taken = TrackPath { vertices: Vec::new(), controls: Vec::new() };
    std::mem::swap(&mut taken, track);
    proof {
        use_type_invariant(&taken);
    }
    let TrackPath { mut vertices, mut controls } = taken;
    vertices.pop();
    controls.pop();
    *track = TrackPath { vertices, controls };
}

/// Sample `index` of a whole track's edge, as (curve, step): the first
/// curve is sampled at steps `0..=segments`, and each later curve at steps
/// `1..=segments`, since its step 0 is the previous curve's last sample.
pub open spec fn spec_track_sample(index: int, segments: int) -> (int, int) {
    if index == 0 {
        (0, 0)
    } else {
        ((index - 1) / segments, (index - 1) % segments + 1)
    }
}

/// How many samples an edge of a track with `curve_count` curves has.
pub open spec fn spec_track_sample_count(curve_count: int, segments: int) -> int {
    if curve_count == 0 {
        0
    } else {
        curve_count * segments + 1
    }
}

proof fn lemma_div_mod_of_step(curve: int, offset: int, segments: int)
    requires
        curve >= 0,
        0 <= offset < segments,
    ensures
        (curve * segments + offset) / segments == curve,
        (curve * segments + offset) % segments == offset,
{
    vstd::arithmetic::div_mod::lemma_fundamental_div_mod_converse(
        curve * segments + offset,
        segments,
        curve,
        offset,
    );
}

/// The order in which the edges of a track are sampled: the (curve, step)
/// pair of every sample, where step `s` of a curve lies at parameter
/// `s / segments` along it.
pub fn sample_plan(curve_count: usize, segments: usize) -> (plan: Vec<(usize, usize)>)
    requires
        segments > 0,
        curve_count * segments + 1 <= usize::MAX,
    ensures
        plan@.len() == spec_track_sample_count(curve_count as int, segments as int),
        forall|index: int|
            0 <= index < plan@.len() ==> {
                let sample = #[trigger] plan@[index];
                (sample.0 as int, sample.1 as int) == spec_track_sample(index, segments as int)
            },
{
    let mut plan: Vec<(usize, usize)> = Vec::new();
    let mut curve: usize = 0;
    while curve < curve_count
        invariant
            segments > 0,
            curve_count * segments + 1 <= usize::MAX,
            curve <= curve_count,
            plan@.len() == spec_track_sample_count(curve as int, segments as int),
            forall|index: int|
                0 <= index < plan@.len() ==> {
                    let sample = #[trigger] plan@[index];
                    (sample.0 as int, sample.1 as int) == spec_track_sample(index, segments as int)
                },
        decreases curve_count - curve,
    {
        proof {
            assert(curve * segments <= curve_count * segments) by (nonlinear_arith)
                requires
                    curve < curve_count,
            ;
            assert((curve + 1) * segments == curve * segments + segments) by (nonlinear_arith);
            assert((curve + 1) * segments <= curve_count * segments) by (nonlinear_arith)
                requires
                    curve + 1 <= curve_count,
            ;
        }
        let mut step: usize = if curve > 0 {
            1
        } else {
            0
        };
        while step <= segments
            invariant
                segments > 0,
                curve < curve_count,
                (curve + 1) * segments <= curve_count * segments,
                (curve + 1) * segments == curve * segments + segments,
                curve_count * segments + 1 <= usize::MAX,
                curve == 0 ==> step <= segments + 1,
                curve > 0 ==> 1 <= step <= segments + 1,
                plan@.len() == (if curve == 0 && step == 0 {
                    0
                } else {
                    curve * segments + step
                }),
                forall|index: int|
                    0 <= index < plan@.len() ==> {
                        let sample = #[trigger] plan@[index];
                        (sample.0 as int, sample.1 as int) == spec_track_sample(
                            index,
                            segments as int,
                        )
                    },
            decreases segments + 1 - step,
        {
            proof {
                let index = curve * segments + step;
                if index > 0 {
                    lemma_div_mod_of_step(curve as int, step - 1, segments as int);
                    assert(index - 1 == curve * segments + (step - 1));
                }
            }
            plan.push((curve, step));
            step = step + 1;
        }
        curve = curve + 1;
    }
    plan
}

/// Sampling a track visits every curve in turn without repeating the vertex
/// that two curves share: after step `s < segments` comes step `s + 1` of
/// the same curve, after a curve's last step comes step 1 of the next curve,
/// and the last sample is the last step of the last curve.
pub proof fn lemma_sample_plan_continuous(curve_count: int, segments: int)
    requires
        curve_count > 0,
        segments > 0,
    ensures
        spec_track_sample_count(0, segments) == 0,
        spec_track_sample_count(curve_count, segments) >= 2,
        spec_track_sample(0, segments) == (0int, 0int),
        spec_track_sample(spec_track_sample_count(curve_count, segments) - 1, segments) == (
            curve_count - 1,
            segments,
        ),
        forall|index: int|
            0 <= index < spec_track_sample_count(curve_count, segments) - 1 ==> {
                let here = #[trigger] spec_track_sample(index, segments);
                let after = spec_track_sample(index + 1, segments);
                &&& here.1 < segments ==> after == (here.0, here.1 + 1)
                &&& here.1 == segments ==> after == (here.0 + 1, 1int)
            },
{
    lemma_div_mod_of_step(curve_count - 1, segments - 1, segments);
    assert(curve_count * segments == (curve_count - 1) * segments + segments) by (nonlinear_arith);
    assert forall|index: int|
        0 <= index < spec_track_sample_count(curve_count, segments) - 1 implies {
            let here = #[trigger] spec_track_sample(index, segments);
            let after = spec_track_sample(index + 1, segments);
            &&& here.1 < segments ==> after == (here.0, here.1 + 1)
            &&& here.1 == segments ==> after == (here.0 + 1, 1int)
        } by {
        if index == 0 {
            lemma_div_mod_of_step(0, 0, segments);
        } else {
            let q = (index - 1) / segments;
            let r = (index - 1) % segments;
            vstd::arithmetic::div_mod::lemma_fundamental_div_mod(index - 1, segments);
            assert(0 <= r < segments);
            assert(segments * q == q * segments) by (nonlinear_arith);
            assert(q >= 0) by (nonlinear_arith)
                requires
                    index - 1 >= 0,
                    segments > 0,
                    q == (index - 1) / segments,
            ;
            if r + 1 < segments {
                lemma_div_mod_of_step(q, r + 1, segments);
                assert(index == q * segments + (r + 1));
            } else {
                assert((q + 1) * segments == q * segments + segments) by (nonlinear_arith);
                lemma_div_mod_of_step(q + 1, 0, segments);
                assert(index == (q + 1) * segments + 0);
            }
        }
    }
}

/// Adding a curve appends: the new last vertex is `end`, the new last
/// control point is `control`, and every earlier vertex and control point
/// keeps its place.
pub proof fn lemma_add_appends<P>(path: TrackPathView<P>, control: P, end: P)
    ensures
        spec_path_added(path, control, end).vertices.len() == path.vertices.len() + 1,
        spec_path_added(path, control, end).controls.len() == path.controls.len() + 1,
        spec_path_added(path, control, end).vertices[path.vertices.len() as int] == end,
        spec_path_added(path, control, end).controls[path.controls.len() as int] == control,
        forall|i: int|
            0 <= i < path.vertices.len() ==> #[trigger] spec_path_added(path, control, end).vertices[i]
                == path.vertices[i],
        forall|i: int|
            0 <= i < path.controls.len() ==> #[trigger] spec_path_added(path, control, end).controls[i]
                == path.controls[i],
{
}

/// Removing drops exactly the last vertex and the last control point (each
/// where there is one) and keeps every other in its place.
pub proof fn lemma_remove_drops_last<P>(path: TrackPathView<P>)
    ensures
        spec_path_removed(path).vertices.len() == (if path.vertices.len() > 0 {
            path.vertices.len() - 1
        } else {
            0
        }),
        spec_path_removed(path).controls.len() == (if path.controls.len() > 0 {
            path.controls.len() - 1
        } else {
            0
        }),
        forall|i: int|
            0 <= i < spec_path_removed(path).vertices.len() ==> #[trigger] spec_path_removed(
                path,
            ).vertices[i] == path.vertices[i],
        forall|i: int|
            0 <= i < spec_path_removed(path).controls.len() ==> #[trigger] spec_path_removed(
                path,
            ).controls[i] == path.controls[i],
{
}

/// Removing a curve right after adding it gives the path back unchanged.
pub proof fn lemma_remove_undoes_add<P>(path: TrackPathView<P>, control: P, end: P)
    ensures
        spec_path_removed(spec_path_added(path, control, end)) == path,
{
    assert(path.vertices.push(end).drop_last() =~= path.vertices);
    assert(path.controls.push(control).drop_last() =~= path.controls);
}

/// Adding and removing curves keeps a path well formed.
pub proof fn lemma_edits_keep_well_formed<P>(path: TrackPathView<P>, control: P, end: P)
    requires
        spec_path_well_formed(path),
    ensures
        path.vertices.len() > 0 ==> spec_path_well_formed(spec_path_added(path, control, end)),
        spec_path_well_formed(spec_path_removed(path)),
{
}

} // verus!
