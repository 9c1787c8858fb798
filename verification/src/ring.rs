use vstd::prelude::*;

verus! {

/// The index before `index` on a closed loop of `len` points.
pub open spec fn spec_previous_index(index: int, len: int) -> int {
    (index + len - 1) % len
}

/// The index after `index` on a closed loop of `len` points.
pub open spec fn spec_next_index(index: int, len: int) -> int {
    (index + 1) % len
}

/// Neighbours on a closed loop: the point after `index` is `index + 1`,
/// except that the last point is followed by the first; the point before
/// `index` is `index - 1`, except that the first point is preceded by the
/// last.
pub proof fn lemma_ring_neighbours(index: int, len: int)
    requires
        0 <= index < len,
    ensures
        spec_next_index(index, len) == (if index + 1 < len {
            index + 1
        } else {
            0
        }),
        spec_previous_index(index, len) == (if index == 0 {
            len - 1
        } else {
            index - 1
        }),
{
    if index + 1 < len {
        assert((index + 1) % len == index + 1) by (nonlinear_arith)
            requires
                0 <= index + 1 < len,
        ;
    } else {
        assert((index + 1) % len == 0) by (nonlinear_arith)
            requires
                index + 1 == len,
                len > 0,
        ;
    }
    if index == 0 {
        assert((index + len - 1) % len == len - 1) by (nonlinear_arith)
            requires
                index == 0,
                len > 0,
        ;
    } else {
        assert((index + len - 1) % len == index - 1) by (nonlinear_arith)
            requires
                0 < index < len,
        ;
    }
}

/// The index before `index` on a closed loop of `len` points; the first
/// point's predecessor is the last point.
pub fn previous_index(index: usize, len: usize) -> (previous: usize)
    requires
        index < len,
    ensures
        previous == (if index == 0 {
            len - 1
        } else {
            index - 1
        }),
        previous == spec_previous_index(index as int, len as int),
        previous < len,
{
    proof {
        lemma_ring_neighbours(index as int, len as int);
    }
    if index == 0 {
        len - 1
    } else {
        index - 1
    }
}

/// The index after `index` on a closed loop of `len` points; the last
/// point's successor is the first point.
pub fn next_index(index: usize, len: usize) -> (next: usize)
    requires
        index < len,
    ensures
        next == (if index + 1 < len {
            index + 1
        } else {
            0
        }),
        next == spec_next_index(index as int, len as int),
        next < len,
{
    proof {
        lemma_ring_neighbours(index as int, len as int);
    }
    if index + 1 < len {
        index + 1
    } else {
        0
    }
}

/// The edges of a closed polyline through `len` points, as pairs of point
/// indices: edge `i` joins point `i` to the point after it, the last point
/// joining back to the first.
pub fn closed_loop_edges(len: usize) -> (edges: Vec<(usize, usize)>)
    ensures
        edges@.len() == len,
        forall|i: int|
            0 <= i < len ==> #[trigger] edges@[i] == (
                i as usize,
                (if i + 1 < len {
                    i + 1
                } else {
                    0
                }) as usize,
            ),
        forall|i: int|
            0 <= i < len ==> #[trigger] edges@[i] == (
                i as usize,
                spec_next_index(i, len as int) as usize,
            ),
{
    let mut edges: Vec<(usize, usize)> = Vec::new();
    let mut index: usize = 0;
    while index < len
        invariant
            index <= len,
            edges@.len() == index,
            forall|i: int|
                0 <= i < index ==> #[trigger] edges@[i] == (
                    i as usize,
                    (if i + 1 < len {
                        i + 1
                    } else {
                        0
                    }) as usize,
                ),
            forall|i: int|
                0 <= i < index ==> #[trigger] edges@[i] == (
                    i as usize,
                    spec_next_index(i, len as int) as usize,
                ),
        decreases len - index,
    {
        let next = next_index(index, len);
        edges.push((index, next));
        index = index + 1;
    }
    edges
}

/// The index pairs of a closed polyline collider through `len` points, in
/// the 32-bit form that the physics engine takes.  Each index is converted
/// with `as u32`, which keeps the low 32 bits of an index that does not fit.
pub fn closed_polyline_indices(len: usize) -> (indices: Vec<[u32; 2]>)
    ensures
        indices@.len() == len,
        forall|i: int|
            0 <= i < len ==> {
                &&& (#[trigger] indices@[i])[0] == i as u32
                &&& indices@[i][1] == (if i + 1 < len {
                    i + 1
                } else {
                    0
                }) as u32
                &&& indices@[i][1] == spec_next_index(i, len as int) as u32
            },
{
    let mut indices: Vec<[u32; 2]> = Vec::new();
    let mut index: usize = 0;
    while index < len
        invariant
            index <= len,
            indices@.len() == index,
            forall|i: int|
                0 <= i < index ==> {
                    &&& (#[trigger] indices@[i])[0] == i as u32
                    &&& indices@[i][1] == (if i + 1 < len {
                        i + 1
                    } else {
                        0
                    }) as u32
                    &&& indices@[i][1] == spec_next_index(i, len as int) as u32
                },
        decreases len - index,
    {
        let next = next_index(index, len);
        let pair: [u32; 2] = [index as u32, next as u32];
        indices.push(pair);
        index = index + 1;
    }
    indices
}

/// For each point of a closed loop of `len` points, the point itself
/// between its predecessor and its successor: the three anchors of the curve
/// that rounds the loop at that point.
pub fn loop_curve_anchors(len: usize) -> (anchors: Vec<(usize, usize, usize)>)
    ensures
        anchors@.len() == len,
        forall|i: int|
            0 <= i < len ==> #[trigger] anchors@[i] == (
                (if i == 0 {
                    len - 1
                } else {
                    i - 1
                }) as usize,
                i as usize,
                (if i + 1 < len {
                    i + 1
                } else {
                    0
                }) as usize,
            ),
        forall|i: int|
            0 <= i < len ==> #[trigger] anchors@[i] == (
                spec_previous_index(i, len as int) as usize,
                i as usize,
                spec_next_index(i, len as int) as usize,
            ),
{
    let mut anchors: Vec<(usize, usize, usize)> = Vec::new();
    let mut index: usize = 0;
    while index < len
        invariant
            index <= len,
            anchors@.len() == index,
            forall|i: int|
                0 <= i < index ==> #[trigger] anchors@[i] == (
                    (if i == 0 {
                        len - 1
                    } else {
                        i - 1
                    }) as usize,
                    i as usize,
                    (if i + 1 < len {
                        i + 1
                    } else {
                        0
                    }) as usize,
                ),
            forall|i: int|
                0 <= i < index ==> #[trigger] anchors@[i] == (
                    spec_previous_index(i, len as int) as usize,
                    i as usize,
                    spec_next_index(i, len as int) as usize,
                ),
        decreases len - index,
    {
        let previous = previous_index(index, len);
        let next = next_index(index, len);
        anchors.push((previous, index, next));
        index = index + 1;
    }
    anchors
}

/// Stepping forward then back, or back then forward, on a closed loop
/// returns to the same point, and both steps stay on the loop.
pub proof fn lemma_ring_steps_invert(index: int, len: int)
    requires
        0 <= index < len,
    ensures
        0 <= spec_next_index(index, len) < len,
        0 <= spec_previous_index(index, len) < len,
        spec_previous_index(spec_next_index(index, len), len) == index,
        spec_next_index(spec_previous_index(index, len), len) == index,
{
    lemma_ring_neighbours(index, len);
    lemma_ring_neighbours(spec_next_index(index, len), len);
    lemma_ring_neighbours(spec_previous_index(index, len), len);
}

/// The edges of a closed loop form a single cycle through every point in
/// index order: walking `k` steps forward from point 0 reaches point `k`,
/// each point ends exactly one edge (the edge leaving its predecessor), as
/// it starts exactly one.
pub proof fn lemma_closed_loop_is_cycle(len: int)
    requires
        len > 0,
    ensures
        forall|i: int|
            0 <= i < len - 1 ==> #[trigger] spec_next_index(i, len) == i + 1,
        spec_next_index(len - 1, len) == 0,
        forall|i: int, j: int|
            0 <= i < len && 0 <= j < len && #[trigger] spec_next_index(i, len)
                == #[trigger] spec_next_index(j, len) ==> i == j,
        forall|j: int|
            0 <= j < len ==> spec_next_index(#[trigger] spec_previous_index(j, len), len) == j,
{
    lemma_ring_neighbours(len - 1, len);
    assert forall|i: int| 0 <= i < len - 1 implies #[trigger] spec_next_index(i, len) == i + 1 by {
        lemma_ring_neighbours(i, len);
    }
    assert forall|i: int, j: int|
        0 <= i < len && 0 <= j < len && #[trigger] spec_next_index(i, len) == #[trigger] spec_next_index(
            j,
            len,
        ) implies i == j by {
        lemma_ring_neighbours(i, len);
        lemma_ring_neighbours(j, len);
    }
    assert forall|j: int| 0 <= j < len implies spec_next_index(
        #[trigger] spec_previous_index(j, len),
        len,
    ) == j by {
        lemma_ring_steps_invert(j, len);
    }
}

} // verus!
