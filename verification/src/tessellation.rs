//! Discrete structure of circular-arc tessellation: how many vertices an arc
//! or a point buffer is made of, and in which order they are emitted.
//!
//! The angular positions themselves are evaluated outside the verified core
//! (they need trigonometry on floating-point coordinates); everything the
//! evaluation is told to do — the forced-odd segment count, the seam vertices
//! kept exactly, the number and order of interior steps — is decided and
//! proved here.

use vstd::prelude::*;

verus! {

/// The even-count tie-break: an even segment count is decremented by one,
/// forcing an odd count, so that subdivision stays symmetric and no
/// zero-length terminal segment appears.
pub open spec fn spec_forced_odd(segment_count: u32) -> u32
    recommends
        segment_count >= 1,
{
    if segment_count % 2 == 0 {
        (segment_count - 1) as u32
    } else {
        segment_count
    }
}

/// Apply the forced-odd tie-break to a requested arc segment count.
pub fn forced_odd_segment_count(segment_count: u32) -> (r: u32)
    requires
        segment_count >= 1,
    ensures
        r == spec_forced_odd(segment_count),
        r % 2 == 1,
        r <= segment_count,
        segment_count - r <= 1,
{
    if segment_count % 2 == 0 {
        segment_count - 1
    } else {
        segment_count
    }
}

/// The number of vertices a point buffer's contour is made of: twice the arc
/// segment count, bumped to the next odd number if even — and twice a count
/// is always even, so the contour always has `2 * arc_segments + 1` vertices.
pub open spec fn spec_point_vertex_count(arc_segments: u32) -> int {
    if (2 * arc_segments) % 2 == 0 {
        2 * arc_segments + 1
    } else {
        2 * arc_segments
    }
}

/// Compute the vertex count of a point buffer's contour.
pub fn point_vertex_count(arc_segments: u32) -> (r: u32)
    requires
        arc_segments <= (u32::MAX - 1) / 2,
    ensures
        r == spec_point_vertex_count(arc_segments),
        r == 2 * arc_segments + 1,
        r % 2 == 1,
{
    let count: u32 = arc_segments * 2;
    if count % 2 == 0 {
        count + 1
    } else {
        count
    }
}

/// A point buffer's contour always has an odd vertex count, namely one more
/// than twice the arc segment count.
pub proof fn lemma_point_vertex_count_odd(arc_segments: u32)
    ensures
        spec_point_vertex_count(arc_segments) == 2 * arc_segments + 1,
        spec_point_vertex_count(arc_segments) % 2 == 1,
{
}

/// Plan a point buffer's contour: the multiples of the angular increment
/// `2π / count` at which its vertices stand, in emission order. The contour
/// walks counter-clockwise starting one increment past angle zero — the
/// entry for vertex `j` is `j + 1` — so no vertex stands at angle zero
/// itself.
pub fn point_contour_steps(arc_segments: u32) -> (steps: Vec<u32>)
    requires
        arc_segments <= (u32::MAX - 1) / 2,
    ensures
        steps@.len() == spec_point_vertex_count(arc_segments),
        forall|j: int| 0 <= j < steps@.len() ==> steps@[j] == j + 1,
{
    let count = point_vertex_count(arc_segments);
    let mut steps: Vec<u32> = Vec::new();
    let mut j: u32 = 0;
    while j < count
        invariant
            j <= count,
            count == spec_point_vertex_count(arc_segments),
            steps@.len() == j,
            forall|m: int| 0 <= m < j ==> steps@[m] == m + 1,
        decreases count - j,
    {
        steps.push(j + 1);
        j = j + 1;
    }
    steps
}

/// One planned vertex of a tessellated arc.
#[derive(Clone, Copy, Debug, PartialEq, Eq, Structural)]
pub enum ArcVertex {
    /// The arc's start vertex, emitted exactly as given (no distortion at the
    /// seam).
    Start,
    /// An interior vertex, to be placed this many equal angular increments
    /// past the start angle.
    Interior(u32),
    /// The arc's end vertex, emitted exactly as given.
    End,
}

/// The emission order of a tessellated arc with the given requested segment
/// count: the start vertex, one interior vertex per angular step `1 .. k`
/// where `k` is the forced-odd count, then the end vertex.
pub open spec fn spec_arc_plan(segment_count: u32) -> Seq<ArcVertex>
    recommends
        segment_count >= 1,
{
    let k = spec_forced_odd(segment_count);
    Seq::new(
        (k + 1) as nat,
        |i: int|
            if i == 0 {
                ArcVertex::Start
            } else if i < k {
                ArcVertex::Interior(i as u32)
            } else {
                ArcVertex::End
            },
    )
}

/// Plan one tessellated arc: which vertices are emitted, in which order.
///
/// The first and last planned vertices are exactly the given start and end
/// vertices; between them stand `k - 1` interior vertices at equal angular
/// increments, `k` being the forced-odd segment count.
pub fn create_arc_plan(segment_count: u32) -> (plan: Vec<ArcVertex>)
    requires
        segment_count >= 1,
    ensures
        plan@ =~= spec_arc_plan(segment_count),
        plan@.len() == spec_forced_odd(segment_count) + 1,
        plan@[0] == ArcVertex::Start,
        plan@[plan@.len() - 1] == ArcVertex::End,
        forall|i: int|
            0 < i < plan@.len() - 1 ==> plan@[i] == ArcVertex::Interior(i as u32),
{
    let k = forced_odd_segment_count(segment_count);
    let mut plan: Vec<ArcVertex> = Vec::new();
    plan.push(ArcVertex::Start);
    let mut i: u32 = 1;
    while i < k
        invariant
            1 <= i <= k,
            k == spec_forced_odd(segment_count),
            plan@.len() == i,
            plan@[0] == ArcVertex::Start,
            forall|j: int| 0 < j < i ==> plan@[j] == ArcVertex::Interior(j as u32),
        decreases k - i,
    {
        plan.push(ArcVertex::Interior(i));
        i = i + 1;
    }
    plan.push(ArcVertex::End);
    plan
}

/// One planned vertex of an edge's "capsule" buffer: the closed ring made of
/// two parallel offset segments joined by an arc-tessellated cap at each end.
#[derive(Clone, Copy, Debug, PartialEq, Eq, Structural)]
pub enum CapsuleVertex {
    /// A vertex of the cap swept around the edge's start point, from the
    /// outward-offset return segment over to the inward-offset segment.
    StartCap(ArcVertex),
    /// A vertex of the cap swept around the edge's end point, from the
    /// inward-offset segment over to the outward-offset return segment.
    EndCap(ArcVertex),
}

/// Plan an edge's capsule ring: the full cap arc around the start point,
/// then the full cap arc around the end point. The straight offset segments
/// arise implicitly between the last vertex of one cap and the first vertex
/// of the other.
pub fn capsule_plan(arc_segments: u32) -> (plan: Vec<CapsuleVertex>)
    requires
        arc_segments >= 1,
    ensures
        plan@.len() == 2 * (spec_forced_odd(arc_segments) + 1),
        forall|i: int|
            0 <= i < spec_forced_odd(arc_segments) + 1 ==> plan@[i]
                == CapsuleVertex::StartCap(spec_arc_plan(arc_segments)[i]),
        forall|i: int|
            spec_forced_odd(arc_segments) + 1 <= i < plan@.len() ==> plan@[i]
                == CapsuleVertex::EndCap(
                spec_arc_plan(arc_segments)[i - (spec_forced_odd(arc_segments) + 1)],
            ),
{
    let first_cap = create_arc_plan(arc_segments);
    let second_cap = create_arc_plan(arc_segments);
    let mut plan: Vec<CapsuleVertex> = Vec::new();
    let mut i: usize = 0;
    while i < first_cap.len()
        invariant
            i <= first_cap@.len(),
            first_cap@ =~= spec_arc_plan(arc_segments),
            plan@.len() == i,
            forall|j: int|
                0 <= j < i ==> plan@[j] == CapsuleVertex::StartCap(first_cap@[j]),
        decreases first_cap@.len() - i,
    {
        plan.push(CapsuleVertex::StartCap(first_cap[i]));
        i = i + 1;
    }
    let mut j: usize = 0;
    while j < second_cap.len()
        invariant
            j <= second_cap@.len(),
            first_cap@ =~= spec_arc_plan(arc_segments),
            second_cap@ =~= spec_arc_plan(arc_segments),
            plan@.len() == first_cap@.len() + j,
            forall|m: int|
                0 <= m < first_cap@.len() ==> plan@[m]
                    == CapsuleVertex::StartCap(first_cap@[m]),
            forall|m: int|
                first_cap@.len() <= m < plan@.len() ==> plan@[m]
                    == CapsuleVertex::EndCap(second_cap@[m - first_cap@.len()]),
        decreases second_cap@.len() - j,
    {
        plan.push(CapsuleVertex::EndCap(second_cap[j]));
        j = j + 1;
    }
    plan
}

} // verus!
