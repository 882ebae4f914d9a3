//! Dispatch and merge decisions of the offset computation.
//!
//! Every branch the algorithm takes that does not read a coordinate is
//! decided here: which routine handles which geometry variant, when a
//! negative distance short-circuits to the empty result, which set operation
//! combines a polygon's buffers, how a degenerate edge is routed, and the
//! order-significant fold that merges a polyline's capsules. The floating
//! point evaluation around these decisions delegates to them and executes
//! exactly what they return.

use vstd::prelude::*;

use crate::error::EdgeError;
use crate::error::OffsetError;

verus! {

/// The closed set of supported geometry variants, plus one tag standing for
/// every variant outside it.
#[derive(Clone, Copy, Debug, PartialEq, Eq, Structural)]
pub enum GeometryKind {
    Point,
    Line,
    LineString,
    Polygon,
    MultiPoint,
    MultiLineString,
    MultiPolygon,
    GeometryCollection,
    /// A geometry variant outside the supported closed set.
    Unsupported,
}

/// Whether a geometry kind belongs to the supported closed set.
pub open spec fn spec_is_supported(kind: GeometryKind) -> bool {
    kind != GeometryKind::Unsupported
}

/// Whether a geometry kind has no interior area to erode: offsetting such a
/// kind by a negative distance yields the empty result.
pub open spec fn spec_has_no_interior(kind: GeometryKind) -> bool {
    ||| kind == GeometryKind::Point
    ||| kind == GeometryKind::Line
    ||| kind == GeometryKind::LineString
    ||| kind == GeometryKind::MultiPoint
    ||| kind == GeometryKind::MultiLineString
}

/// What the offset computation does with one geometry value.
#[derive(Clone, Copy, Debug, PartialEq, Eq, Structural)]
pub enum OffsetDecision {
    /// Fail with `OffsetError::UnknownGeometry`; no result is computed.
    RejectUnknownGeometry,
    /// Return the empty result at once: a negative distance erodes a
    /// geometry without interior area to nothing.
    ReturnEmpty,
    /// Build the regular polygon approximating a circle around the point.
    BuildPointCircle,
    /// Build the edge's capsule ring (or fall back to a point circle if the
    /// edge is degenerate).
    BuildEdgeCapsule,
    /// Offset every consecutive edge of the polyline and merge the capsules,
    /// first as shell, the rest subtracted in encounter order.
    FoldEdgeCapsules,
    /// Buffer the exterior and interior rings with the distance's absolute
    /// value and combine them with the polygon by union or difference.
    CombinePolygonBuffers,
    /// Offset every member recursively and union the results, starting from
    /// the empty result; the first member failure aborts the whole fold.
    UnionMemberOffsets,
}

/// The decision table of the dispatcher: which routine handles a geometry of
/// the given kind, offset by a distance that is negative or not.
pub open spec fn spec_offset_decision(kind: GeometryKind, distance_negative: bool) -> OffsetDecision {
    match kind {
        GeometryKind::Unsupported => OffsetDecision::RejectUnknownGeometry,
        GeometryKind::Point => if distance_negative {
            OffsetDecision::ReturnEmpty
        } else {
            OffsetDecision::BuildPointCircle
        },
        GeometryKind::Line => if distance_negative {
            OffsetDecision::ReturnEmpty
        } else {
            OffsetDecision::BuildEdgeCapsule
        },
        GeometryKind::LineString => if distance_negative {
            OffsetDecision::ReturnEmpty
        } else {
            OffsetDecision::FoldEdgeCapsules
        },
        GeometryKind::MultiPoint => if distance_negative {
            OffsetDecision::ReturnEmpty
        } else {
            OffsetDecision::UnionMemberOffsets
        },
        GeometryKind::MultiLineString => if distance_negative {
            OffsetDecision::ReturnEmpty
        } else {
            OffsetDecision::UnionMemberOffsets
        },
        GeometryKind::Polygon => OffsetDecision::CombinePolygonBuffers,
        GeometryKind::MultiPolygon => OffsetDecision::UnionMemberOffsets,
        GeometryKind::GeometryCollection => OffsetDecision::UnionMemberOffsets,
    }
}

/// Decide what the offset computation does with a geometry of the given
/// kind. `distance_negative` is whether the signed distance is strictly
/// below zero.
pub fn offset_decision(kind: GeometryKind, distance_negative: bool) -> (d: OffsetDecision)
    ensures
        d == spec_offset_decision(kind, distance_negative),
        (d == OffsetDecision::RejectUnknownGeometry) <==> !spec_is_supported(kind),
        (d == OffsetDecision::ReturnEmpty) <==> (distance_negative && spec_has_no_interior(kind)),
{
    match kind {
        GeometryKind::Unsupported => OffsetDecision::RejectUnknownGeometry,
        GeometryKind::Point => if distance_negative {
            OffsetDecision::ReturnEmpty
        } else {
            OffsetDecision::BuildPointCircle
        },
        GeometryKind::Line => if distance_negative {
            OffsetDecision::ReturnEmpty
        } else {
            OffsetDecision::BuildEdgeCapsule
        },
        GeometryKind::LineString => if distance_negative {
            OffsetDecision::ReturnEmpty
        } else {
            OffsetDecision::FoldEdgeCapsules
        },
        GeometryKind::MultiPoint => if distance_negative {
            OffsetDecision::ReturnEmpty
        } else {
            OffsetDecision::UnionMemberOffsets
        },
        GeometryKind::MultiLineString => if distance_negative {
            OffsetDecision::ReturnEmpty
        } else {
            OffsetDecision::UnionMemberOffsets
        },
        GeometryKind::Polygon => OffsetDecision::CombinePolygonBuffers,
        GeometryKind::MultiPolygon => OffsetDecision::UnionMemberOffsets,
        GeometryKind::GeometryCollection => OffsetDecision::UnionMemberOffsets,
    }
}

/// The error returned for a geometry outside the supported closed set.
pub fn unknown_geometry_error() -> (e: OffsetError)
    ensures
        e == OffsetError::UnknownGeometry,
{
    OffsetError::UnknownGeometry
}

/// The error propagated when a normal vector is needed, cannot be computed,
/// and no fallback is defined.
pub fn degenerate_edge_error() -> (e: OffsetError)
    ensures
        e == OffsetError::EdgeError(EdgeError::DegenerateEdge),
{
    OffsetError::EdgeError(EdgeError::DegenerateEdge)
}

/// Offsetting a geometry without interior area by a negative distance is
/// always decided to be the empty result — there is no interior to shrink.
pub proof fn lemma_erosion_of_flat_geometry_is_empty(kind: GeometryKind)
    requires
        spec_has_no_interior(kind),
    ensures
        spec_offset_decision(kind, true) == OffsetDecision::ReturnEmpty,
{
}

/// A geometry outside the supported closed set is rejected — and nothing
/// else is: the dispatcher fails with `UnknownGeometry` exactly on the
/// unsupported kinds, whatever the distance's sign.
pub proof fn lemma_unknown_geometry_rejected(kind: GeometryKind, distance_negative: bool)
    ensures
        (spec_offset_decision(kind, distance_negative) == OffsetDecision::RejectUnknownGeometry)
            <==> !spec_is_supported(kind),
{
}

/// How an edge's buffer is built, depending on whether the edge's normals
/// are defined.
#[derive(Clone, Copy, Debug, PartialEq, Eq, Structural)]
pub enum EdgeOffsetRoute {
    /// The edge has a direction: build the capsule ring around it.
    Capsule,
    /// The edge is degenerate (start equals end), so its normals are
    /// undefined: build the point circle around its start vertex instead,
    /// with the same distance and arc segment count.
    PointFallback,
}

/// Route an edge's offset: a degenerate edge — whose normal computation
/// failed — falls back to the point buffer of its start vertex; any other
/// edge gets its capsule. The fallback holds for every distance and every
/// arc segment count, so a degenerate edge's buffer always equals the point
/// buffer of its coordinate.
pub fn edge_offset_route(normals_defined: bool) -> (r: EdgeOffsetRoute)
    ensures
        r == (if normals_defined {
            EdgeOffsetRoute::Capsule
        } else {
            EdgeOffsetRoute::PointFallback
        }),
{
    if normals_defined {
        EdgeOffsetRoute::Capsule
    } else {
        EdgeOffsetRoute::PointFallback
    }
}

/// Which set operation combines a polygon with its ring buffers: dilation
/// unions them onto the polygon, erosion subtracts them from it. The sign
/// test is the floating sign bit, so a distance of negative zero erodes.
#[derive(Clone, Copy, Debug, PartialEq, Eq, Structural)]
pub enum CombineOp {
    Union,
    Difference,
}

/// Decide the set operation that combines a polygon with its exterior and
/// interior buffers, in that order. `sign_positive` is the distance's
/// floating sign bit being positive.
pub fn polygon_combine_op(sign_positive: bool) -> (op: CombineOp)
    ensures
        op == (if sign_positive {
            CombineOp::Union
        } else {
            CombineOp::Difference
        }),
{
    if sign_positive {
        CombineOp::Union
    } else {
        CombineOp::Difference
    }
}

/// A geometry value's variant structure, as the dispatcher sees it: which
/// variant each node is, with a collection's members in order. Coordinates
/// play no part in whether the computation succeeds, so they do not appear;
/// nor do the members of the homogeneous collections, whose offsets never
/// fail (a point, polyline or polygon buffer always has a defined result,
/// and a degenerate edge is caught by the point fallback).
#[derive(Debug)]
pub enum GeometryModel {
    Point,
    Line,
    LineString,
    Polygon,
    MultiPoint,
    MultiLineString,
    MultiPolygon,
    GeometryCollection(Vec<GeometryModel>),
    Unsupported,
}

/// The dispatch kind of one node of a geometry's variant structure.
pub open spec fn spec_node_kind(m: GeometryModel) -> GeometryKind {
    match m {
        GeometryModel::Point => GeometryKind::Point,
        GeometryModel::Line => GeometryKind::Line,
        GeometryModel::LineString => GeometryKind::LineString,
        GeometryModel::Polygon => GeometryKind::Polygon,
        GeometryModel::MultiPoint => GeometryKind::MultiPoint,
        GeometryModel::MultiLineString => GeometryKind::MultiLineString,
        GeometryModel::MultiPolygon => GeometryKind::MultiPolygon,
        GeometryModel::GeometryCollection(_) => GeometryKind::GeometryCollection,
        GeometryModel::Unsupported => GeometryKind::Unsupported,
    }
}

/// Read off the dispatch kind of a geometry node.
pub fn node_kind(m: &GeometryModel) -> (k: GeometryKind)
    ensures
        k == spec_node_kind(*m),
{
    match m {
        GeometryModel::Point => GeometryKind::Point,
        GeometryModel::Line => GeometryKind::Line,
        GeometryModel::LineString => GeometryKind::LineString,
        GeometryModel::Polygon => GeometryKind::Polygon,
        GeometryModel::MultiPoint => GeometryKind::MultiPoint,
        GeometryModel::MultiLineString => GeometryKind::MultiLineString,
        GeometryModel::MultiPolygon => GeometryKind::MultiPolygon,
        GeometryModel::GeometryCollection(_) => GeometryKind::GeometryCollection,
        GeometryModel::Unsupported => GeometryKind::Unsupported,
    }
}

/// Whether offsetting a geometry with this variant structure succeeds:
/// exactly when every nested variant belongs to the supported closed set.
pub open spec fn spec_offset_succeeds(m: GeometryModel) -> bool
    decreases m,
{
    match m {
        GeometryModel::Unsupported => false,
        GeometryModel::GeometryCollection(members) => forall|i: int|
            0 <= i < members@.len() ==> spec_offset_succeeds(#[trigger] members@[i]),
        _ => true,
    }
}

/// Walk a geometry's variant structure exactly as the dispatcher walks the
/// geometry, and report whether the offset computation succeeds or with
/// which error it fails. The collection fold short-circuits: the first
/// failing member aborts the walk, and no partial result is kept. Success
/// is owed if and only if every nested variant is supported, and the only
/// error the dispatch itself produces is `UnknownGeometry` — a degenerate
/// edge is absorbed by the point fallback and never escapes a buffer.
pub fn offset_outcome(m: &GeometryModel, distance_negative: bool) -> (r: Result<(), OffsetError>)
    ensures
        r is Ok <==> spec_offset_succeeds(*m),
        r matches Err(e) ==> e == OffsetError::UnknownGeometry,
    decreases *m,
{
    let d = offset_decision(node_kind(m), distance_negative);
    if d == OffsetDecision::RejectUnknownGeometry {
        return Err(unknown_geometry_error());
    }
    match m {
        GeometryModel::GeometryCollection(members) => {
            let mut k: usize = 0;
            while k < members.len()
                invariant
                    k <= members@.len(),
                    m is GeometryCollection,
                    members@ == m->GeometryCollection_0@,
                    forall|i: int|
                        0 <= i < k ==> spec_offset_succeeds(#[trigger] members@[i]),
                decreases members@.len() - k,
            {
                proof {
                    assert(decreases_to!(*m => members@[k as int]));
                }
                if let Err(e) = offset_outcome(&members[k], distance_negative) {
                    return Err(e);
                }
                k = k + 1;
            }
            Ok(())
        },
        _ => Ok(()),
    }
}

/// The consecutive-edge decomposition of a polyline with the given vertex
/// count: the index pairs `(i, i + 1)` of the vertices forming its directed
/// edges, in path order. A polyline with fewer than two vertices has no
/// edges.
pub fn edge_index_pairs(vertex_count: usize) -> (pairs: Vec<(usize, usize)>)
    ensures
        vertex_count == 0 ==> pairs@.len() == 0,
        vertex_count >= 1 ==> pairs@.len() == vertex_count - 1,
        forall|i: int|
            0 <= i < pairs@.len() ==> pairs@[i] == (i as usize, (i + 1) as usize),
{
    let mut pairs: Vec<(usize, usize)> = Vec::new();
    if vertex_count == 0 {
        return pairs;
    }
    let mut i: usize = 0;
    while i + 1 < vertex_count
        invariant
            i <= vertex_count - 1,
            pairs@.len() == i,
            forall|j: int| 0 <= j < i ==> pairs@[j] == (j as usize, (j + 1) as usize),
        decreases vertex_count - i,
    {
        pairs.push((i, i + 1));
        i = i + 1;
    }
    pairs
}

/// One step of the polyline merge fold.
#[derive(Clone, Copy, Debug, PartialEq, Eq, Structural)]
pub enum MergeStep {
    /// Take the capsule polygon at this index as the outer shell.
    TakeAsShell(usize),
    /// Subtract the capsule polygon at this index from the accumulated
    /// result, as if it were a hole.
    SubtractAsHole(usize),
}

/// Plan the order-significant fold that merges a polyline's per-edge
/// capsules, given how many polygons their union produced: the first polygon
/// is the outer shell, and every subsequent one is subtracted from the
/// accumulated result in encounter order. This iterative difference — not a
/// plain union — is what resolves overlaps of a self-intersecting path into
/// holes rather than disjoint lobes; with no polygons at all the plan is
/// empty and so is the result.
pub fn line_string_merge_plan(polygon_count: usize) -> (plan: Vec<MergeStep>)
    ensures
        plan@.len() == polygon_count,
        polygon_count > 0 ==> plan@[0] == MergeStep::TakeAsShell(0),
        forall|i: int|
            1 <= i < polygon_count ==> plan@[i] == MergeStep::SubtractAsHole(i as usize),
{
    let mut plan: Vec<MergeStep> = Vec::new();
    if polygon_count == 0 {
        return plan;
    }
    plan.push(MergeStep::TakeAsShell(0));
    let mut i: usize = 1;
    while i < polygon_count
        invariant
            1 <= i <= polygon_count,
            plan@.len() == i,
            plan@[0] == MergeStep::TakeAsShell(0),
            forall|j: int| 1 <= j < i ==> plan@[j] == MergeStep::SubtractAsHole(j as usize),
        decreases polygon_count - i,
    {
        plan.push(MergeStep::SubtractAsHole(i));
        i = i + 1;
    }
    plan
}

} // verus!
