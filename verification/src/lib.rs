//! Geometric offsetting ("buffering") of 2D shapes: the discrete core of the
//! algorithm — error classification, arc-tessellation subdivision counts, and
//! the dispatch and merge decisions — stated and proved here. Floating-point
//! coordinate evaluation and the polygon boolean engine live outside the
//! verified core.

use vstd::prelude::*;

mod dispatch;
mod error;
mod tessellation;

pub use dispatch::CombineOp;
pub use dispatch::EdgeOffsetRoute;
pub use dispatch::GeometryKind;
pub use dispatch::GeometryModel;
pub use dispatch::MergeStep;
pub use dispatch::OffsetDecision;
pub use dispatch::degenerate_edge_error;
pub use dispatch::edge_index_pairs;
pub use dispatch::edge_offset_route;
pub use dispatch::lemma_erosion_of_flat_geometry_is_empty;
pub use dispatch::lemma_unknown_geometry_rejected;
pub use dispatch::line_string_merge_plan;
pub use dispatch::node_kind;
pub use dispatch::offset_decision;
pub use dispatch::offset_outcome;
pub use dispatch::polygon_combine_op;
pub use dispatch::spec_has_no_interior;
pub use dispatch::spec_is_supported;
pub use dispatch::spec_node_kind;
pub use dispatch::spec_offset_decision;
pub use dispatch::spec_offset_succeeds;
pub use dispatch::unknown_geometry_error;
pub use error::EdgeError;
pub use error::OffsetError;
pub use tessellation::ArcVertex;
pub use tessellation::CapsuleVertex;
pub use tessellation::capsule_plan;
pub use tessellation::create_arc_plan;
pub use tessellation::forced_odd_segment_count;
pub use tessellation::lemma_point_vertex_count_odd;
pub use tessellation::point_contour_steps;
pub use tessellation::point_vertex_count;
pub use tessellation::spec_arc_plan;
pub use tessellation::spec_forced_odd;
pub use tessellation::spec_point_vertex_count;

verus! {

/// Arcs around corners are made of this many segments by default.
pub const DEFAULT_ARC_SEGMENTS: u32 = 5;

} // verus!
