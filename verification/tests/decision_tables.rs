use geo_offset::CombineOp;
use geo_offset::EdgeError;
use geo_offset::EdgeOffsetRoute;
use geo_offset::GeometryKind;
use geo_offset::GeometryModel;
use geo_offset::MergeStep;
use geo_offset::OffsetDecision;
use geo_offset::OffsetError;
use geo_offset::degenerate_edge_error;
use geo_offset::edge_offset_route;
use geo_offset::line_string_merge_plan;
use geo_offset::node_kind;
use geo_offset::offset_decision;
use geo_offset::offset_outcome;
use geo_offset::polygon_combine_op;
use geo_offset::unknown_geometry_error;

#[test]
fn dispatch_table_for_nonnegative_distance() {
    assert_eq!(
        offset_decision(GeometryKind::Point, false),
        OffsetDecision::BuildPointCircle
    );
    assert_eq!(
        offset_decision(GeometryKind::Line, false),
        OffsetDecision::BuildEdgeCapsule
    );
    assert_eq!(
        offset_decision(GeometryKind::LineString, false),
        OffsetDecision::FoldEdgeCapsules
    );
    assert_eq!(
        offset_decision(GeometryKind::Polygon, false),
        OffsetDecision::CombinePolygonBuffers
    );
    assert_eq!(
        offset_decision(GeometryKind::MultiPoint, false),
        OffsetDecision::UnionMemberOffsets
    );
    assert_eq!(
        offset_decision(GeometryKind::MultiLineString, false),
        OffsetDecision::UnionMemberOffsets
    );
    assert_eq!(
        offset_decision(GeometryKind::MultiPolygon, false),
        OffsetDecision::UnionMemberOffsets
    );
    assert_eq!(
        offset_decision(GeometryKind::GeometryCollection, false),
        OffsetDecision::UnionMemberOffsets
    );
}

#[test]
fn dispatch_table_for_negative_distance() {
    assert_eq!(
        offset_decision(GeometryKind::Point, true),
        OffsetDecision::ReturnEmpty
    );
    assert_eq!(
        offset_decision(GeometryKind::Line, true),
        OffsetDecision::ReturnEmpty
    );
    assert_eq!(
        offset_decision(GeometryKind::LineString, true),
        OffsetDecision::ReturnEmpty
    );
    assert_eq!(
        offset_decision(GeometryKind::MultiPoint, true),
        OffsetDecision::ReturnEmpty
    );
    assert_eq!(
        offset_decision(GeometryKind::MultiLineString, true),
        OffsetDecision::ReturnEmpty
    );
    assert_eq!(
        offset_decision(GeometryKind::Polygon, true),
        OffsetDecision::CombinePolygonBuffers
    );
    assert_eq!(
        offset_decision(GeometryKind::MultiPolygon, true),
        OffsetDecision::UnionMemberOffsets
    );
    assert_eq!(
        offset_decision(GeometryKind::GeometryCollection, true),
        OffsetDecision::UnionMemberOffsets
    );
}

#[test]
fn unsupported_kind_is_rejected_either_way() {
    assert_eq!(
        offset_decision(GeometryKind::Unsupported, false),
        OffsetDecision::RejectUnknownGeometry
    );
    assert_eq!(
        offset_decision(GeometryKind::Unsupported, true),
        OffsetDecision::RejectUnknownGeometry
    );
    assert_eq!(unknown_geometry_error(), OffsetError::UnknownGeometry);
}

#[test]
fn degenerate_edge_error_carries_its_source() {
    let e = degenerate_edge_error();
    assert_eq!(e, OffsetError::EdgeError(EdgeError::DegenerateEdge));
    assert_eq!(e.source(), Some(EdgeError::DegenerateEdge));
    assert_eq!(OffsetError::UnknownGeometry.source(), None);
}

#[test]
fn error_messages() {
    assert_eq!(OffsetError::UnknownGeometry.message(), "Unknown geometry");
    assert_eq!(
        OffsetError::EdgeError(EdgeError::DegenerateEdge).message(),
        "Edge error: degenerate edge"
    );
}

#[test]
fn degenerate_edge_routes_to_point_fallback() {
    assert_eq!(edge_offset_route(false), EdgeOffsetRoute::PointFallback);
    assert_eq!(edge_offset_route(true), EdgeOffsetRoute::Capsule);
}

#[test]
fn polygon_combine_op_follows_sign() {
    assert_eq!(polygon_combine_op(true), CombineOp::Union);
    assert_eq!(polygon_combine_op(false), CombineOp::Difference);
}

#[test]
fn merge_plan_takes_first_as_shell_and_subtracts_the_rest() {
    let plan = line_string_merge_plan(3);
    assert_eq!(
        plan,
        vec![
            MergeStep::TakeAsShell(0),
            MergeStep::SubtractAsHole(1),
            MergeStep::SubtractAsHole(2),
        ]
    );
}

#[test]
fn outcome_walk_accepts_supported_nesting() {
    let model = GeometryModel::GeometryCollection(vec![
        GeometryModel::Point,
        GeometryModel::GeometryCollection(vec![
            GeometryModel::Polygon,
            GeometryModel::MultiLineString,
        ]),
        GeometryModel::MultiPolygon,
    ]);
    assert_eq!(offset_outcome(&model, false), Ok(()));
    assert_eq!(offset_outcome(&model, true), Ok(()));
}

#[test]
fn outcome_walk_fails_on_a_deeply_nested_unsupported_member() {
    let model = GeometryModel::GeometryCollection(vec![
        GeometryModel::Point,
        GeometryModel::GeometryCollection(vec![
            GeometryModel::LineString,
            GeometryModel::Unsupported,
        ]),
        GeometryModel::Point,
    ]);
    assert_eq!(
        offset_outcome(&model, false),
        Err(OffsetError::UnknownGeometry)
    );
    assert_eq!(
        offset_outcome(&GeometryModel::Unsupported, true),
        Err(OffsetError::UnknownGeometry)
    );
}

#[test]
fn node_kinds_follow_the_variants() {
    assert_eq!(node_kind(&GeometryModel::Point), GeometryKind::Point);
    assert_eq!(
        node_kind(&GeometryModel::GeometryCollection(vec![])),
        GeometryKind::GeometryCollection
    );
    assert_eq!(
        node_kind(&GeometryModel::Unsupported),
        GeometryKind::Unsupported
    );
}

#[test]
fn edge_decomposition_pairs_consecutive_vertices() {
    assert!(geo_offset::edge_index_pairs(0).is_empty());
    assert!(geo_offset::edge_index_pairs(1).is_empty());
    assert_eq!(geo_offset::edge_index_pairs(2), vec![(0, 1)]);
    assert_eq!(
        geo_offset::edge_index_pairs(5),
        vec![(0, 1), (1, 2), (2, 3), (3, 4)]
    );
}

#[test]
fn merge_plan_of_nothing_is_empty() {
    assert!(line_string_merge_plan(0).is_empty());
    assert_eq!(line_string_merge_plan(1), vec![MergeStep::TakeAsShell(0)]);
}
