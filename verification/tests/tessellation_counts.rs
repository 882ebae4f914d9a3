use geo_offset::ArcVertex;
use geo_offset::CapsuleVertex;
use geo_offset::DEFAULT_ARC_SEGMENTS;
use geo_offset::capsule_plan;
use geo_offset::create_arc_plan;
use geo_offset::forced_odd_segment_count;
use geo_offset::point_contour_steps;
use geo_offset::point_vertex_count;

#[test]
fn even_segment_counts_are_forced_odd() {
    assert_eq!(forced_odd_segment_count(1), 1);
    assert_eq!(forced_odd_segment_count(2), 1);
    assert_eq!(forced_odd_segment_count(4), 3);
    assert_eq!(forced_odd_segment_count(5), 5);
    assert_eq!(forced_odd_segment_count(6), 5);
}

#[test]
fn point_contour_has_odd_vertex_count() {
    assert_eq!(point_vertex_count(DEFAULT_ARC_SEGMENTS), 11);
    assert_eq!(point_vertex_count(1), 3);
    assert_eq!(point_vertex_count(3), 7);
    assert_eq!(point_vertex_count(0), 1);
}

#[test]
fn point_contour_steps_start_one_increment_past_zero() {
    let steps = point_contour_steps(DEFAULT_ARC_SEGMENTS);
    assert_eq!(steps, vec![1, 2, 3, 4, 5, 6, 7, 8, 9, 10, 11]);
}

#[test]
fn arc_plan_keeps_the_seam_vertices_exactly() {
    let plan = create_arc_plan(5);
    assert_eq!(
        plan,
        vec![
            ArcVertex::Start,
            ArcVertex::Interior(1),
            ArcVertex::Interior(2),
            ArcVertex::Interior(3),
            ArcVertex::Interior(4),
            ArcVertex::End,
        ]
    );
}

#[test]
fn arc_plan_of_even_count_loses_one_segment() {
    let plan = create_arc_plan(4);
    assert_eq!(
        plan,
        vec![
            ArcVertex::Start,
            ArcVertex::Interior(1),
            ArcVertex::Interior(2),
            ArcVertex::End,
        ]
    );
}

#[test]
fn arc_plan_of_one_segment_is_just_the_seam() {
    let plan = create_arc_plan(1);
    assert_eq!(plan, vec![ArcVertex::Start, ArcVertex::End]);
}

#[test]
fn capsule_plan_is_two_full_caps() {
    let plan = capsule_plan(3);
    assert_eq!(
        plan,
        vec![
            CapsuleVertex::StartCap(ArcVertex::Start),
            CapsuleVertex::StartCap(ArcVertex::Interior(1)),
            CapsuleVertex::StartCap(ArcVertex::Interior(2)),
            CapsuleVertex::StartCap(ArcVertex::End),
            CapsuleVertex::EndCap(ArcVertex::Start),
            CapsuleVertex::EndCap(ArcVertex::Interior(1)),
            CapsuleVertex::EndCap(ArcVertex::Interior(2)),
            CapsuleVertex::EndCap(ArcVertex::End),
        ]
    );
}
