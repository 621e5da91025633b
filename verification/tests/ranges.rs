use enontekio::ops::ranges::{Intersect, IntersectionDescription, RangeDescriptor};

fn bounded(start: i64, end: i64) -> RangeDescriptor {
    RangeDescriptor::bounded(start, end)
}

fn inclusive(start: i64, end: i64) -> RangeDescriptor {
    RangeDescriptor::bounded_inclusive(start, end)
}

#[test]
pub fn test_range_intersect() {
    let a = bounded(3, 10);
    assert_eq!(a.describe_intersection(&bounded(11, 11)), IntersectionDescription::Below);
    assert_eq!(a.describe_intersection(&bounded(10, 11)), IntersectionDescription::Below);
    assert_eq!(a.describe_intersection(&bounded(9, 11)), IntersectionDescription::BelowOverlap);
    assert_eq!(a.describe_intersection(&bounded(9, 10)), IntersectionDescription::Over);
    assert_eq!(a.describe_intersection(&bounded(3, 10)), IntersectionDescription::Same);
    assert_eq!(a.describe_intersection(&bounded(5, 9)), IntersectionDescription::Over);
    assert_eq!(a.describe_intersection(&bounded(3, 9)), IntersectionDescription::Over);
    assert_eq!(a.describe_intersection(&bounded(2, 11)), IntersectionDescription::Within);
    assert_eq!(a.describe_intersection(&bounded(3, 11)), IntersectionDescription::Within);
    assert_eq!(a.describe_intersection(&bounded(2, 9)), IntersectionDescription::AboveOverlap);
    assert_eq!(a.describe_intersection(&bounded(2, 3)), IntersectionDescription::Above);
    assert_eq!(a.describe_intersection(&bounded(1, 2)), IntersectionDescription::Above);

    assert_eq!(
        a.describe_intersection(&RangeDescriptor::from_start(11)),
        IntersectionDescription::Below
    );
    assert_eq!(
        a.describe_intersection(&RangeDescriptor::from_start(10)),
        IntersectionDescription::Below
    );
    assert_eq!(
        a.describe_intersection(&RangeDescriptor::from_start(9)),
        IntersectionDescription::BelowOverlap
    );
    assert_eq!(
        a.describe_intersection(&RangeDescriptor::from_start(3)),
        IntersectionDescription::Within
    );
    assert_eq!(
        a.describe_intersection(&RangeDescriptor::from_start(2)),
        IntersectionDescription::Within
    );

    assert_eq!(
        a.describe_intersection(&RangeDescriptor::unbounded()),
        IntersectionDescription::Within
    );

    assert_eq!(a.describe_intersection(&RangeDescriptor::up_to(11)), IntersectionDescription::Within);
    assert_eq!(a.describe_intersection(&RangeDescriptor::up_to(10)), IntersectionDescription::Within);
    assert_eq!(
        a.describe_intersection(&RangeDescriptor::up_to(9)),
        IntersectionDescription::AboveOverlap
    );
    assert_eq!(a.describe_intersection(&RangeDescriptor::up_to(3)), IntersectionDescription::Above);
    assert_eq!(a.describe_intersection(&RangeDescriptor::up_to(2)), IntersectionDescription::Above);
}

#[test]
pub fn test_inclusive_range_intersect() {
    let a = inclusive(3, 9);
    assert_eq!(a.describe_intersection(&bounded(11, 11)), IntersectionDescription::Below);
    assert_eq!(a.describe_intersection(&bounded(10, 11)), IntersectionDescription::Below);
    assert_eq!(a.describe_intersection(&bounded(9, 11)), IntersectionDescription::BelowOverlap);
    assert_eq!(a.describe_intersection(&bounded(9, 10)), IntersectionDescription::Over);
    assert_eq!(a.describe_intersection(&bounded(3, 10)), IntersectionDescription::Same);
    assert_eq!(a.describe_intersection(&bounded(5, 9)), IntersectionDescription::Over);
    assert_eq!(a.describe_intersection(&bounded(3, 9)), IntersectionDescription::Over);
    assert_eq!(a.describe_intersection(&bounded(2, 11)), IntersectionDescription::Within);
    assert_eq!(a.describe_intersection(&bounded(3, 11)), IntersectionDescription::Within);
    assert_eq!(a.describe_intersection(&bounded(2, 9)), IntersectionDescription::AboveOverlap);
    assert_eq!(a.describe_intersection(&bounded(2, 3)), IntersectionDescription::Above);
    assert_eq!(a.describe_intersection(&bounded(1, 2)), IntersectionDescription::Above);

    assert_eq!(
        a.describe_intersection(&RangeDescriptor::from_start(11)),
        IntersectionDescription::Below
    );
    assert_eq!(
        a.describe_intersection(&RangeDescriptor::from_start(10)),
        IntersectionDescription::Below
    );
    assert_eq!(
        a.describe_intersection(&RangeDescriptor::from_start(9)),
        IntersectionDescription::BelowOverlap
    );
    assert_eq!(
        a.describe_intersection(&RangeDescriptor::from_start(3)),
        IntersectionDescription::Within
    );
    assert_eq!(
        a.describe_intersection(&RangeDescriptor::from_start(2)),
        IntersectionDescription::Within
    );

    assert_eq!(
        a.describe_intersection(&RangeDescriptor::unbounded()),
        IntersectionDescription::Within
    );

    assert_eq!(a.describe_intersection(&RangeDescriptor::up_to(11)), IntersectionDescription::Within);
    assert_eq!(a.describe_intersection(&RangeDescriptor::up_to(10)), IntersectionDescription::Within);
    assert_eq!(
        a.describe_intersection(&RangeDescriptor::up_to(9)),
        IntersectionDescription::AboveOverlap
    );
    assert_eq!(a.describe_intersection(&RangeDescriptor::up_to(3)), IntersectionDescription::Above);
    assert_eq!(a.describe_intersection(&RangeDescriptor::up_to(2)), IntersectionDescription::Above);
}

#[test]
pub fn test_range_intersect_with_inclusive_range() {
    let a = bounded(3, 10);
    assert_eq!(a.describe_intersection(&inclusive(11, 10)), IntersectionDescription::Below);
    assert_eq!(a.describe_intersection(&inclusive(10, 10)), IntersectionDescription::Below);
    assert_eq!(a.describe_intersection(&inclusive(9, 10)), IntersectionDescription::BelowOverlap);
    assert_eq!(a.describe_intersection(&inclusive(9, 9)), IntersectionDescription::Over);
    assert_eq!(a.describe_intersection(&inclusive(3, 9)), IntersectionDescription::Same);
    assert_eq!(a.describe_intersection(&inclusive(5, 8)), IntersectionDescription::Over);
    assert_eq!(a.describe_intersection(&inclusive(3, 8)), IntersectionDescription::Over);
    assert_eq!(a.describe_intersection(&inclusive(2, 10)), IntersectionDescription::Within);
    assert_eq!(a.describe_intersection(&inclusive(3, 10)), IntersectionDescription::Within);
    assert_eq!(a.describe_intersection(&inclusive(2, 8)), IntersectionDescription::AboveOverlap);
    assert_eq!(a.describe_intersection(&inclusive(2, 2)), IntersectionDescription::Above);
    assert_eq!(a.describe_intersection(&inclusive(1, 1)), IntersectionDescription::Above);
}

#[test]
pub fn test_inclusive_range_intersect_with_inclusive_range() {
    let a = inclusive(3, 9);
    assert_eq!(a.describe_intersection(&inclusive(11, 10)), IntersectionDescription::Below);
    assert_eq!(a.describe_intersection(&inclusive(10, 10)), IntersectionDescription::Below);
    assert_eq!(a.describe_intersection(&inclusive(9, 10)), IntersectionDescription::BelowOverlap);
    assert_eq!(a.describe_intersection(&inclusive(9, 9)), IntersectionDescription::Over);
    assert_eq!(a.describe_intersection(&inclusive(3, 9)), IntersectionDescription::Same);
    assert_eq!(a.describe_intersection(&inclusive(5, 8)), IntersectionDescription::Over);
    assert_eq!(a.describe_intersection(&inclusive(3, 8)), IntersectionDescription::Over);
    assert_eq!(a.describe_intersection(&inclusive(2, 10)), IntersectionDescription::Within);
    assert_eq!(a.describe_intersection(&inclusive(3, 10)), IntersectionDescription::Within);
    assert_eq!(a.describe_intersection(&inclusive(2, 8)), IntersectionDescription::AboveOverlap);
    assert_eq!(a.describe_intersection(&inclusive(2, 2)), IntersectionDescription::Above);
    assert_eq!(a.describe_intersection(&inclusive(1, 1)), IntersectionDescription::Above);
}

#[test]
fn test_inclusive_self_normalizes_to_matching_half_open() {
    assert_eq!(
        inclusive(3, 10).describe_intersection(&bounded(3, 11)),
        IntersectionDescription::Same
    );
}

#[test]
fn test_inclusive_other_end() {
    let a = bounded(3, 10);
    assert_eq!(
        a.describe_intersection(&RangeDescriptor::up_to_inclusive(9)),
        IntersectionDescription::Within
    );
    assert_eq!(
        a.describe_intersection(&RangeDescriptor::up_to_inclusive(8)),
        IntersectionDescription::AboveOverlap
    );
    assert_eq!(
        a.describe_intersection(&RangeDescriptor::up_to_inclusive(2)),
        IntersectionDescription::Above
    );
}

#[test]
fn test_degenerate_empty_range_within_wider_range() {
    assert_eq!(
        bounded(5, 5).describe_intersection(&bounded(3, 10)),
        IntersectionDescription::Within
    );
}

#[test]
fn test_degenerate_empty_range_on_boundary_is_below() {
    assert_eq!(
        bounded(3, 3).describe_intersection(&bounded(3, 10)),
        IntersectionDescription::Below
    );
}

#[test]
fn test_classify_against_itself_is_same() {
    let ranges = vec![bounded(3, 10), bounded(5, 5), inclusive(0, 0), bounded(-4, 2)];
    for range in ranges {
        assert_eq!(range.describe_intersection(&range), IntersectionDescription::Same);
    }
}

#[test]
fn test_same_is_symmetric() {
    let a = inclusive(3, 9);
    let b = bounded(3, 10);
    assert_eq!(a.describe_intersection(&b), IntersectionDescription::Same);
    assert_eq!(b.describe_intersection(&a), IntersectionDescription::Same);

    let c = bounded(4, 10);
    assert_ne!(a.describe_intersection(&c), IntersectionDescription::Same);
    assert_ne!(c.describe_intersection(&a), IntersectionDescription::Same);
}

#[test]
fn test_is_within_matches_boundary_containment() {
    let a = bounded(3, 10);
    let cases = vec![
        (bounded(3, 10), true),
        (bounded(2, 11), true),
        (bounded(3, 11), true),
        (bounded(4, 10), false),
        (bounded(2, 9), false),
        (RangeDescriptor::from_start(3), true),
        (RangeDescriptor::up_to(10), true),
        (RangeDescriptor::unbounded(), true),
    ];
    for (other, contained) in cases {
        assert_eq!(a.describe_intersection(&other).is_within(), contained);
    }
}

#[test]
fn test_intersection_queries() {
    assert!(!IntersectionDescription::Below.is_any());
    assert!(!IntersectionDescription::Above.is_any());
    assert!(IntersectionDescription::BelowOverlap.is_any());
    assert!(IntersectionDescription::Within.is_any());
    assert!(IntersectionDescription::Same.is_any());
    assert!(IntersectionDescription::Over.is_any());
    assert!(IntersectionDescription::AboveOverlap.is_any());

    assert!(IntersectionDescription::Within.is_within());
    assert!(IntersectionDescription::Same.is_within());
    assert!(!IntersectionDescription::Over.is_within());
    assert!(!IntersectionDescription::Below.is_within());

    assert!(IntersectionDescription::Over.is_over());
    assert!(IntersectionDescription::Same.is_over());
    assert!(!IntersectionDescription::Within.is_over());
    assert!(!IntersectionDescription::AboveOverlap.is_over());
}

#[test]
fn test_extreme_axis_values() {
    let widest = inclusive(i64::MIN, i64::MAX - 1);
    assert_eq!(
        widest.describe_intersection(&RangeDescriptor::unbounded()),
        IntersectionDescription::Within
    );
    assert_eq!(
        widest.describe_intersection(&bounded(i64::MIN, i64::MAX)),
        IntersectionDescription::Same
    );
}

#[test]
fn test_negative_axis_values() {
    assert_eq!(
        bounded(-10, -3).describe_intersection(&bounded(-11, -2)),
        IntersectionDescription::Within
    );
    assert_eq!(
        bounded(-10, -3).describe_intersection(&bounded(-3, 4)),
        IntersectionDescription::Below
    );
}
