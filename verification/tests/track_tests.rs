use tracker::geo::GroundPoint;
use tracker::object::{ElementRecord, Object};
use tracker::track::{sample_offsets, track_segments};

fn object_with_mean_motion(mean_motion: u64) -> Object {
    Object::from_elements(ElementRecord {
        object_name: "SAT".to_string(),
        international_designator: "2021-035A".to_string(),
        norad_id: 1,
        epoch_seconds: 1_700_000_000,
        drag_term: 0,
        inclination: 0,
        right_ascension: 0,
        eccentricity: 0,
        argument_of_perigee: 0,
        mean_anomaly: 0,
        mean_motion,
        revolution_number: 0,
    })
    .unwrap()
}

fn point(lon: i64, lat: i64) -> GroundPoint {
    GroundPoint { lon, lat }
}

#[test]
fn ninety_minute_period_yields_89_interior_samples() {
    // 16 revolutions per day is a 90-minute period: interior offsets are
    // minutes 1..=89, the current-time point being the caller's.
    let object = object_with_mean_motion(16_000_000_000);
    let offsets = sample_offsets(&object);
    assert_eq!(offsets.len(), 89);
    assert_eq!(offsets[0], 1);
    assert_eq!(offsets[88], 89);
}

#[test]
fn sub_minute_period_yields_no_samples() {
    // 1441 revolutions per day: the period is under one minute.
    let object = object_with_mean_motion(1_441_000_000_000);
    assert!(sample_offsets(&object).is_empty());
}

#[test]
fn antimeridian_pair_splits_into_two_short_segments() {
    // Consecutive samples at 179.9 deg and -179.8 deg east: two segments,
    // each spanning well under 180 degrees, neither crossing the
    // discontinuity directly.
    let p1 = point(179_900_000, 10_000_000);
    let p2 = point(-179_800_000, 12_000_000);
    let segs = track_segments(&vec![p1, p2]);
    assert_eq!(segs.len(), 2);

    assert_eq!(segs[0].a, p1);
    assert_eq!(segs[0].b, point(180_000_000, 12_000_000));
    assert_eq!(segs[1].a, point(-180_000_000, 10_000_000));
    assert_eq!(segs[1].b, p2);

    for seg in &segs {
        assert!((seg.a.lon - seg.b.lon).abs() < 180_000_000);
    }
}

#[test]
fn westward_crossing_clamps_at_western_edge() {
    let p1 = point(-179_500_000, -5_000_000);
    let p2 = point(179_000_000, -6_000_000);
    let segs = track_segments(&vec![p1, p2]);
    assert_eq!(segs.len(), 2);
    assert_eq!(segs[0].a, p1);
    assert_eq!(segs[0].b, point(-180_000_000, -6_000_000));
    assert_eq!(segs[1].a, point(180_000_000, -5_000_000));
    assert_eq!(segs[1].b, p2);
}

#[test]
fn prime_meridian_to_antimeridian_pair_keeps_the_span_invariant() {
    // A first sample exactly on the prime meridian and a second exactly on
    // -180 deg: the 180-degree-wide pair counts as a crossing, clamped
    // toward the side it leaves from, so neither piece spans over 180 deg.
    let p1 = point(0, 10_000_000);
    let p2 = point(-180_000_000, 12_000_000);
    let segs = track_segments(&vec![p1, p2]);
    assert_eq!(segs.len(), 2);
    assert_eq!(segs[0].a, p1);
    assert_eq!(segs[0].b, point(180_000_000, 12_000_000));
    assert_eq!(segs[1].a, point(-180_000_000, 10_000_000));
    assert_eq!(segs[1].b, p2);
    for seg in &segs {
        assert!((seg.a.lon - seg.b.lon).abs() <= 180_000_000);
    }
}

#[test]
fn latitude_jump_drops_the_single_pair() {
    // A >= 90 degree latitude jump between one-minute samples is a
    // propagation anomaly: that pair is dropped, the rest survive.
    let p1 = point(10_000_000, 80_000_000);
    let p2 = point(11_000_000, -80_000_000);
    let p3 = point(12_000_000, -79_000_000);
    let segs = track_segments(&vec![p1, p2, p3]);
    assert_eq!(segs.len(), 1);
    assert_eq!(segs[0].a, p2);
    assert_eq!(segs[0].b, p3);
}

#[test]
fn plain_consecutive_pair_is_one_segment() {
    let p1 = point(10_000_000, 20_000_000);
    let p2 = point(11_000_000, 21_000_000);
    let segs = track_segments(&vec![p1, p2]);
    assert_eq!(segs.len(), 1);
    assert_eq!(segs[0].a, p1);
    assert_eq!(segs[0].b, p2);
}

#[test]
fn fewer_than_two_points_give_no_segments() {
    assert!(track_segments(&Vec::new()).is_empty());
    assert!(track_segments(&vec![point(0, 0)]).is_empty());
}
