use tracker::object::{objects_from_elements, ElementRecord, Object};

fn record(name: &str, norad_id: u64, mean_motion: u64) -> ElementRecord {
    ElementRecord {
        object_name: name.to_string(),
        international_designator: "1998-067A".to_string(),
        norad_id,
        epoch_seconds: 1_700_000_000,
        drag_term: 35_210,
        inclination: 51_640_000,
        right_ascension: 208_930_000,
        eccentricity: 678_900,
        argument_of_perigee: 69_380_000,
        mean_anomaly: 25_560_000,
        mean_motion,
        revolution_number: 42_586,
    }
}

#[test]
fn zero_mean_motion_is_rejected_at_construction() {
    // A non-physical element set fails construction, before any period
    // computation could divide by zero.
    let result = Object::from_elements(record("BAD", 1, 0));
    assert!(result.is_err());
}

#[test]
fn physical_record_constructs() {
    let object = Object::from_elements(record("ISS (ZARYA)", 25544, 15_500_000_000)).unwrap();
    assert_eq!(object.name(), "ISS (ZARYA)");
    assert_eq!(object.cospar_id(), "1998-067A");
    assert_eq!(object.norad_id(), 25544);
    assert_eq!(object.epoch(), 1_700_000_000);
    assert_eq!(object.drag_term(), 35_210);
    assert_eq!(object.inclination(), 51_640_000);
    assert_eq!(object.right_ascension(), 208_930_000);
    assert_eq!(object.eccentricity(), 678_900);
    assert_eq!(object.argument_of_perigee(), 69_380_000);
    assert_eq!(object.mean_anomaly(), 25_560_000);
    assert_eq!(object.mean_motion(), 15_500_000_000);
    assert_eq!(object.revolution_number(), 42_586);
}

#[test]
fn elapsed_time_may_precede_epoch() {
    let object = Object::from_elements(record("SAT", 1, 16_000_000_000)).unwrap();
    assert_eq!(object.seconds_since_epoch(1_700_000_060), 60);
    assert_eq!(object.seconds_since_epoch(1_699_999_940), -60);
}

#[test]
fn orbital_period_sixteen_revolutions() {
    // 16 revolutions per day: one orbit every 90 minutes.
    let object = Object::from_elements(record("SAT", 1, 16_000_000_000)).unwrap();
    assert_eq!(object.orbital_period(), 5400);
    assert_eq!(object.orbital_period_minutes(), 90);
}

#[test]
fn orbital_period_rounds_down() {
    // 15.5 revolutions per day: 92.9 minutes, truncated to whole units.
    let object = Object::from_elements(record("SAT", 1, 15_500_000_000)).unwrap();
    assert_eq!(object.orbital_period(), 86400 * 2 / 31);
    assert_eq!(object.orbital_period_minutes(), 92);
}

#[test]
fn invalid_record_is_dropped_alone() {
    // One bad record drops that object only; the rest keep catalog order.
    let records = vec![
        record("A", 100, 16_000_000_000),
        record("B", 200, 0),
        record("C", 300, 2_000_000_000),
    ];
    let objects = objects_from_elements(records);
    assert_eq!(objects.len(), 2);
    assert_eq!(objects[0].norad_id(), 100);
    assert_eq!(objects[1].norad_id(), 300);
}

#[test]
fn no_records_no_objects() {
    let objects = objects_from_elements(Vec::new());
    assert!(objects.is_empty());
}
