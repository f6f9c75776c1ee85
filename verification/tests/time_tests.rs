use tracker::time::julian_day_number;

#[test]
fn jdn_j2000_epoch() {
    // The J2000 epoch: noon on 2000-01-01 is Julian date 2451545.0, so the
    // day number is 2451545.
    assert_eq!(julian_day_number(2000, 1, 1), 2451545);
}

#[test]
fn jdn_sputnik_launch_day() {
    // 1957-10-04 starts at Julian date 2436115.5.
    assert_eq!(julian_day_number(1957, 10, 4), 2436116);
}

#[test]
fn jdn_first_gregorian_year() {
    assert_eq!(julian_day_number(1583, 1, 1), 2299239);
}

#[test]
fn jdn_counts_through_leap_day() {
    let feb28 = julian_day_number(2024, 2, 28);
    let feb29 = julian_day_number(2024, 2, 29);
    let mar01 = julian_day_number(2024, 3, 1);
    assert_eq!(feb29, feb28 + 1);
    assert_eq!(mar01, feb29 + 1);
}

#[test]
fn jdn_year_rollover() {
    let dec31 = julian_day_number(1999, 12, 31);
    let jan01 = julian_day_number(2000, 1, 1);
    assert_eq!(jan01, dec31 + 1);
}
