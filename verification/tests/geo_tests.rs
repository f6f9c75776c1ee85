use tracker::geo::{area_to_lon_lat, lon_lat_to_area, GroundPoint, DEG, MAX_LAT, MAX_LON};

#[test]
fn scales_are_microdegrees() {
    assert_eq!(DEG, 1_000_000);
    assert_eq!(MAX_LON, 180 * DEG);
    assert_eq!(MAX_LAT, 90 * DEG);
}

#[test]
fn map_corner_cells() {
    // On a 360 x 180 cell map each cell is one degree.
    let top_left = area_to_lon_lat(0, 0, 360, 180);
    assert_eq!(top_left, GroundPoint { lon: -179 * DEG, lat: 89 * DEG });

    let bottom_right = area_to_lon_lat(359, 179, 360, 180);
    assert_eq!(bottom_right, GroundPoint { lon: 180 * DEG, lat: -90 * DEG });
}

#[test]
fn map_center_cell() {
    let center = area_to_lon_lat(179, 89, 360, 180);
    assert_eq!(center, GroundPoint { lon: 0, lat: 0 });
}

#[test]
fn inverse_mapping_examples() {
    assert_eq!(lon_lat_to_area(GroundPoint { lon: 0, lat: 0 }, 360, 180), (179, 89));
    assert_eq!(lon_lat_to_area(GroundPoint { lon: -MAX_LON, lat: MAX_LAT }, 360, 180), (0, 0));
    assert_eq!(lon_lat_to_area(GroundPoint { lon: MAX_LON, lat: -MAX_LAT }, 360, 180), (359, 179));
}

#[test]
fn inverse_mapping_round_trips_every_cell() {
    for x in 0..80 {
        for y in 0..24 {
            let p = area_to_lon_lat(x, y, 80, 24);
            assert_eq!(lon_lat_to_area(p, 80, 24), (x, y));
        }
    }
}

#[test]
fn odd_sized_map_rounds_down_and_stays_in_range() {
    let p = area_to_lon_lat(3, 2, 7, 5);
    assert_eq!(p.lon, -MAX_LON + 4 * 360 * DEG / 7);
    assert_eq!(p.lat, MAX_LAT - 3 * 180 * DEG / 5);
    for x in 0..7 {
        for y in 0..5 {
            let p = area_to_lon_lat(x, y, 7, 5);
            assert!(-MAX_LON <= p.lon && p.lon <= MAX_LON);
            assert!(-MAX_LAT <= p.lat && p.lat <= MAX_LAT);
        }
    }
}
