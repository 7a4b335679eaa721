use weather_report::compass::{
    compass_point, compass_sector, get_wind_direction, wind_direction_label, FULL_TURN,
    HALF_SECTOR, SECTOR_WIDTH,
};

#[test]
fn north_at_zero_degrees() {
    assert_eq!(get_wind_direction(0), "N");
}

#[test]
fn north_at_a_full_turn() {
    assert_eq!(get_wind_direction(36000), "N");
}

#[test]
fn north_just_below_its_upper_edge() {
    assert_eq!(get_wind_direction(1124), "N");
}

#[test]
fn north_north_east_just_above_the_edge() {
    assert_eq!(get_wind_direction(1126), "NNE");
}

#[test]
fn the_edge_itself_belongs_to_the_next_sector() {
    assert_eq!(get_wind_direction(1125), "NNE");
    assert_eq!(get_wind_direction(3375), "NE");
}

#[test]
fn north_from_348_75_degrees() {
    assert_eq!(get_wind_direction(34875), "N");
    assert_eq!(get_wind_direction(34874), "NNW");
}

#[test]
fn south_at_180_degrees() {
    assert_eq!(get_wind_direction(18000), "S");
}

#[test]
fn east_at_90_degrees() {
    assert_eq!(get_wind_direction(9000), "E");
}

#[test]
fn sixteen_points_in_clockwise_order() {
    let names = [
        "N", "NNE", "NE", "ENE", "E", "ESE", "SE", "SSE", "S", "SSW", "SW", "WSW", "W", "WNW",
        "NW", "NNW",
    ];
    for (k, name) in names.iter().enumerate() {
        assert_eq!(compass_point(k), *name);
        let centre = k as i32 * 2250;
        assert_eq!(compass_sector(centre), k);
        assert_eq!(get_wind_direction(centre), *name);
        assert_eq!(get_wind_direction(centre - 1125), *name);
        assert_eq!(get_wind_direction(centre + 1124), *name);
    }
}

#[test]
fn sector_constants() {
    assert_eq!(FULL_TURN, 36000);
    assert_eq!(SECTOR_WIDTH, 2250);
    assert_eq!(HALF_SECTOR, 1125);
    assert_eq!(SECTOR_WIDTH * 16, FULL_TURN);
}

#[test]
fn sector_is_always_below_sixteen() {
    let mut bearing: i32 = -100_000;
    while bearing <= 100_000 {
        assert!(compass_sector(bearing) < 16);
        bearing += 37;
    }
    assert!(compass_sector(i32::MAX) < 16);
    assert!(compass_sector(i32::MIN) < 16);
}

#[test]
fn whole_turns_do_not_change_the_direction() {
    let mut bearing: i32 = 0;
    while bearing < 36000 {
        let name = get_wind_direction(bearing);
        assert_eq!(get_wind_direction(bearing + 36000), name);
        assert_eq!(get_wind_direction(bearing - 36000), name);
        assert_eq!(get_wind_direction(bearing + 720_000), name);
        bearing += 125;
    }
}

#[test]
fn negative_bearings_are_read_counter_clockwise() {
    assert_eq!(get_wind_direction(-1), "N");
    assert_eq!(get_wind_direction(-1125), "N");
    assert_eq!(get_wind_direction(-1126), "NNW");
    assert_eq!(get_wind_direction(-2000), "NNW");
    assert_eq!(get_wind_direction(-9000), "W");
    assert_eq!(get_wind_direction(-18000), "S");
}

#[test]
fn extreme_bearings_have_a_direction() {
    // 2147483647 = 59652 turns + 11647 hundredths, which lies in the sector of ESE.
    assert_eq!(compass_sector(i32::MAX), 5);
    assert_eq!(get_wind_direction(i32::MAX), "ESE");
    // -2147483648 = -59653 turns + 24352 hundredths, which lies in the sector of WSW.
    assert_eq!(compass_sector(i32::MIN), 11);
    assert_eq!(get_wind_direction(i32::MIN), "WSW");
}

#[test]
fn missing_bearing_shows_a_dash() {
    assert_eq!(wind_direction_label(None), "-");
}

#[test]
fn present_bearing_shows_its_point() {
    assert_eq!(wind_direction_label(Some(9000)), "E");
    assert_eq!(wind_direction_label(Some(0)), "N");
    assert_eq!(wind_direction_label(Some(22500)), "SW");
}
