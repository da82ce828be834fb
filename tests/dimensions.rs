use sauna_plan::dimensions::{
    deck_area, outdoor_area, sauna_area, seating_area, total_floor_area, wash_area, Dimensions,
    ENCLOSED_WIDTH, TOTAL_WIDTH,
};

#[test]
fn standard_widths_add_up() {
    let d = Dimensions::standard();
    assert_eq!(d.enclosed_width(), 2260 + 1200 + 1500);
    assert_eq!(d.enclosed_width(), 4960);
    assert_eq!(d.total_width(), 4960 + 3650);
    assert_eq!(d.total_width(), 8610);
    assert_eq!(ENCLOSED_WIDTH, 4960);
    assert_eq!(TOTAL_WIDTH, 8610);
}

#[test]
fn perturbed_widths_recompute() {
    let mut d = Dimensions::standard();
    d.wash_width = 1450;
    d.outdoor_seating_width = 2000;
    assert_eq!(d.enclosed_width(), 2260 + 1450 + 1500);
    assert_eq!(d.total_width(), 2260 + 1450 + 1500 + 2000);
}

#[test]
fn room_areas_of_standard_building() {
    let d = Dimensions::standard();
    // (2.26 - 0.30) x (3.00 - 0.30)
    assert_eq!(sauna_area(&d), 1960 * 2700);
    // (1.20 - 0.15) x 2.70
    assert_eq!(wash_area(&d), 1050 * 2700);
    assert_eq!(seating_area(&d), 1350 * 2700);
    assert_eq!(outdoor_area(&d), 3650 * 3000);
    assert_eq!(deck_area(&d), 8610 * 1000);
}

#[test]
fn total_area_is_sum_of_parts() {
    let d = Dimensions::standard();
    let sum = sauna_area(&d) + wash_area(&d) + seating_area(&d) + outdoor_area(&d) + deck_area(&d);
    assert_eq!(total_floor_area(&d), sum);
    assert_eq!(total_floor_area(&d), 5_292_000 + 2_835_000 + 3_645_000 + 10_950_000 + 8_610_000);
}

#[test]
fn total_area_is_sum_of_parts_for_other_dimensions() {
    let mut d = Dimensions::standard();
    d.sauna_width = 3000;
    d.building_depth = 4000;
    d.wall_thickness = 200;
    d.deck_depth = 1500;
    let sum = sauna_area(&d) + wash_area(&d) + seating_area(&d) + outdoor_area(&d) + deck_area(&d);
    assert_eq!(total_floor_area(&d), sum);
    assert_eq!(sauna_area(&d), (3000 - 400) * (4000 - 400));
}

#[test]
fn hot_tub_radius_is_half_diameter() {
    let d = Dimensions::standard();
    assert_eq!(d.hot_tub_radius(), 1000);
}

#[test]
fn limits_accept_standard_and_reject_huge() {
    let d = Dimensions::standard();
    assert!(d.within_limits());
    let mut big = d;
    big.deck_depth = 100_000_001;
    assert!(!big.within_limits());
    let mut negative = d;
    negative.wall_thickness = -100_000_001;
    assert!(!negative.within_limits());
    let mut zero = d;
    zero.door_width = 0;
    assert!(zero.within_limits());
}
