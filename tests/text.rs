use sauna_plan::text::{area_string, integer_string, metres_2dp_string, metres_string};

#[test]
fn two_decimal_metres() {
    assert_eq!(metres_2dp_string(2260), "2.26m");
    assert_eq!(metres_2dp_string(8610), "8.61m");
    assert_eq!(metres_2dp_string(1000), "1.00m");
    assert_eq!(metres_2dp_string(0), "0.00m");
    assert_eq!(metres_2dp_string(50), "0.05m");
    assert_eq!(metres_2dp_string(12345), "12.35m");
    assert_eq!(metres_2dp_string(1004), "1.00m");
    assert_eq!(metres_2dp_string(-2260), "-2.26m");
}

#[test]
fn one_decimal_square_metres() {
    assert_eq!(area_string(5_292_000), "5.3 m²");
    assert_eq!(area_string(2_835_000), "2.8 m²");
    assert_eq!(area_string(8_610_000), "8.6 m²");
    assert_eq!(area_string(0), "0.0 m²");
    assert_eq!(area_string(10_950_000), "11.0 m²");
    assert_eq!(area_string(-1_000_000), "-1.0 m²");
}

#[test]
fn shortest_metres() {
    assert_eq!(metres_string(2000), "2");
    assert_eq!(metres_string(2500), "2.5");
    assert_eq!(metres_string(2260), "2.26");
    assert_eq!(metres_string(2005), "2.005");
    assert_eq!(metres_string(150), "0.15");
    assert_eq!(metres_string(-1200), "-1.2");
}

#[test]
fn integers() {
    assert_eq!(integer_string(150), "150");
    assert_eq!(integer_string(0), "0");
    assert_eq!(integer_string(-42), "-42");
    assert_eq!(integer_string(1_000_000), "1000000");
}
