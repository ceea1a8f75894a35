use tinifycli::report::{decimal_string, format_centi_percent, ratio_centi_percent};

#[test]
fn ratio_of_half_is_fifty_percent() {
    let v = ratio_centi_percent(50, 100);
    assert_eq!(v, 5000);
    assert_eq!(format_centi_percent(v), "50.00");
}

#[test]
fn ratio_rounds_to_the_nearest_hundredth() {
    let down = ratio_centi_percent(1, 3);
    assert_eq!(down, 3333);
    assert_eq!(format_centi_percent(down), "33.33");
    let up = ratio_centi_percent(2, 3);
    assert_eq!(up, 6667);
    assert_eq!(format_centi_percent(up), "66.67");
}

#[test]
fn ratio_of_equal_sizes_is_one_hundred_percent() {
    let v = ratio_centi_percent(100, 100);
    assert_eq!(v, 10000);
    assert_eq!(format_centi_percent(v), "100.00");
}

#[test]
fn ratio_of_zero_compressed_bytes() {
    let v = ratio_centi_percent(0, 7);
    assert_eq!(v, 0);
    assert_eq!(format_centi_percent(v), "0.00");
}

#[test]
fn ratio_below_one_percent_keeps_leading_zero() {
    let v = ratio_centi_percent(1, 1600);
    assert_eq!(v, 6);
    assert_eq!(format_centi_percent(v), "0.06");
}

#[test]
fn ratio_over_one_hundred_percent() {
    let v = ratio_centi_percent(3, 2);
    assert_eq!(v, 15000);
    assert_eq!(format_centi_percent(v), "150.00");
}

#[test]
fn decimal_rendering() {
    assert_eq!(decimal_string(0), "0");
    assert_eq!(decimal_string(9), "9");
    assert_eq!(decimal_string(10), "10");
    assert_eq!(decimal_string(12345), "12345");
}
