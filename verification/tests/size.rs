use yukumo::size::size_to_text;

#[test]
fn bytes_are_rendered_exactly() {
    assert_eq!(size_to_text(0), "0B");
    assert_eq!(size_to_text(1), "1B");
    assert_eq!(size_to_text(999), "999B");
}

#[test]
fn each_unit_scales_by_a_power_of_1000() {
    assert_eq!(size_to_text(1000), "1.0KB");
    assert_eq!(size_to_text(1_500_000), "1.5MB");
    assert_eq!(size_to_text(1_000_000_000), "1.0GB");
    assert_eq!(size_to_text(1_000_000_000_000), "1.0TB");
}

#[test]
fn boundaries_are_strict() {
    assert_eq!(size_to_text(999), "999B");
    assert_eq!(size_to_text(1000), "1.0KB");
    assert_eq!(size_to_text(999_999), "1000.0KB");
    assert_eq!(size_to_text(1_000_000), "1.0MB");
    assert_eq!(size_to_text(999_999_999), "1000.0MB");
    assert_eq!(size_to_text(1_000_000_000), "1.0GB");
}

#[test]
fn tenths_round_to_nearest() {
    assert_eq!(size_to_text(2048), "2.0KB");
    assert_eq!(size_to_text(1949), "1.9KB");
    assert_eq!(size_to_text(1950), "2.0KB");
    assert_eq!(size_to_text(1049), "1.0KB");
    assert_eq!(size_to_text(1051), "1.1KB");
    assert_eq!(size_to_text(123_456_789), "123.5MB");
}
