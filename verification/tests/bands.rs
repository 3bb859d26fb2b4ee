use zeroclaw::bands::{check_band_touch, check_channel_touch};

fn band(price: f64, upper: f64, lower: f64) -> &'static str {
    check_band_touch(price >= upper, price <= lower)
}

fn channel(price: f64, upper: f64, lower: f64) -> &'static str {
    check_channel_touch(price >= upper, price <= lower)
}

#[test]
fn test_band_touch() {
    // Price above upper = "upper"
    assert_eq!(band(110.0, 100.0, 90.0), "upper");
    // Price at upper = "upper" (touching)
    assert_eq!(band(100.0, 100.0, 90.0), "upper");
    // Price at lower = "lower" (touching)
    assert_eq!(band(90.0, 100.0, 90.0), "lower");
    // Price below lower = "lower"
    assert_eq!(band(85.0, 100.0, 90.0), "lower");
    // Price in middle
    assert_eq!(band(95.0, 100.0, 90.0), "middle");
}

#[test]
fn test_channel_touch() {
    assert_eq!(channel(110.0, 100.0, 90.0), "upper");
    assert_eq!(channel(90.0, 100.0, 90.0), "lower");
    assert_eq!(channel(95.0, 100.0, 90.0), "middle");
}

#[test]
fn upper_line_checked_first() {
    // A collapsed channel whose lines cross: the upper touch wins.
    assert_eq!(check_band_touch(true, true), "upper");
    assert_eq!(check_channel_touch(false, false), "middle");
}
