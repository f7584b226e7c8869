use range_beacon::indicator::{indicator_frame, IndicatorColor, Rgb, INDICATOR_BRIGHTNESS};
use range_beacon::sensor::classify;
use range_beacon::DISTANCE_THRESHOLD_MM;

#[test]
fn classify_below_threshold_is_alert() {
    assert_eq!(classify(0), IndicatorColor::Alert);
    assert_eq!(classify(150), IndicatorColor::Alert);
    assert_eq!(classify(199), IndicatorColor::Alert);
}

#[test]
fn classify_boundary_is_clear() {
    assert_eq!(DISTANCE_THRESHOLD_MM, 200);
    assert_eq!(classify(200), IndicatorColor::Clear);
}

#[test]
fn classify_above_threshold_is_clear() {
    assert_eq!(classify(201), IndicatorColor::Clear);
    assert_eq!(classify(250), IndicatorColor::Clear);
    assert_eq!(classify(u32::MAX), IndicatorColor::Clear);
}

#[test]
fn alert_frame_is_scaled_green() {
    // Full green 255 stays 255 through the gamma table, then is scaled to
    // 255 * (10 + 1) / 256 == 10.
    let f = indicator_frame(IndicatorColor::Alert, INDICATOR_BRIGHTNESS);
    assert_eq!(f, Rgb { r: 0, g: 10, b: 0 });
}

#[test]
fn clear_frame_is_scaled_red() {
    let f = indicator_frame(IndicatorColor::Clear, INDICATOR_BRIGHTNESS);
    assert_eq!(f, Rgb { r: 10, g: 0, b: 0 });
}

#[test]
fn off_frame_is_black() {
    let f = indicator_frame(IndicatorColor::Off, INDICATOR_BRIGHTNESS);
    assert_eq!(f, Rgb { r: 0, g: 0, b: 0 });
}
