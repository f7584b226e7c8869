use range_beacon::indicator::{transform_pixel, Rgb};

fn transform_via_driver_crate(c: Rgb, level: u8) -> Rgb {
    let pixel = smart_leds::RGB8 { r: c.r, g: c.g, b: c.b };
    let out = smart_leds::brightness(smart_leds::gamma(core::iter::once(pixel)), level)
        .next()
        .unwrap();
    Rgb { r: out.r, g: out.g, b: out.b }
}

#[test]
fn transform_matches_driver_crate() {
    let samples = [
        Rgb { r: 0, g: 0, b: 0 },
        Rgb { r: 1, g: 2, b: 3 },
        Rgb { r: 127, g: 128, b: 129 },
        Rgb { r: 200, g: 100, b: 50 },
        Rgb { r: 255, g: 255, b: 255 },
    ];
    let levels = [0u8, 1, 10, 100, 255];
    for c in samples {
        for level in levels {
            assert_eq!(transform_pixel(c, level), transform_via_driver_crate(c, level));
        }
    }
}

#[test]
fn gamma_correction_bends_midtones() {
    // At level 255 the brightness scaling is the identity, so the output
    // is the gamma table alone — and the table is far from the identity
    // in the midtones.
    let out = transform_pixel(Rgb { r: 127, g: 127, b: 127 }, 255);
    assert_ne!(out.r, 127);
    assert!(out.r < 127);
    assert_eq!(out, transform_via_driver_crate(Rgb { r: 127, g: 127, b: 127 }, 255));
}

#[test]
fn brightness_scaling_darkens() {
    // Full white at level 10 must come out at 255 * 11 / 256 == 10 per
    // channel: far below the input, never above the level.
    let out = transform_pixel(Rgb { r: 255, g: 255, b: 255 }, 10);
    assert_eq!(out, Rgb { r: 10, g: 10, b: 10 });
}

#[test]
fn no_channel_exceeds_level() {
    for x in [0u8, 5, 63, 127, 191, 255] {
        let out = transform_pixel(Rgb { r: x, g: x, b: x }, 10);
        assert!(out.r <= 10 && out.g <= 10 && out.b <= 10);
    }
}
