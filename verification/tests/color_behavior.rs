use double_pendulum::color::{rainbow_color, Rgb, CHANNEL_SCALE};

#[test]
fn scalar_zero_is_pure_red() {
    assert_eq!(rainbow_color(0), Rgb { r: 1000, g: 0, b: 0 });
}

#[test]
fn scalar_one_wraps_to_the_top_of_the_wheel() {
    // The full scalar lands on hue 360, sector 6, which wraps to the same
    // channels as scalar zero: pure red, not an out-of-range sector.
    assert_eq!(rainbow_color(1000), rainbow_color(0));
    assert_eq!(rainbow_color(1000), Rgb { r: 1000, g: 0, b: 0 });
}

#[test]
fn out_of_range_scalars_are_clamped() {
    assert_eq!(rainbow_color(-42), rainbow_color(0));
    assert_eq!(rainbow_color(i64::MIN), rainbow_color(0));
    assert_eq!(rainbow_color(5000), rainbow_color(1000));
    assert_eq!(rainbow_color(i64::MAX), rainbow_color(1000));
}

#[test]
fn each_sector_follows_the_hue_formula() {
    // One scalar in each of the six sectors, channels worked out by hand
    // from sector = (6 * scalar) / 1000 and offset f = (6 * scalar) % 1000.
    assert_eq!(rainbow_color(100), Rgb { r: 1000, g: 600, b: 0 });
    assert_eq!(rainbow_color(250), Rgb { r: 500, g: 1000, b: 0 });
    assert_eq!(rainbow_color(400), Rgb { r: 0, g: 1000, b: 400 });
    assert_eq!(rainbow_color(600), Rgb { r: 0, g: 400, b: 1000 });
    assert_eq!(rainbow_color(750), Rgb { r: 500, g: 0, b: 1000 });
    assert_eq!(rainbow_color(900), Rgb { r: 1000, g: 0, b: 600 });
}

#[test]
fn sector_boundaries_are_exact() {
    // Just below and just above the first sector boundary at scalar 1000/6.
    assert_eq!(rainbow_color(166), Rgb { r: 1000, g: 996, b: 0 });
    assert_eq!(rainbow_color(167), Rgb { r: 998, g: 1000, b: 0 });
    // Exact sector starts carry offset zero.
    assert_eq!(rainbow_color(500), Rgb { r: 0, g: 1000, b: 1000 });
}

#[test]
fn channels_scale_to_unit_range_floats() {
    // The host divides by the channel scale to feed the renderer.
    let c = rainbow_color(250);
    let r = c.r as f64 / CHANNEL_SCALE as f64;
    let g = c.g as f64 / CHANNEL_SCALE as f64;
    let b = c.b as f64 / CHANNEL_SCALE as f64;
    assert_eq!(r, 0.5);
    assert_eq!(g, 1.0);
    assert_eq!(b, 0.0);
}
