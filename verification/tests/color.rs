//! The color math on concrete inputs: the three primary hues, a hue off
//! the axes, and the grey line at zero saturation.

use color_wheel::color::Frac;
use color_wheel::color::Rgb;
use color_wheel::color::hsv_to_rgb;

fn full() -> Frac {
    Frac::new(1, 1)
}

#[test]
fn hue_zero_is_pure_red() {
    let c = hsv_to_rgb(0, full(), full());
    assert_eq!(c, Rgb { red: 60, green: 0, blue: 0, den: 60 });
}

#[test]
fn hue_120_is_pure_green() {
    let c = hsv_to_rgb(120, full(), full());
    assert_eq!(c, Rgb { red: 0, green: 60, blue: 0, den: 60 });
}

#[test]
fn hue_240_is_pure_blue() {
    let c = hsv_to_rgb(240, full(), full());
    assert_eq!(c, Rgb { red: 0, green: 0, blue: 60, den: 60 });
}

#[test]
fn hue_90_has_one_zero_and_one_full_channel() {
    // 90 degrees, full saturation and value: (0.5, 1, 0).
    let c = hsv_to_rgb(90, full(), full());
    assert_eq!(c, Rgb { red: 30, green: 60, blue: 0, den: 60 });
    let zeros = [c.red, c.green, c.blue].iter().filter(|&&v| v == 0).count();
    let fulls = [c.red, c.green, c.blue].iter().filter(|&&v| v == c.den).count();
    assert_eq!(zeros, 1);
    assert!(fulls >= 1);
}

#[test]
fn hue_300_is_magenta() {
    let c = hsv_to_rgb(300, full(), full());
    assert_eq!(c, Rgb { red: 60, green: 0, blue: 60, den: 60 });
}

#[test]
fn zero_saturation_is_grey_at_the_value() {
    // Saturation 0/5, value 3/4: every channel must equal 3/4.
    let c = hsv_to_rgb(200, Frac::new(0, 5), Frac::new(3, 4));
    assert_eq!(c, Rgb { red: 900, green: 900, blue: 900, den: 1200 });
    assert_eq!(c.red * 4, 3 * c.den);
}

#[test]
fn zero_value_is_black() {
    let c = hsv_to_rgb(45, full(), Frac::new(0, 1));
    assert_eq!(c, Rgb { red: 0, green: 0, blue: 0, den: 60 });
}

#[test]
fn sextant_boundaries_are_exact() {
    // 60 degrees: red and green full, blue zero.
    let c = hsv_to_rgb(60, full(), full());
    assert_eq!(c, Rgb { red: 60, green: 60, blue: 0, den: 60 });
    // 180 degrees: green and blue full, red zero.
    let c = hsv_to_rgb(180, full(), full());
    assert_eq!(c, Rgb { red: 0, green: 60, blue: 60, den: 60 });
}

#[test]
fn half_saturation_partial_value() {
    // Hue 0, s = 50/100, v = 80/100: (0.8, 0.4, 0.4) exactly.
    let c = hsv_to_rgb(0, Frac::new(50, 100), Frac::new(80, 100));
    assert_eq!(c, Rgb { red: 480000, green: 240000, blue: 240000, den: 600000 });
}
