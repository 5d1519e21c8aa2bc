use hsluv::binary64::Binary64;
use hsluv::binary64::LARGEST_BITS;
use hsluv::dot_product;
use hsluv::gamut::least_distance;
use hsluv::gamut::least_forward_length;
use hsluv::guards::achromatic;
use hsluv::guards::is_black;
use hsluv::guards::is_black_or_threshold;
use hsluv::guards::is_gray;
use hsluv::guards::is_white;
use hsluv::spaces::validate_hsl;
use hsluv::spaces::validate_rgb;
use hsluv::spaces::validate_xyz;
use hsluv::spaces::HslBounds;
use hsluv::spaces::RgbBounds;
use hsluv::spaces::XyzBounds;

fn b(x: f64) -> Binary64 {
    Binary64::from_bits(x.to_bits())
}

#[test]
fn dot_product_of_integers() {
    let r: i64 = dot_product((1i64, 2, 3), (4i64, 5, 6));
    assert_eq!(r, 32);
    let r: i64 = dot_product((-1i64, 0, 7), (3i64, 9, -2));
    assert_eq!(r, -17);
}

#[test]
fn dot_product_of_doubles() {
    let r: f64 = dot_product((0.5, 0.25, 2.0), (4.0, 8.0, 0.5));
    assert_eq!(r, 5.0);
}

#[test]
fn comparisons_follow_ieee() {
    assert!(b(-1.0).lt(b(1.0)));
    assert!(b(-2.0).lt(b(-1.0)));
    assert!(!b(1.0).lt(b(1.0)));
    assert!(b(1.0).le(b(1.0)));
    assert!(b(-0.0).le(b(0.0)));
    assert!(b(0.0).le(b(-0.0)));
    assert!(!b(-0.0).lt(b(0.0)));
    assert!(b(f64::NEG_INFINITY).lt(b(f64::MIN)));
    assert!(b(f64::MAX).lt(b(f64::INFINITY)));
    assert!(b(f64::NAN).is_nan());
    assert!(b(-f64::NAN).is_nan());
    assert!(!b(f64::INFINITY).is_nan());
    assert!(!b(f64::NAN).le(b(f64::NAN)));
    assert!(!b(f64::NAN).lt(b(1.0)));
    assert!(!b(1.0).le(b(f64::NAN)));
    assert!(b(0.5).is_within(b(0.0), b(1.0)));
    assert!(!b(1.5).is_within(b(0.0), b(1.0)));
}

#[test]
fn comparisons_agree_with_f64() {
    let values = [
        f64::NEG_INFINITY,
        -1e300,
        -3.5,
        -1e-310,
        -0.0,
        0.0,
        1e-310,
        1e-8,
        0.5,
        1.0,
        99.9999999,
        100.0,
        360.0,
        f64::MAX,
        f64::INFINITY,
        f64::NAN,
    ];
    for x in values {
        for y in values {
            assert_eq!(b(x).lt(b(y)), x < y, "{} < {}", x, y);
            assert_eq!(b(x).le(b(y)), x <= y, "{} <= {}", x, y);
        }
    }
}

#[test]
fn rgb_accepts_unit_channels() {
    assert_eq!(validate_rgb(b(0.0), b(0.5), b(1.0)), Ok(()));
    assert_eq!(validate_rgb(b(-0.0), b(1.0), b(0.0)), Ok(()));
}

#[test]
fn rgb_reports_first_channel_out_of_range() {
    assert_eq!(validate_rgb(b(1.5), b(2.0), b(0.0)), Err(RgbBounds::Red));
    assert_eq!(validate_rgb(b(0.2), b(-0.1), b(3.0)), Err(RgbBounds::Green));
    assert_eq!(validate_rgb(b(0.2), b(0.1), b(1.0000001)), Err(RgbBounds::Blue));
    assert_eq!(validate_rgb(b(f64::NAN), b(0.1), b(0.1)), Err(RgbBounds::Red));
}

#[test]
fn hsl_checks_each_range() {
    assert_eq!(validate_hsl(b(360.0), b(100.0), b(0.0)), Ok(()));
    assert_eq!(validate_hsl(b(360.5), b(50.0), b(50.0)), Err(HslBounds::Hue));
    assert_eq!(validate_hsl(b(-1.0), b(50.0), b(50.0)), Err(HslBounds::Hue));
    assert_eq!(validate_hsl(b(12.0), b(100.5), b(50.0)), Err(HslBounds::Saturation));
    assert_eq!(validate_hsl(b(12.0), b(50.0), b(101.0)), Err(HslBounds::Lightness));
    assert_eq!(validate_hsl(b(12.0), b(50.0), b(f64::INFINITY)), Err(HslBounds::Lightness));
}

#[test]
fn xyz_checks_each_component() {
    assert_eq!(validate_xyz(b(0.4123908), b(0.2126390), b(0.0193308)), Ok(()));
    assert_eq!(validate_xyz(b(1.1), b(0.0), b(0.0)), Err(XyzBounds::X));
    assert_eq!(validate_xyz(b(0.0), b(-0.5), b(0.0)), Err(XyzBounds::Y));
    assert_eq!(validate_xyz(b(0.0), b(0.0), b(f64::NAN)), Err(XyzBounds::Z));
}

#[test]
fn guard_thresholds() {
    assert!(is_black(b(0.0)));
    assert!(is_black(b(9.9e-9)));
    assert!(!is_black(b(1e-8)));
    assert!(is_black_or_threshold(b(1e-8)));
    assert!(!is_black_or_threshold(b(1.1e-8)));
    assert!(is_white(b(100.0)));
    assert!(!is_white(b(99.9999999)));
    assert!(!is_white(b(50.0)));
    assert!(is_gray(b(0.0)));
    assert!(is_gray(b(-0.0)));
    assert!(!is_gray(b(0.001)));
}

#[test]
fn zero_chroma_drops_hue() {
    for lightness in [0.0, 25.0, 53.2408, 100.0] {
        assert!(achromatic(b(0.0), b(lightness)).drop_hue);
        assert!(achromatic(b(-0.0), b(lightness)).drop_hue);
    }
    assert!(!achromatic(b(179.0414), b(53.2408)).drop_hue);
}

#[test]
fn extreme_lightness_drops_colorfulness() {
    for colorfulness in [0.0, 1.0, 50.0, 100.0, 179.0414] {
        assert!(achromatic(b(colorfulness), b(0.0)).drop_colorfulness);
        assert!(achromatic(b(colorfulness), b(5e-9)).drop_colorfulness);
        assert!(achromatic(b(colorfulness), b(100.0)).drop_colorfulness);
        assert!(!achromatic(b(colorfulness), b(53.2408)).drop_colorfulness);
    }
}

#[test]
fn gray_with_residual_chroma_is_achromatic() {
    let guards = achromatic(b(2.5e-12), b(53.3889647));
    assert!(guards.drop_hue);
    assert!(!guards.drop_colorfulness);
}

#[test]
fn least_distance_takes_the_minimum() {
    let d = [b(3.0), b(1.5), b(f64::NAN), b(2.0), b(7.0), b(1.75)];
    assert_eq!(least_distance(&d), b(1.5));
}

#[test]
fn least_distance_of_no_number_is_unbounded() {
    let d = [b(f64::NAN); 6];
    assert_eq!(least_distance(&d).bits, LARGEST_BITS);
    let d = [b(f64::INFINITY); 6];
    assert_eq!(least_distance(&d), b(f64::MAX));
}

#[test]
fn least_forward_length_skips_negative_lengths() {
    let l = [b(-5.0), b(12.0), b(-0.5), b(30.0), b(f64::NAN), b(11.5)];
    assert_eq!(least_forward_length(&l), b(11.5));
}

#[test]
fn least_forward_length_of_no_forward_ray_is_unbounded() {
    let l = [b(-5.0), b(-12.0), b(-0.5), b(-30.0), b(f64::NAN), b(f64::NEG_INFINITY)];
    assert_eq!(least_forward_length(&l), b(f64::MAX));
}

#[test]
fn least_forward_length_is_never_negative() {
    let l = [b(-0.0), b(-1.0), b(-2.0), b(-3.0), b(-4.0), b(-5.0)];
    let r = least_forward_length(&l);
    assert!(b(0.0).le(r));
    assert_eq!(r, b(-0.0));
}

#[test]
fn bound_enums_are_reachable_from_the_root() {
    assert_eq!(hsluv::RgbBounds::Red, RgbBounds::Red);
    assert!(hsluv::HslBounds::Hue < hsluv::HslBounds::Lightness);
    assert_ne!(hsluv::XyzBounds::X, XyzBounds::Z);
}
