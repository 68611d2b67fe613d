use palette::num::{MinMax, One, Zero};
use palette::{Component, Hwb, Limited, OklabHue, Okhwb, RgbHue};
use std::ops::{Add, Div};

/// A floating point component, for clamping colors whose components can be
/// negative or fractional.
#[derive(Clone, Copy, Debug, PartialEq, PartialOrd)]
struct Real(f64);

impl Add for Real {
    type Output = Real;
    fn add(self, other: Real) -> Real {
        Real(self.0 + other.0)
    }
}

impl Div for Real {
    type Output = Real;
    fn div(self, other: Real) -> Real {
        Real(self.0 / other.0)
    }
}

impl Zero for Real {
    fn zero_spec() -> Real {
        Real(0.0)
    }

    fn zero() -> Real {
        Real(0.0)
    }
}

impl One for Real {
    fn one_spec() -> Real {
        Real(1.0)
    }

    fn one() -> Real {
        Real(1.0)
    }
}

impl MinMax for Real {
    fn min_spec(self, other: Real) -> Real {
        self.min(other)
    }

    fn max_spec(self, other: Real) -> Real {
        self.max(other)
    }

    fn min(self, other: Real) -> Real {
        Real(self.0.min(other.0))
    }

    fn max(self, other: Real) -> Real {
        Real(self.0.max(other.0))
    }

    fn min_max(self, other: Real) -> (Real, Real) {
        (self.min(other), self.max(other))
    }
}

impl Component for Real {
    fn max_intensity_spec() -> Real {
        Real(1.0)
    }

    fn max_intensity() -> Real {
        Real(1.0)
    }
}

fn assert_close(expected: f64, computed: Real) {
    assert!(
        (expected - computed.0).abs() <= 1e-12,
        "expected {}, computed {}",
        expected,
        computed.0
    );
}

fn assert_hwb(expected: (f64, f64, f64), computed: Hwb<palette::Srgb, Real>) {
    assert_close(expected.0, computed.hue.0);
    assert_close(expected.1, computed.whiteness);
    assert_close(expected.2, computed.blackness);
}

fn hwb(h: f64, w: f64, b: f64) -> Hwb<palette::Srgb, Real> {
    Hwb::new(RgbHue(Real(h)), Real(w), Real(b))
}

#[test]
fn clamp_invalid() {
    let expected = (240.0, 0.0, 0.0);

    let a = hwb(240.0, -3.0, -4.0);
    let calc_a = a.clamp();
    assert_hwb(expected, calc_a);
}

#[test]
fn clamp_none() {
    let expected = (240.0, 0.3, 0.7);

    let a = hwb(240.0, 0.3, 0.7);
    let calc_a = a.clamp();
    assert_hwb(expected, calc_a);
}

#[test]
fn clamp_over_one() {
    let expected = (240.0, 0.2, 0.8);

    let a = hwb(240.0, 5.0, 20.0);
    let calc_a = a.clamp();
    assert_hwb(expected, calc_a);
}

#[test]
fn clamp_under_one() {
    let expected = (240.0, 0.3, 0.1);

    let a = hwb(240.0, 0.3, 0.1);
    let calc_a = a.clamp();
    assert_hwb(expected, calc_a);
}

#[test]
fn hwb_clamp_self_matches_clamp() {
    let mut a = hwb(240.0, 5.0, -20.0);
    let calc_a = a.clamp();
    a.clamp_self();
    assert_hwb((240.0, 1.0, 0.0), calc_a);
    assert_hwb((240.0, 1.0, 0.0), a);
    assert!(a.is_valid());
    assert!(!hwb(240.0, 5.0, -20.0).is_valid());
}

#[test]
fn okhwb_clamp_raises_negatives_before_dividing() {
    let c = Okhwb::new(OklabHue(Real(0.0)), Real(-3.0), Real(2.0));
    let clamped = c.clamp();
    assert_close(0.0, clamped.hue.0);
    assert_close(0.0, clamped.whiteness);
    assert_close(1.0, clamped.blackness);
    assert!(clamped.is_valid());
    assert!(!c.is_valid());
}

#[test]
fn okhwb_clamp_divides_by_the_sum() {
    let c = Okhwb::new(OklabHue(Real(30.0)), Real(3.0), Real(1.0));
    let clamped = c.clamp();
    assert_close(30.0, clamped.hue.0);
    assert_close(0.75, clamped.whiteness);
    assert_close(0.25, clamped.blackness);

    let mut in_place = c;
    in_place.clamp_self();
    assert_close(30.0, in_place.hue.0);
    assert_close(0.75, in_place.whiteness);
    assert_close(0.25, in_place.blackness);
}

#[test]
fn okhwb_valid_color_is_unchanged() {
    let c = Okhwb::new(OklabHue(Real(30.0)), Real(0.25), Real(0.5));
    assert!(c.is_valid());
    let clamped = c.clamp();
    assert_eq!(clamped.hue.0, c.hue.0);
    assert_eq!(clamped.whiteness, c.whiteness);
    assert_eq!(clamped.blackness, c.blackness);
}
