use palette::angle::{SignedAngle, UnsignedAngle};
use palette::{LabHue, OklabHue, RgbHue};

fn assert_close(expected: f32, computed: f32) {
    let tolerance = f32::EPSILON * expected.abs().max(1.0);
    assert!(
        (expected - computed).abs() <= tolerance,
        "expected {}, computed {}",
        expected,
        computed
    );
}

#[test]
fn normalize_angle_0_360() {
    let inp = [
        -1000.0_f32,
        -900.0,
        -360.5,
        -360.0,
        -359.5,
        -240.0,
        -180.5,
        -180.0,
        -179.5,
        -90.0,
        -0.5,
        0.0,
        0.5,
        90.0,
        179.5,
        180.0,
        180.5,
        240.0,
        359.5,
        360.0,
        360.5,
        900.0,
        1000.0,
    ];

    let expected = [
        80.0_f32, 180.0, 359.5, 0.0, 0.5, 120.0, 179.5, 180.0, 180.5, 270.0, 359.5, 0.0, 0.5,
        90.0, 179.5, 180.0, 180.5, 240.0, 359.5, 0.0, 0.5, 180.0, 280.0,
    ];

    let result: Vec<f32> = inp
        .iter()
        .map(|x| (*x).normalize_unsigned_angle())
        .collect();
    for (res, exp) in result.iter().zip(expected.iter()) {
        assert_close(*exp, *res);
    }
}

#[test]
fn normalize_angle_180_180() {
    let inp = [
        -1000.0_f32,
        -900.0,
        -360.5,
        -360.0,
        -359.5,
        -240.0,
        -180.5,
        -180.0,
        -179.5,
        -90.0,
        -0.5,
        0.0,
        0.5,
        90.0,
        179.5,
        180.0,
        180.5,
        240.0,
        359.5,
        360.0,
        360.5,
        900.0,
        1000.0,
    ];

    let expected = [
        80.0, 180.0, -0.5, 0.0, 0.5, 120.0, 179.5, 180.0, -179.5, -90.0, -0.5, 0.0, 0.5, 90.0,
        179.5, 180.0, -179.5, -120.0, -0.5, 0.0, 0.5, 180.0, -80.0,
    ];

    let result: Vec<f32> = inp.iter().map(|x| (*x).normalize_signed_angle()).collect();
    for (res, exp) in result.iter().zip(expected.iter()) {
        assert_close(*exp, *res);
    }
}

#[test]
fn float_conversion() {
    for i in -180..180 {
        let hue = RgbHue::from(4.0 * i as f32);

        let degs = hue.into_degrees();
        assert!(degs > -180.0 && degs <= 180.0);

        let pos_degs = hue.into_positive_degrees();
        assert!(pos_degs >= 0.0 && pos_degs < 360.0);

        // The two hues are the same direction: their difference is a whole
        // number of turns.
        let difference = (RgbHue::from(degs) - RgbHue::from(pos_degs)).into_degrees();
        assert!(difference.abs() <= 180.0 * f32::EPSILON);
    }
}

#[test]
fn integer_angles_normalize_exactly() {
    assert_eq!((-1000i32).normalize_unsigned_angle(), 80);
    assert_eq!((-360i32).normalize_unsigned_angle(), 0);
    assert_eq!(725i32.normalize_unsigned_angle(), 5);
    assert_eq!((-180i32).normalize_signed_angle(), 180);
    assert_eq!(181i32.normalize_signed_angle(), -179);
    assert_eq!(1000i64.normalize_signed_angle(), -80);
}

#[test]
fn hue_arithmetic_acts_on_the_angle() {
    let a = LabHue::new(350i32);
    let b = LabHue::from(20i32);
    assert_eq!((a + b).into_inner(), 370);
    assert_eq!((a + b).into_positive_degrees(), 10);
    assert_eq!((a - b).into_raw_degrees(), 330);
    assert_eq!((a - 400).into_degrees(), -50);
    assert_eq!(OklabHue::from_degrees(-90i32).into_positive_degrees(), 270);
}

#[test]
fn hues_that_differ_by_whole_turns_are_equal() {
    assert!(RgbHue(0i32) == RgbHue(360i32));
    assert!(RgbHue(-90i32) == RgbHue(270i32));
    assert!(LabHue(725i64) == LabHue(5i64));
    assert!(OklabHue(-360i64) == OklabHue(720i64));
    assert!(palette::LuvHue(10i32) != palette::LuvHue(20i32));
    assert!(RgbHue(180i64) != RgbHue(-90i64));
}

#[test]
fn hue_equals_angle_by_whole_turns() {
    assert!(RgbHue(370i32) == 10i32);
    assert!(OklabHue(-1i64) == 359i64);
    assert!(LabHue(90i64) != 270i64);
}

#[test]
fn i64_angles_normalize_by_whole_turns() {
    assert_eq!((-725i64).normalize_unsigned_angle(), 355);
    assert_eq!(720i64.normalize_unsigned_angle(), 0);
    assert_eq!(190i64.normalize_signed_angle(), -170);
    assert_eq!((-180i64).normalize_signed_angle(), 180);
    assert_eq!(i64::MIN.normalize_unsigned_angle(), (i64::MIN as i128).rem_euclid(360) as i64);
}
