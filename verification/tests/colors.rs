use palette::encoding::Srgb;
use palette::{Mix, Shade};
use palette::white_point::D65;
use palette::{
    clamp, clamp_min, FromColorUnclamped, GetHue, Hsluv, Hsv, Hue, Hwb, Lab, Lch, Limited, Lms,
    LmsToXyz, Luma, Okhsv, Okhwb, Oklab, Oklch, Oklrab, Oklrch, RgbHue, UnitMatrix, XyzToLms,
};

#[test]
fn clamp_keeps_values_within_range() {
    assert_eq!(clamp(5, 0, 10), 5);
    assert_eq!(clamp(-5, 0, 10), 0);
    assert_eq!(clamp(15, 0, 10), 10);
    assert_eq!(clamp(10, 0, 10), 10);
    assert_eq!(clamp(0.5f32, 0.0, 1.0), 0.5);
    assert_eq!(clamp(2.5f32, 0.0, 1.0), 1.0);
}

#[test]
fn clamp_twice_is_clamp_once() {
    for v in -20i32..20 {
        let once = clamp(v, -3, 7);
        assert_eq!(clamp(once, -3, 7), once);
        assert!(once >= -3 && once <= 7);
    }
}

#[test]
fn clamp_min_raises_small_values() {
    assert_eq!(clamp_min(-4, 0), 0);
    assert_eq!(clamp_min(4, 0), 4);
    assert_eq!(clamp_min(clamp_min(-4, 1), 1), 1);
}

#[test]
fn lab_arithmetic_is_component_wise() {
    let a = Lab::<D65, i32>::new(10, 20, 30);
    let b = Lab::<D65, i32>::new(1, 2, 3);
    let sum = a + b;
    assert_eq!((sum.l, sum.a, sum.b), (11, 22, 33));
    let diff = a - b;
    assert_eq!((diff.l, diff.a, diff.b), (9, 18, 27));
    let prod = a * b;
    assert_eq!((prod.l, prod.a, prod.b), (10, 40, 90));
    let quot = a / b;
    assert_eq!((quot.l, quot.a, quot.b), (10, 10, 10));
    let plus = a + 5;
    assert_eq!((plus.l, plus.a, plus.b), (15, 25, 35));
    let minus = a - 5;
    assert_eq!((minus.l, minus.a, minus.b), (5, 15, 25));
    let times = a * 2;
    assert_eq!((times.l, times.a, times.b), (20, 40, 60));
    let over = a / 10;
    assert_eq!((over.l, over.a, over.b), (1, 2, 3));
}

#[test]
fn hue_colors_add_their_hues_as_numbers() {
    let a = Lch::<D65, i32>::new(50, 20, 350);
    let b = Lch::<D65, i32>::new(10, 5, 20);
    let sum = a + b;
    assert_eq!((sum.l, sum.chroma, sum.hue.into_inner()), (60, 25, 370));
    let diff = a - b;
    assert_eq!((diff.l, diff.chroma, diff.hue.into_inner()), (40, 15, 330));
    let h = Hsv::<Srgb, i32>::new(120, 40, 30) + 10;
    assert_eq!((h.hue.into_inner(), h.saturation, h.value), (130, 50, 40));
}

#[test]
fn luma_and_lms_arithmetic() {
    let l = Luma::<Srgb, u8>::new(100) + Luma::new(20);
    assert_eq!(l.luma, 120);
    let l = Luma::<Srgb, u8>::new(100) / 3;
    assert_eq!(l.luma, 33);
    let m = Lms::<UnitMatrix, u16>::new(1, 2, 3) * Lms::new(4, 5, 6);
    assert_eq!((m.long, m.medium, m.short), (4, 10, 18));
    let o = Oklab::<i64>::new(7, -8, 9) - Oklab::new(1, 1, 1);
    assert_eq!((o.l, o.a, o.b), (6, -9, 8));
}

#[test]
fn hsv_get_hue_is_none_for_grays() {
    let gray = Hsv::<Srgb, u8>::new(40, 0, 100);
    assert!(gray.get_hue().is_none());
    let black = Hsv::<Srgb, u8>::new(40, 100, 0);
    assert!(black.get_hue().is_none());
    let colored = Hsv::<Srgb, u8>::new(40, 100, 100);
    assert_eq!(colored.get_hue().map(|h| h.into_inner()), Some(40));
}

#[test]
fn chroma_and_saturation_decide_the_hue() {
    assert!(Lch::<D65, u32>::new(50, 0, 30).get_hue().is_none());
    assert_eq!(Lch::<D65, u32>::new(50, 1, 30).get_hue().map(|h| h.into_inner()), Some(30));
    assert!(Hsluv::<D65, u32>::new(30, 0, 50).get_hue().is_none());
    assert_eq!(Hsluv::<D65, u32>::new(30, 2, 50).get_hue().map(|h| h.into_inner()), Some(30));
    assert_eq!(Oklch::<i32>::new(5, 0, 30).get_hue().map(|h| h.into_inner()), Some(30));
}

#[test]
fn hwb_has_no_hue_when_gray() {
    assert!(Hwb::<Srgb, u32>::new(30, 1, 0).get_hue().is_none());
    assert!(Hwb::<Srgb, u32>::new(30, 0, 1).get_hue().is_none());
    assert_eq!(Hwb::<Srgb, u32>::new(30, 0, 0).get_hue().map(|h| h.into_inner()), Some(30));
}

#[test]
fn with_hue_and_shift_hue_only_touch_the_hue() {
    let c = Hsv::<Srgb, u32>::new(10, 20, 30);
    let w = c.with_hue(200);
    assert_eq!((w.hue.into_inner(), w.saturation, w.value), (200, 20, 30));
    let s = c.shift_hue(RgbHue::new(45));
    assert_eq!((s.hue.into_inner(), s.saturation, s.value), (55, 20, 30));
    let l = Lch::<D65, u32>::new(1, 2, 3).shift_hue(palette::LabHue::new(10));
    assert_eq!((l.l, l.chroma, l.hue.into_inner()), (1, 2, 13));
}

#[test]
fn luma_clamp_is_identity_for_unsigned_integers() {
    let c = Luma::<Srgb, u8>::new(200);
    assert!(c.is_valid());
    assert_eq!(c.clamp().luma, 200);
}

#[test]
fn oklrab_clamps_lightness_to_unit_range() {
    let c = Oklrab::<u8>::new(5, 7, 9);
    assert!(!c.is_valid());
    let d = c.clamp();
    assert_eq!((d.l, d.a, d.b), (1, 7, 9));
    assert!(d.is_valid());
    let mut e = Oklrab::<u16>::new(0, 4, 4);
    e.clamp_self();
    assert_eq!((e.l, e.a, e.b), (0, 4, 4));
}

#[test]
fn oklch_and_oklrch_clamp_lightness_and_chroma() {
    let c = Oklch::<u32>::new(3, 2, 100).clamp();
    assert_eq!((c.l, c.chroma, c.hue.into_inner()), (1, 2, 100));
    let c = Oklrch::<u32>::new(0, 5, 100).clamp();
    assert_eq!((c.l, c.chroma, c.hue.into_inner()), (0, 5, 100));
    assert!(Oklrch::<u32>::new(1, 5, 100).is_valid());
    assert!(!Oklrch::<u32>::new(2, 5, 100).is_valid());
}

#[test]
fn lms_stimuli_are_valid_when_not_negative() {
    let c = Lms::<UnitMatrix, u8>::new(0, 5, 7);
    assert!(c.is_valid());
    let d = c.clamp();
    assert_eq!((d.long, d.medium, d.short), (0, 5, 7));
}

#[test]
fn hwb_clamp_divides_by_the_sum_over_one() {
    let c = Hwb::<Srgb, u32>::new(240, 5, 20);
    assert!(!c.is_valid());
    let d = c.clamp();
    assert_eq!((d.hue.into_inner(), d.whiteness, d.blackness), (240, 0, 0));
    assert!(d.is_valid());
    let e = Hwb::<Srgb, u32>::new(240, 1, 0).clamp();
    assert_eq!((e.whiteness, e.blackness), (1, 0));
    assert!(e.is_valid());
    let mut f = Hwb::<Srgb, u32>::new(240, 1, 1);
    assert!(!f.is_valid());
    f.clamp_self();
    assert_eq!((f.whiteness, f.blackness), (0, 0));
}

#[test]
fn okhwb_valid_color_is_unchanged_by_clamp() {
    let c = Okhwb::<u8>::new(10, 100, 100);
    assert!(c.is_valid());
    let d = c.clamp();
    assert_eq!((d.whiteness, d.blackness), (100, 100));
    let mut e = c;
    e.clamp_self();
    assert_eq!((e.whiteness, e.blackness), (100, 100));
}

#[test]
fn unit_matrix_is_identity() {
    let m: [u32; 9] = <UnitMatrix as XyzToLms<u32>>::xyz_to_lms_matrix();
    assert_eq!(m, [1, 0, 0, 0, 1, 0, 0, 0, 1]);
    let n: [u8; 9] = <UnitMatrix as LmsToXyz<u8>>::lms_to_xyz_matrix();
    assert_eq!(n, [1, 0, 0, 0, 1, 0, 0, 0, 1]);
    let k = Lms::<UnitMatrix, u64>::matrix_from_xyz();
    assert_eq!(k, [1, 0, 0, 0, 1, 0, 0, 0, 1]);
}

#[test]
fn hwb_lighten_moves_blackness_into_whiteness() {
    let c = Hwb::<Srgb, i32>::new(10, 5, 5);
    let l = c.lighten(2);
    assert_eq!((l.hue.into_inner(), l.whiteness, l.blackness), (10, 7, 3));
    let d = c.darken(2);
    assert_eq!((d.hue.into_inner(), d.whiteness, d.blackness), (10, 3, 7));
}

#[test]
fn luma_equality_compares_luma() {
    assert!(Luma::<Srgb, u8>::new(5) == Luma::new(5));
    assert!(Luma::<Srgb, u8>::new(5) != Luma::new(6));
}

#[test]
fn hwb_from_hsv_uses_saturation_and_value() {
    let hsv = Hsv::<Srgb, u32>::new(30, 0, 1);
    let hwb = Hwb::<Srgb, u32>::from_color_unclamped(hsv);
    assert_eq!((hwb.hue.into_inner(), hwb.whiteness, hwb.blackness), (30, 1, 0));
    let hwb = Hwb::<Srgb, u32>::from_color_unclamped(Hsv::new(30, 1, 1));
    assert_eq!((hwb.whiteness, hwb.blackness), (0, 0));
    let hwb = Hwb::<Srgb, u8>::from_color_unclamped(Hsv::new(30, 0, 0));
    assert_eq!((hwb.whiteness, hwb.blackness), (0, 1));
}

#[test]
fn okhwb_from_okhsv_and_back() {
    let hsv = Okhsv::<u64>::new(120, 1, 1);
    let hwb = Okhwb::<u64>::from_color_unclamped(hsv);
    assert_eq!((hwb.hue.into_inner(), hwb.whiteness, hwb.blackness), (120, 0, 0));
    let back = Okhsv::<u64>::from_color_unclamped(hwb);
    assert_eq!((back.hue.into_inner(), back.saturation, back.value), (120, 1, 1));
    let hsv = Okhsv::<u64>::new(7, 0, 1);
    let back = Okhsv::<u64>::from_color_unclamped(Okhwb::from_color_unclamped(hsv));
    assert_eq!((back.hue.into_inner(), back.saturation, back.value), (7, 0, 1));
}

#[test]
fn okhsv_from_full_blackness_is_black() {
    let hwb = Okhwb::<u64>::new(200, 0, 1);
    let hsv = Okhsv::<u64>::from_color_unclamped(hwb);
    assert_eq!((hsv.hue.into_inner(), hsv.saturation, hsv.value), (200, 0, 0));
}

#[test]
fn identity_conversions_keep_the_color() {
    let lab = Lab::<D65, i32>::from_color_unclamped(Lab::new(1, -2, 3));
    assert_eq!((lab.l, lab.a, lab.b), (1, -2, 3));
    let lch = Oklch::<u8>::from_color_unclamped(Oklch::new(4, 5, 6));
    assert_eq!((lch.l, lch.chroma, lch.hue.into_inner()), (4, 5, 6));
}

#[test]
fn luma_and_lms_format_round_trips() {
    for v in 0..=255u8 {
        let wide: Luma<Srgb, u16> = Luma::<Srgb, u8>::new(v).into_format();
        assert_eq!(wide.luma, u16::from(v) * 257);
        let back: Luma<Srgb, u8> = wide.into_format();
        assert_eq!(back.luma, v);
    }
    let lms = Lms::<UnitMatrix, u8>::new(1, 128, 255);
    let wide: Lms<UnitMatrix, u32> = lms.into_format();
    assert_eq!((wide.long, wide.medium, wide.short), (16843009, 2155905152, 4294967295));
    let back = Lms::<UnitMatrix, u8>::from_format(wide);
    assert_eq!((back.long, back.medium, back.short), (1, 128, 255));
}

#[test]
fn tuple_conversions_round_trip() {
    let lab: Lab<D65, i32> = (1, -2, 3).into();
    assert_eq!((lab.l, lab.a, lab.b), (1, -2, 3));
    let t: (i32, i32, i32) = lab.into();
    assert_eq!(t, (1, -2, 3));
    let hsv: Hsv<Srgb, u8> = (10u8, 20, 30).into();
    assert_eq!((hsv.hue.into_inner(), hsv.saturation, hsv.value), (10, 20, 30));
    let (h, s, v): (RgbHue<u8>, u8, u8) = hsv.into();
    assert_eq!((h.into_inner(), s, v), (10, 20, 30));
    let lch: Lch<D65, u16> = (5, 6, 700u16).into();
    assert_eq!((lch.l, lch.chroma, lch.hue.into_inner()), (5, 6, 700));
    let alpha: palette::Alpha<Lab<D65, i32>, u8> = (1, 2, 3, 4u8).into();
    assert_eq!((alpha.color.l, alpha.color.a, alpha.color.b, alpha.alpha), (1, 2, 3, 4));
    let back: (i32, i32, i32, u8) = alpha.into();
    assert_eq!(back, (1, 2, 3, 4));
}

#[test]
fn luma_converts_from_and_into_its_component() {
    let l: Luma<Srgb, u8> = 96u8.into();
    assert_eq!(l.luma, 96);
    let v: u8 = l.into();
    assert_eq!(v, 96);
    let w: u32 = Luma::<Srgb, u32>::new(7).into();
    assert_eq!(w, 7);
    let t: (u16,) = Luma::<Srgb, u16>::new(9).into();
    assert_eq!(t, (9,));
}

#[test]
fn default_colors_are_black() {
    let h = Hsv::<Srgb, u8>::default();
    assert_eq!((h.hue.into_inner(), h.saturation, h.value), (0, 0, 0));
    let w = Hwb::<Srgb, u8>::default();
    assert_eq!((w.hue.into_inner(), w.whiteness, w.blackness), (0, 0, 1));
    let l = Lab::<D65, u16>::default();
    assert_eq!((l.l, l.a, l.b), (0, 0, 0));
    let c = Lch::<D65, u32>::default();
    assert_eq!((c.l, c.chroma, c.hue.into_inner()), (0, 0, 0));
    let o = Oklab::<u64>::default();
    assert_eq!((o.l, o.a, o.b), (0, 0, 0));
    let r = Oklrab::<u8>::default();
    assert_eq!((r.l, r.a, r.b), (0, 0, 0));
    assert_eq!(Luma::<Srgb, u8>::default().luma, 0);
    let s = Hsluv::<D65, u8>::default();
    assert_eq!((s.hue.into_inner(), s.saturation, s.l), (0, 0, 0));
}

#[test]
fn components_round_trip() {
    let c = Hsv::<Srgb, u8>::from_components((1u8, 2, 3));
    let (h, s, v) = c.into_components();
    assert_eq!((h.into_inner(), s, v), (1, 2, 3));
    let l = Lab::<D65, i32>::from_components((4, -5, 6));
    assert_eq!(l.into_components(), (4, -5, 6));
    let m = Lms::<UnitMatrix, u8>::from_components((7, 8, 9)).with_meta::<palette::Bradford>();
    assert_eq!(m.into_components(), (7, 8, 9));
    let a = palette::Alpha::<Oklch<u8>, u8>::new(1, 2, 3u8, 4);
    let (l, c, h, alpha) = a.into_components();
    assert_eq!((l, c, h.into_inner(), alpha), (1, 2, 3, 4));
}

#[test]
fn mix_takes_the_shortest_way_around_the_hue_circle() {
    let a = Hwb::<Srgb, f64>::new(10.0, 0.2, 0.4);
    let b = Hwb::<Srgb, f64>::new(350.0, 0.4, 0.0);
    let m = a.mix(&b, 0.5);
    assert!((m.hue.into_inner() - 0.0).abs() < 1e-12);
    assert!((m.whiteness - 0.3).abs() < 1e-12);
    assert!((m.blackness - 0.2).abs() < 1e-12);
    let clamped = a.mix(&b, 7.0);
    assert!((clamped.whiteness - 0.4).abs() < 1e-12);
    assert!((clamped.hue.into_inner() - (-10.0)).abs() < 1e-12);
}

#[test]
fn mix_ends_with_integer_components() {
    let a = Lch::<D65, i32>::new(10, 20, 30);
    let b = Lch::<D65, i32>::new(50, 60, 300);
    let zero = a.mix(&b, 0);
    assert_eq!((zero.l, zero.chroma, zero.hue.into_inner()), (10, 20, 30));
    let one = a.mix(&b, 1);
    assert_eq!((one.l, one.chroma, one.hue.into_inner()), (50, 60, -60));
    let over = a.mix(&b, 5);
    assert_eq!((over.l, over.chroma), (50, 60));
    let h = Hsluv::<D65, i32>::new(350, 0, 0).mix(&Hsluv::new(10, 100, 100), 1);
    assert_eq!((h.hue.into_inner(), h.saturation, h.l), (370, 100, 100));
}

#[test]
fn hsv_mix_interpolates_saturation_and_value() {
    let a = Hsv::<Srgb, f32>::new(300.0, 0.0, 1.0);
    let b = Hsv::<Srgb, f32>::new(60.0, 1.0, 0.0);
    let m = a.mix(&b, 0.25);
    assert!((m.hue.into_inner() - 330.0).abs() < 1e-4);
    assert!((m.saturation - 0.25).abs() < 1e-6);
    assert!((m.value - 0.75).abs() < 1e-6);
    let none = a.mix(&b, -1.0);
    assert_eq!((none.hue.into_inner(), none.saturation, none.value), (300.0, 0.0, 1.0));
}

#[test]
fn hwba_components_round_trip() {
    let c = palette::Alpha::<Hwb<Srgb, i32>, u8>::with_wp(RgbHue(240), 3, 4, 9u8);
    let back = palette::Alpha::<Hwb<Srgb, i32>, u8>::from_components(c.into_components());
    assert_eq!(back.color.hue.0, 240);
    assert_eq!(back.color.whiteness, 3);
    assert_eq!(back.color.blackness, 4);
    assert_eq!(back.alpha, 9);
}

#[test]
fn hwba_from_components_is_with_wp() {
    let a = palette::Alpha::<Hwb<Srgb, i32>, u8>::from_components((120, 1, 2, 3u8));
    let b = palette::Alpha::<Hwb<Srgb, i32>, u8>::with_wp(120, 1, 2, 3u8);
    assert_eq!(a.color.hue.0, b.color.hue.0);
    assert_eq!(a.color.whiteness, b.color.whiteness);
    assert_eq!(a.color.blackness, b.color.blackness);
    assert_eq!(a.alpha, b.alpha);
}

#[test]
fn hsluva_components_round_trip() {
    let c = palette::Alpha::<Hsluv<D65, i32>, u8>::with_wp(palette::LuvHue(30), 40, 50, 7u8);
    let back = palette::Alpha::<Hsluv<D65, i32>, u8>::from_components(c.into_components());
    assert_eq!(back.color.hue.0, 30);
    assert_eq!(back.color.saturation, 40);
    assert_eq!(back.color.l, 50);
    assert_eq!(back.alpha, 7);
}

#[test]
fn hsluva_from_components_is_with_wp() {
    let a = palette::Alpha::<Hsluv<D65, i32>, u8>::from_components((30, 40, 50, 7u8));
    let b = palette::Alpha::<Hsluv<D65, i32>, u8>::with_wp(30, 40, 50, 7u8);
    assert_eq!(a.color.hue.0, b.color.hue.0);
    assert_eq!(a.color.saturation, b.color.saturation);
    assert_eq!(a.color.l, b.color.l);
    assert_eq!(a.alpha, b.alpha);
}

#[test]
fn colors_with_hues_compare_hues_as_directions() {
    assert!(Okhsv::new(0i64, 1, 2) == Okhsv::new(360i64, 1, 2));
    assert!(Okhsv::new(0i64, 1, 2) != Okhsv::new(0i64, 1, 3));
    assert!(Oklch::new(1i32, 2, -90) == Oklch::new(1i32, 2, 270));
    assert!(Okhwb::new(10i64, 0, 0) != Okhwb::new(20i64, 0, 0));
}

#[test]
fn colors_without_hues_compare_components() {
    assert!(Lab::<D65, u8>::new(1, 2, 3) == Lab::new(1, 2, 3));
    assert!(Lab::<D65, u8>::new(1, 2, 3) != Lab::new(1, 2, 4));
    assert!(Oklab::new(5u16, 6, 7) == Oklab::new(5u16, 6, 7));
    assert!(Oklrab::new(5u16, 6, 7) != Oklrab::new(5u16, 7, 7));
}

#[test]
fn mixing_ends_at_the_two_colors() {
    let a = Hsv::<Srgb, i32>::new(RgbHue(10), 20, 30);
    let b = Hsv::<Srgb, i32>::new(RgbHue(350), 40, 50);
    let start = a.mix(&b, 0);
    assert_eq!((start.hue.0, start.saturation, start.value), (10, 20, 30));
    let end = a.mix(&b, 1);
    assert!(end.hue == b.hue);
    assert_eq!(end.hue.0, -10);
    assert_eq!((end.saturation, end.value), (40, 50));

    let c = Lch::<D65, i32>::new(10, 20, 100);
    let d = Lch::<D65, i32>::new(30, 40, -100);
    let end = c.mix(&d, 1);
    assert!(end.hue == d.hue);
    assert_eq!((end.l, end.chroma), (30, 40));
    let start = c.mix(&d, 0);
    assert_eq!((start.l, start.chroma, start.hue.0), (10, 20, 100));
}
