use prism::scalar::{Mat4, Scalar, Vec4};

fn s(value: f32) -> Scalar {
    Scalar::from_bits(value.to_bits())
}

fn f(value: Scalar) -> f32 {
    f32::from_bits(value.to_bits())
}

fn samples() -> Vec<f32> {
    vec![
        0.0,
        -0.0,
        1.0,
        -1.0,
        0.5,
        1e-40,
        -1e-40,
        f32::MIN_POSITIVE,
        f32::MAX,
        f32::MIN,
        f32::INFINITY,
        f32::NEG_INFINITY,
        f32::NAN,
        3.5e20,
        -7.25,
    ]
}

#[test]
fn comparisons_agree_with_floats() {
    for a in samples() {
        for b in samples() {
            assert_eq!(s(a).less(s(b)), a < b, "{} < {}", a, b);
            assert_eq!(s(a).same(s(b)), a == b, "{} == {}", a, b);
        }
    }
}

#[test]
fn extremes_agree_with_floats() {
    for a in samples() {
        for b in samples() {
            let larger = f(s(a).max(s(b)));
            let smaller = f(s(a).min(s(b)));
            if a.is_nan() && b.is_nan() {
                assert!(larger.is_nan() && smaller.is_nan());
            } else {
                assert!(larger == a.max(b), "max({}, {})", a, b);
                assert!(smaller == a.min(b), "min({}, {})", a, b);
            }
        }
    }
}

#[test]
fn whole_numbers_have_their_float_pattern() {
    for n in [0_u32, 1, 2, 3, 7, 8, 16, 31, 100, 1920, 65535, 16_777_215] {
        assert_eq!(Scalar::from_whole(n).to_bits(), (n as f32).to_bits());
    }
    assert_eq!(Scalar::from_whole(16).to_bits(), 0x4180_0000);
}

fn whole_samples() -> Vec<u32> {
    let mut list: Vec<u32> = (0..5000).collect();
    for k in 12..32 {
        for d in 0..40 {
            list.push((1_u32 << k).wrapping_add(d).wrapping_sub(20));
            list.push((3_u32 << (k - 1)).wrapping_add(d).wrapping_sub(20));
        }
    }
    for k in 0..2000_u32 {
        list.push(k.wrapping_mul(2_654_435_761));
        list.push(u32::MAX - k);
    }
    list
}

#[test]
fn large_whole_numbers_round_as_floats_do() {
    for n in whole_samples() {
        assert_eq!(Scalar::from_whole(n).to_bits(), (n as f32).to_bits(), "{}", n);
    }
    assert_eq!(Scalar::from_whole(16_777_217).to_bits(), 16_777_216.0_f32.to_bits());
    assert_eq!(Scalar::from_whole(16_777_219).to_bits(), 16_777_220.0_f32.to_bits());
    assert_eq!(Scalar::from_whole(u32::MAX).to_bits(), 4_294_967_296.0_f32.to_bits());
}

#[test]
fn reciprocals_agree_with_floats() {
    for n in whole_samples() {
        let expected = 1.0_f32 / n as f32;
        assert_eq!(Scalar::reciprocal_of_whole(n).to_bits(), expected.to_bits(), "{}", n);
    }
    assert_eq!(Scalar::reciprocal_of_whole(0), s(f32::INFINITY));
    assert_eq!(Scalar::reciprocal_of_whole(3).to_bits(), 0x3EAA_AAAB);
}

#[test]
fn four_times_agrees_with_floats() {
    let mut list = samples();
    for k in 0..2000_u32 {
        list.push(f32::from_bits(k.wrapping_mul(2_147_483)));
        list.push(f32::from_bits(0x0010_0000 + k * 4_099));
        list.push(f32::from_bits(0xFE00_0000 + k * 4_099));
    }
    for x in list {
        let product = f(s(x).times_four());
        if x.is_nan() {
            assert!(product.is_nan());
        } else {
            assert_eq!(product.to_bits(), (x * 4.0).to_bits(), "{}", x);
        }
    }
}

#[test]
fn identity_has_ones_on_the_diagonal() {
    let m = Mat4::identity();
    assert_eq!(m.x_axis, Vec4::new(s(1.0), s(0.0), s(0.0), s(0.0)));
    assert_eq!(m.w_axis, Vec4::new(s(0.0), s(0.0), s(0.0), s(1.0)));
}
