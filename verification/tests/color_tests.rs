use sky::color::Color;

#[test]
fn to_array_full_white() {
    let c = Color::new(1_000_000, 1_000_000, 1_000_000, 1_000_000);
    assert_eq!(c.to_array(), [65535, 65535, 65535, 65535]);
}

#[test]
fn to_array_transparent_black() {
    let c = Color::splat(0);
    assert_eq!(c.to_array(), [0, 0, 0, 0]);
}

#[test]
fn to_array_clamps_out_of_range() {
    let c = Color::new(-3_000_000, 2_000_000, 1_000_001, -1);
    assert_eq!(c.to_array(), [0, 65535, 65535, 0]);
}

#[test]
fn to_array_rounds_to_nearest() {
    // 0.5 * 65535 = 32767.5, which rounds up.
    let c = Color::splat(500_000);
    assert_eq!(c.to_array(), [32768, 32768, 32768, 32768]);
}

#[test]
fn new_from_u8_scales_channels() {
    let c = Color::new_from_u8(255, 0, 128, 255);
    assert_eq!(c, Color::new(1_000_000, 0, 501_961, 1_000_000));
}

#[test]
fn blend_transparent_foreground_keeps_background() {
    let bg = Color::new(123_456, 654_321, 111_111, 900_000);
    let fg = Color::new(999_999, 888_888, 777_777, 0);
    assert_eq!(bg.blend(fg), bg);
}

#[test]
fn blend_transparent_background_yields_foreground() {
    let bg = Color::new(123_456, 654_321, 111_111, 0);
    let fg = Color::new(999_999, 888_888, 777_777, 400_000);
    assert_eq!(bg.blend(fg), fg);
}

#[test]
fn blend_over_opaque_background_mixes_by_foreground_alpha() {
    let bg = Color::new(0, 0, 0, 1_000_000);
    let fg = Color::new(1_000_000, 1_000_000, 1_000_000, 500_000);
    let out = bg.blend(fg);
    assert_eq!(out, Color::new(500_000, 500_000, 500_000, 1_000_000));
}

#[test]
fn blend_alpha_stays_in_bounds() {
    let steps: Vec<i64> = vec![0, 1, 250_000, 500_000, 999_999, 1_000_000];
    for &ba in &steps {
        for &fa in &steps {
            for &bc in &steps {
                for &fc in &steps {
                    let bg = Color::new(bc, bc, bc, ba);
                    let fg = Color::new(fc, fc, fc, fa);
                    let out = bg.blend(fg);
                    let arr = out.to_array();
                    let a = arr[3] as i64;
                    // composited alpha at least each input's, never above one
                    let lo = (ba.max(fa) * 65535) / 1_000_000;
                    assert!(a >= lo, "alpha {a} below max of inputs {lo}");
                    assert!(a <= 65535);
                    // channels clamp into the unit range
                    for k in 0..4 {
                        assert!(arr[k] <= 65535);
                    }
                }
            }
        }
    }
}

#[test]
fn quantization_is_monotonic() {
    let mut prev: u16 = 0;
    let mut v: i64 = -100_000;
    while v <= 1_100_000 {
        let q = Color::splat(v).to_array()[0];
        assert!(q >= prev, "quantization decreased at {v}");
        prev = q;
        v += 317;
    }
}

#[test]
fn scale_rgb_leaves_alpha_alone() {
    let c = Color::new(400_000, 600_000, 800_000, 700_000).scale_rgb(500_000);
    assert_eq!(c, Color::new(200_000, 300_000, 400_000, 700_000));
}

#[test]
fn mul_alpha_scales_only_alpha() {
    let c = Color::new(400_000, 600_000, 800_000, 700_000).mul_alpha(500_000);
    assert_eq!(c, Color::new(400_000, 600_000, 800_000, 350_000));
}
