use wasm_resize::axis::{lanczos_axis, linear_axis, nearest_axis, precompute_lanczos_weights};
use wasm_resize::bilinear::{bilinear_interp_4_pixels, resize_rgba_bilinear};
use wasm_resize::copy::{batch_copy_nearest, copy_4_pixels_simd};
use wasm_resize::gamma::{init_gamma_luts, linear_to_srgb, srgb_to_linear};
use wasm_resize::gamma_bilinear::{
    gamma_correct_bilinear, linear_to_srgb_simd_4pixels, resize_rgba_gamma_bilinear,
    srgb_to_linear_simd_4pixels,
};
use wasm_resize::kernel::{lanczos_kernel, WEIGHT_ONE};
use wasm_resize::lanczos::{anti_ringing_clamp, resize_rgba_lanczos};
use wasm_resize::select::{
    is_integer_scaling, select_resize_algorithm, should_use_nearest_neighbor, ALGORITHM_BILINEAR,
    ALGORITHM_LANCZOS, ALGORITHM_NEAREST,
};
use wasm_resize::status::{
    ErrorState, RESIZE_ERR_ALIGNMENT, RESIZE_ERR_INVALID_SIZE, RESIZE_ERR_NULL_PTR,
    RESIZE_ERR_OVERFLOW, RESIZE_ERR_OVERLAP, RESIZE_OK,
};
use wasm_resize::validate::validate_params;

const SRC_AT: usize = 0x1000;
const DST_AT: usize = 0x4000_0000;

#[test]
fn kernel_exact_values() {
    assert_eq!(lanczos_kernel(0, 7), WEIGHT_ONE);
    assert_eq!(lanczos_kernel(1, 1), 0);
    assert_eq!(lanczos_kernel(-2, 1), 0);
    assert_eq!(lanczos_kernel(3, 1), 0);
    assert_eq!(lanczos_kernel(6, 2), 0);
    // L(0.5) = 0.6079..., L(1.5) = -0.1351..., L(2.5) = 0.0243...
    assert_eq!(lanczos_kernel(1, 2), 637460);
    assert_eq!(lanczos_kernel(-1, 2), 637460);
    assert_eq!(lanczos_kernel(3, 2), -141658);
    assert_eq!(lanczos_kernel(5, 2), 25498);
}

#[test]
fn kernel_far_distances_are_zero() {
    assert_eq!(lanczos_kernel(i64::MAX, 1), 0);
    assert_eq!(lanczos_kernel(i64::MIN, 1), 0);
    assert_eq!(lanczos_kernel(1 << 50, 3), 0);
    assert_eq!(lanczos_kernel(-(1 << 50), 3), 0);
}

#[test]
fn gamma_decode_values() {
    assert_eq!(srgb_to_linear(0), 0);
    assert_eq!(srgb_to_linear(10), 198);
    assert_eq!(srgb_to_linear(11), 219);
    assert_eq!(srgb_to_linear(100), 8351);
    assert_eq!(srgb_to_linear(128), 14146);
    assert_eq!(srgb_to_linear(255), 65535);
}

#[test]
fn gamma_round_trip_every_byte() {
    for x in 0..=255u8 {
        assert_eq!(linear_to_srgb(srgb_to_linear(x)), x);
    }
    assert_eq!(linear_to_srgb(0), 0);
    assert_eq!(linear_to_srgb(65535), 255);
    // just below a byte's decoded value gives the byte below
    assert_eq!(linear_to_srgb(srgb_to_linear(128) - 1), 127);
}

#[test]
fn gamma_tables_agree_with_conversions() {
    let t = init_gamma_luts();
    assert_eq!(t.to_linear.len(), 256);
    assert_eq!(t.to_srgb.len(), 256);
    for b in 0..=255u8 {
        assert_eq!(t.srgb_to_linear_lut(b), srgb_to_linear(b));
    }
    for k in 0..256u32 {
        assert_eq!(t.to_srgb[k as usize], linear_to_srgb((k * 257) as u16));
        assert_eq!(t.linear_to_srgb_lut((k * 257) as u16), t.to_srgb[k as usize]);
    }
    assert_eq!(t.to_srgb[0], 0);
    assert_eq!(t.to_srgb[1], 12);
    assert_eq!(t.to_srgb[128], 187);
    assert_eq!(t.to_srgb[255], 255);
}

#[test]
fn gamma_blend_keeps_alpha_and_quantises_colour() {
    let t = init_gamma_luts();
    let p = [100, 200, 255, 77];
    let r = gamma_correct_bilinear(&t, p, p, p, p, 3, 8, 5, 8);
    // colour goes through the 256-level table: 100 -> 99, 200 -> 199, 255 -> 255
    assert_eq!(r, [99, 199, 255, 77]);
    let black = [0, 0, 0, 255];
    let white = [255, 255, 255, 255];
    let mid = gamma_correct_bilinear(&t, black, white, black, white, 1, 2, 0, 2);
    // half-way in linear light is brighter than half-way in sRGB
    assert_eq!(mid, [187, 187, 187, 255]);
}

#[test]
fn gamma_bilinear_solid_colours() {
    for &(px, want) in &[([0u8, 198, 255, 9], [0u8, 198, 255, 9]), ([100, 100, 100, 100], [99, 99, 99, 100])] {
        let mut src = Vec::new();
        for _ in 0..12 {
            src.extend_from_slice(&px);
        }
        let mut dst = vec![0u8; 5 * 2 * 4];
        assert_eq!(resize_rgba_gamma_bilinear(SRC_AT, &src, 4, 3, DST_AT, &mut dst, 5, 2), RESIZE_OK);
        for k in 0..10 {
            assert_eq!(&dst[k * 4..k * 4 + 4], &want);
        }
    }
}

#[test]
fn selection_policy() {
    assert_eq!(select_resize_algorithm(100, 100, 200, 200), ALGORITHM_LANCZOS);
    assert_eq!(select_resize_algorithm(100, 100, 100, 100), ALGORITHM_LANCZOS);
    assert_eq!(select_resize_algorithm(900, 900, 100, 100), ALGORITHM_NEAREST);
    assert_eq!(select_resize_algorithm(800, 800, 100, 100), ALGORITHM_BILINEAR);
    // under 1 MP: Lanczos up to 4x (inclusive), bilinear up to 8x
    assert_eq!(select_resize_algorithm(1000, 500, 250, 125), ALGORITHM_LANCZOS);
    assert_eq!(select_resize_algorithm(1000, 500, 200, 100), ALGORITHM_BILINEAR);
    // 1 to 10 MP: Lanczos up to 2x, bilinear up to 4x
    assert_eq!(select_resize_algorithm(2000, 1000, 1000, 500), ALGORITHM_LANCZOS);
    assert_eq!(select_resize_algorithm(2000, 1000, 600, 300), ALGORITHM_BILINEAR);
    assert_eq!(select_resize_algorithm(2000, 1000, 400, 200), ALGORITHM_NEAREST);
    // over 10 MP: no Lanczos when shrinking, bilinear up to 2x
    assert_eq!(select_resize_algorithm(4000, 3000, 4000, 2999), ALGORITHM_BILINEAR);
    assert_eq!(select_resize_algorithm(4000, 3000, 2000, 1500), ALGORITHM_BILINEAR);
    assert_eq!(select_resize_algorithm(4000, 3000, 1900, 1500), ALGORITHM_NEAREST);
    assert!(should_use_nearest_neighbor(4000, 3000, 400, 300));
    assert!(!should_use_nearest_neighbor(100, 100, 50, 50));
}

#[test]
fn integer_scaling() {
    assert_eq!(is_integer_scaling(200, 100, 100, 100), (true, true));
    assert_eq!(is_integer_scaling(300, 100, 200, 100), (false, true));
    assert_eq!(is_integer_scaling(100, 50, 300, 200), (true, true));
    assert_eq!(is_integer_scaling(100, 50, 250, 75), (false, false));
}

#[test]
fn validation_order_and_sizes() {
    assert_eq!(validate_params(SRC_AT, 3, 2, DST_AT, 5, 4), Ok((24, 80)));
    assert_eq!(validate_params(0, 0, 0, 2, 0, 0), Err(RESIZE_ERR_NULL_PTR));
    assert_eq!(validate_params(SRC_AT, 0, 0, DST_AT + 2, 0, 0), Err(RESIZE_ERR_ALIGNMENT));
    assert_eq!(validate_params(SRC_AT, 0, 1, DST_AT, 1, 1), Err(RESIZE_ERR_INVALID_SIZE));
    assert_eq!(validate_params(SRC_AT, u32::MAX, u32::MAX, DST_AT, 1, 1), Err(RESIZE_ERR_OVERFLOW));
    assert_eq!(validate_params(SRC_AT, 65536, 1, DST_AT, 1, 1), Err(RESIZE_ERR_INVALID_SIZE));
    assert_eq!(validate_params(SRC_AT, 16384, 16385, DST_AT, 1, 1), Err(RESIZE_ERR_INVALID_SIZE));
    assert_eq!(validate_params(SRC_AT, 16384, 16384, DST_AT, 1, 1), Err(RESIZE_ERR_OVERLAP));
    assert_eq!(validate_params(usize::MAX - 3, 2, 2, 4, 1, 1), Ok((16, 4)));
    assert_eq!(validate_params(usize::MAX - 7, 2, 2, usize::MAX - 3, 1, 1), Err(RESIZE_ERR_OVERLAP));
}

#[test]
fn error_state_records_code() {
    let mut e = ErrorState::new();
    assert_eq!(e.last_error(), RESIZE_OK);
    e.set_last_error(RESIZE_ERR_OVERLAP);
    assert_eq!(e.last_error(), RESIZE_ERR_OVERLAP);
}

#[test]
fn copies_move_exact_bytes() {
    let src: Vec<u8> = (0..40).collect();
    let mut dst = vec![0u8; 24];
    copy_4_pixels_simd(&src, 4, &mut dst, 8);
    let mut want = vec![0u8; 24];
    for k in 0..16 {
        want[8 + k] = 4 + k as u8;
    }
    assert_eq!(dst, want);
    let mut dst2 = vec![1u8; 12];
    batch_copy_nearest(&src, 20, &mut dst2, 4, 2);
    assert_eq!(dst2, vec![1, 1, 1, 1, 20, 21, 22, 23, 24, 25, 26, 27]);
}

#[test]
fn four_pixel_blend() {
    let r = bilinear_interp_4_pixels([0, 0, 0, 0], [100, 200, 255, 4], [0, 0, 0, 0], [100, 200, 255, 4], 1, 4, 0, 4);
    assert_eq!(r, [25, 50, 63, 1]);
    let r = bilinear_interp_4_pixels([0, 0, 0, 0], [0, 0, 0, 0], [80, 80, 80, 80], [80, 80, 80, 80], 3, 8, 3, 4);
    assert_eq!(r, [60, 60, 60, 60]);
    // full weight on both axes gives the bottom-right neighbour
    let r = bilinear_interp_4_pixels([1, 2, 3, 4], [5, 6, 7, 8], [9, 10, 11, 12], [13, 14, 15, 16], 4, 4, 6, 6);
    assert_eq!(r, [13, 14, 15, 16]);
    let p = [17, 200, 3, 99];
    assert_eq!(bilinear_interp_4_pixels(p, p, p, p, 5, 5, 2, 2), p);
}

#[test]
fn gamma_blend_at_full_weight() {
    let t = init_gamma_luts();
    let a = [0, 0, 0, 10];
    let b = [255, 198, 0, 250];
    // weight 1 on both axes picks the bottom-right pixel, alpha unchanged
    let r = gamma_correct_bilinear(&t, a, a, a, b, 8, 8, 3, 3);
    assert_eq!(r, [255, 198, 0, 250]);
    let r = gamma_correct_bilinear(&t, b, a, b, a, 0, 8, 3, 3);
    assert_eq!(r, [255, 198, 0, 250]);
}

#[test]
fn axis_lookup_tables() {
    assert_eq!(nearest_axis(4, 2), vec![1, 3]);
    assert_eq!(nearest_axis(3, 3), vec![0, 1, 2]);
    let l = linear_axis(2, 4);
    let got: Vec<(usize, usize, u64)> = l.iter().map(|e| (e.lo, e.hi, e.frac)).collect();
    assert_eq!(got, vec![(0, 0, 6), (0, 1, 2), (0, 1, 6), (1, 1, 2)]);
    let taps = precompute_lanczos_weights(2, 5, 5);
    assert_eq!(taps.len(), 1);
    assert_eq!((taps[0].index, taps[0].weight), (2, WEIGHT_ONE));
    let axis = lanczos_axis(4, 2);
    assert_eq!(axis.len(), 2);
    for t in &axis {
        assert!(!t.is_empty() && t.len() <= 6);
    }
}

#[test]
fn bilinear_upscale_row() {
    let src = vec![0, 0, 0, 0, 200, 200, 200, 200];
    let mut dst = vec![0u8; 16];
    assert_eq!(resize_rgba_bilinear(SRC_AT, &src, 2, 1, DST_AT, &mut dst, 4, 1), RESIZE_OK);
    let reds: Vec<u8> = dst.iter().step_by(4).cloned().collect();
    assert_eq!(reds, vec![0, 50, 150, 200]);
}

#[test]
fn clamp_raises_then_lowers() {
    assert_eq!(anti_ringing_clamp(5, 10, 20), 10);
    assert_eq!(anti_ringing_clamp(25, 10, 20), 20);
    assert_eq!(anti_ringing_clamp(15, 10, 20), 15);
    assert_eq!(anti_ringing_clamp(7, 255, 0), 0);
}

#[test]
fn lanczos_stays_within_source_range() {
    // a sharp vertical edge between 50 and 200
    let (w, h) = (8u32, 4u32);
    let mut src = Vec::new();
    for _y in 0..h {
        for x in 0..w {
            let v = if x < 4 { 50 } else { 200 };
            src.extend_from_slice(&[v, v, v, 255]);
        }
    }
    for &(dw, dh) in &[(3u32, 2u32), (5, 4), (13, 7), (16, 8)] {
        let mut dst = vec![0u8; (dw * dh * 4) as usize];
        assert_eq!(resize_rgba_lanczos(SRC_AT, &src, w, h, DST_AT, &mut dst, dw, dh), RESIZE_OK);
        for px in dst.chunks(4) {
            for c in 0..3 {
                assert!(px[c] >= 50 && px[c] <= 200, "{:?}", px);
            }
            assert_eq!(px[3], 255);
        }
    }
}

#[test]
fn lanczos_large_upscale_leaves_far_samples_empty() {
    // one source pixel stretched tenfold: the outer destination samples lie
    // beyond the kernel's reach and come out as zero
    let src = vec![90, 60, 30, 255];
    let mut dst = vec![7u8; 40];
    assert_eq!(resize_rgba_lanczos(SRC_AT, &src, 1, 1, DST_AT, &mut dst, 10, 1), RESIZE_OK);
    assert_eq!(&dst[0..4], &[0, 0, 0, 0]);
    assert_eq!(&dst[16..20], &[90, 60, 30, 255]);
}

#[test]
fn four_pixel_gamma_conversions() {
    let t = init_gamma_luts();
    let mut px = vec![9u8, 9, 9, 9];
    px.extend_from_slice(&[100, 200, 255, 77, 0, 10, 11, 128, 30, 60, 90, 0, 225, 246, 198, 255]);
    let lin = srgb_to_linear_simd_4pixels(&t, &px, 4);
    assert_eq!(
        lin,
        [8351, 37851, 65535, 19789, 0, 198, 219, 32896, 850, 2961, 6700, 0, 49344, 60395, 37008, 65535]
    );
    let back = linear_to_srgb_simd_4pixels(&t, lin);
    assert_eq!(back, [99, 199, 255, 77, 0, 0, 0, 128, 28, 58, 89, 0, 225, 246, 198, 255]);
}
