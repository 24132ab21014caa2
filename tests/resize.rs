use wasm_resize::bilinear::resize_rgba_bilinear;
use wasm_resize::gamma_bilinear::resize_rgba_gamma_bilinear;
use wasm_resize::lanczos::resize_rgba_lanczos;
use wasm_resize::nearest::resize_rgba_nearest;
use wasm_resize::resize::resize_rgba;
use wasm_resize::select::{select_resize_algorithm, ALGORITHM_NEAREST};
use wasm_resize::status::{
    RESIZE_ERR_ALIGNMENT, RESIZE_ERR_INVALID_SIZE, RESIZE_ERR_MEMORY, RESIZE_ERR_NULL_PTR,
    RESIZE_ERR_OVERFLOW, RESIZE_ERR_OVERLAP, RESIZE_OK,
};

// Host addresses of the two buffers: far apart, aligned, never dereferenced.
const SRC_AT: usize = 0x1000;
const DST_AT: usize = 0x4000_0000;

type Resizer = fn(usize, &[u8], u32, u32, usize, &mut [u8], u32, u32) -> i32;

const ALL: [Resizer; 5] = [
    resize_rgba_nearest,
    resize_rgba_bilinear,
    resize_rgba_lanczos,
    resize_rgba_gamma_bilinear,
    resize_rgba,
];

fn solid(w: u32, h: u32, px: [u8; 4]) -> Vec<u8> {
    let mut v = Vec::new();
    for _ in 0..w * h {
        v.extend_from_slice(&px);
    }
    v
}

fn pattern(w: u32, h: u32) -> Vec<u8> {
    let mut v = Vec::new();
    for y in 0..h {
        for x in 0..w {
            v.push((x * 37 + y * 11) as u8);
            v.push((x * 5 + y * 71 + 3) as u8);
            v.push(((x ^ y) * 29) as u8);
            v.push(255 - (x + y) as u8);
        }
    }
    v
}

fn run(f: Resizer, src: &[u8], sw: u32, sh: u32, dw: u32, dh: u32) -> (i32, Vec<u8>) {
    let mut dst = vec![0xAAu8; (dw * dh * 4) as usize];
    let r = f(SRC_AT, src, sw, sh, DST_AT, &mut dst, dw, dh);
    (r, dst)
}

#[test]
fn nearest_red_4x4_to_2x2() {
    let src = solid(4, 4, [255, 0, 0, 255]);
    let (r, dst) = run(resize_rgba_nearest, &src, 4, 4, 2, 2);
    assert_eq!(r, RESIZE_OK);
    assert_eq!(dst, solid(2, 2, [255, 0, 0, 255]));
}

#[test]
fn bilinear_checker_2x2_to_1x1() {
    let src = vec![
        0, 0, 0, 255, 255, 255, 255, 255, //
        255, 255, 255, 255, 0, 0, 0, 255,
    ];
    let (r, dst) = run(resize_rgba_bilinear, &src, 2, 2, 1, 1);
    assert_eq!(r, RESIZE_OK);
    assert_eq!(dst.len(), 4);
    for c in 0..3 {
        assert!(dst[c] == 127 || dst[c] == 128, "channel {} is {}", c, dst[c]);
    }
    assert_eq!(dst[3], 255);
}

#[test]
fn tenfold_downscale_selects_nearest() {
    assert_eq!(select_resize_algorithm(4000, 3000, 400, 300), ALGORITHM_NEAREST);
    let src = pattern(4000, 3000);
    let (r, auto) = run(resize_rgba, &src, 4000, 3000, 400, 300);
    assert_eq!(r, RESIZE_OK);
    let (r2, near) = run(resize_rgba_nearest, &src, 4000, 3000, 400, 300);
    assert_eq!(r2, RESIZE_OK);
    assert_eq!(auto, near);
}

#[test]
fn valid_calls_fill_whole_destination() {
    let src = pattern(7, 5);
    for f in ALL {
        for &(dw, dh) in &[(1, 1), (3, 2), (7, 5), (16, 9), (40, 3)] {
            let (r, dst) = run(f, &src, 7, 5, dw, dh);
            assert_eq!(r, RESIZE_OK);
            assert_eq!(dst.len(), (dw * dh * 4) as usize);
        }
    }
}

#[test]
fn identity_bilinear_and_lanczos() {
    let src = pattern(9, 6);
    for f in [resize_rgba_bilinear as Resizer, resize_rgba_lanczos, resize_rgba_nearest] {
        let (r, dst) = run(f, &src, 9, 6, 9, 6);
        assert_eq!(r, RESIZE_OK);
        assert_eq!(dst, src);
    }
}

#[test]
fn solid_colour_stays_solid() {
    let px = [200, 100, 50, 128];
    let src = solid(8, 6, px);
    for f in [resize_rgba_nearest as Resizer, resize_rgba_bilinear, resize_rgba_lanczos, resize_rgba] {
        for &(dw, dh) in &[(1, 1), (3, 4), (8, 6), (20, 15)] {
            let (r, dst) = run(f, &src, 8, 6, dw, dh);
            assert_eq!(r, RESIZE_OK);
            assert_eq!(dst, solid(dw, dh, px));
        }
    }
}

#[test]
fn zero_width_is_invalid_and_writes_nothing() {
    let src = pattern(4, 4);
    for f in ALL {
        let mut dst = vec![9u8; 16];
        let r = f(SRC_AT, &src, 4, 4, DST_AT, &mut dst, 0, 4);
        assert_eq!(r, RESIZE_ERR_INVALID_SIZE);
        assert_eq!(dst, vec![9u8; 16]);
    }
}

#[test]
fn too_many_pixels_is_invalid() {
    let src = pattern(2, 2);
    for f in ALL {
        let mut dst = vec![9u8; 16];
        // 65535 * 4097 pixels exceed the 256-megapixel limit
        let r = f(SRC_AT, &src, 2, 2, DST_AT, &mut dst, 65535, 4097);
        assert_eq!(r, RESIZE_ERR_INVALID_SIZE);
        assert_eq!(dst, vec![9u8; 16]);
    }
}

#[test]
fn overlapping_buffers_are_refused() {
    let src = pattern(4, 4);
    for f in ALL {
        let mut dst = vec![9u8; 16];
        let r = f(SRC_AT, &src, 4, 4, SRC_AT + 60, &mut dst, 2, 2);
        assert_eq!(r, RESIZE_ERR_OVERLAP);
        assert_eq!(dst, vec![9u8; 16]);
        // destination starting before the source and running into it
        let r = f(SRC_AT + 64, &src, 4, 4, SRC_AT + 56, &mut dst, 2, 2);
        assert_eq!(r, RESIZE_ERR_OVERLAP);
        // destination ending where the source starts
        let r = f(SRC_AT + 64, &src, 4, 4, SRC_AT + 48, &mut dst, 2, 2);
        assert_eq!(r, RESIZE_OK);
        // adjacent ranges do not overlap
        let r = f(SRC_AT, &src, 4, 4, SRC_AT + 64, &mut dst, 2, 2);
        assert_eq!(r, RESIZE_OK);
    }
}

#[test]
fn null_and_misaligned_addresses() {
    let src = pattern(2, 2);
    let mut dst = vec![0u8; 16];
    assert_eq!(resize_rgba(0, &src, 2, 2, DST_AT, &mut dst, 2, 2), RESIZE_ERR_NULL_PTR);
    assert_eq!(resize_rgba(SRC_AT, &src, 2, 2, 0, &mut dst, 2, 2), RESIZE_ERR_NULL_PTR);
    assert_eq!(resize_rgba(SRC_AT + 2, &src, 2, 2, DST_AT, &mut dst, 2, 2), RESIZE_ERR_ALIGNMENT);
    assert_eq!(resize_rgba(SRC_AT, &src, 2, 2, DST_AT + 1, &mut dst, 2, 2), RESIZE_ERR_ALIGNMENT);
}

#[test]
fn overflowing_size_is_reported() {
    let src = pattern(2, 2);
    let mut dst = vec![0u8; 16];
    let r = resize_rgba(SRC_AT, &src, u32::MAX, u32::MAX, DST_AT, &mut dst, 2, 2);
    assert_eq!(r, RESIZE_ERR_OVERFLOW);
}

#[test]
fn wrong_buffer_length_is_memory_error() {
    let src = pattern(2, 2);
    let mut dst = vec![5u8; 15];
    for f in ALL {
        let r = f(SRC_AT, &src, 2, 2, DST_AT, &mut dst, 2, 2);
        assert_eq!(r, RESIZE_ERR_MEMORY);
        assert_eq!(dst, vec![5u8; 15]);
    }
}
