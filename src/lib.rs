//! RGBA image resampling: nearest-neighbour, bilinear, gamma-correct bilinear
//! and separable Lanczos, computed in exact integer and fixed-point arithmetic.
//!
//! Buffers are byte slices of `width * height * 4` bytes (R, G, B, A, row-major).
//! The host's view of where those buffers live is passed as plain addresses, so
//! that the same checks the host boundary needs (null, alignment, overlap) are
//! made, and proved, here.
//!
//! Each entry point (`resize_rgba`, `resize_rgba_nearest`, `resize_rgba_bilinear`,
//! `resize_rgba_lanczos`, `resize_rgba_gamma_bilinear`) returns a status code
//! and, on success, has filled the destination with exactly the image that its
//! module's specification function describes; on failure it writes nothing.

pub mod status;
pub mod validate;
pub mod call;
pub mod select;

pub mod arith;
pub mod image;
pub mod axis;
pub mod kernel;
pub mod copy;

pub mod nearest;
pub mod bilinear;
pub mod lanczos;
pub mod gamma;
pub mod gamma_bilinear;
pub mod resize;

pub mod laws;
pub mod lanczos_laws;
pub mod gamma_laws;
