//! Copies of whole pixels between byte buffers.

use vstd::prelude::*;

verus! {

/// Whether `after` is `before` with the `n` bytes at `dst_off` replaced by
/// the `n` bytes of `src` at `src_off`.
pub open spec fn copied(
    before: Seq<u8>,
    after: Seq<u8>,
    src: Seq<u8>,
    src_off: int,
    dst_off: int,
    n: int,
) -> bool {
    &&& after.len() == before.len()
    &&& forall|k: int|
        0 <= k < after.len() ==> #[trigger] after[k] == if dst_off <= k < dst_off + n {
            src[src_off + (k - dst_off)]
        } else {
            before[k]
        }
}

/// Copies `pixel_count` RGBA pixels from `src` at byte `src_off` to `dst` at
/// byte `dst_off`.
pub fn batch_copy_nearest(
    src: &[u8],
    src_off: usize,
    dst: &mut [u8],
    dst_off: usize,
    pixel_count: usize,
)
    requires
        src_off + 4 * pixel_count <= src@.len(),
        dst_off + 4 * pixel_count <= old(dst)@.len(),
    ensures
        copied(old(dst)@, final(dst)@, src@, src_off as int, dst_off as int, 4 * pixel_count),
{
    let src_len = src.len();
    let dst_len = dst.len();
    let n = 4 * pixel_count;
    let mut i: usize = 0;
    while i < n
        invariant
            n == 4 * pixel_count,
            src_len == src@.len(),
            dst_len == old(dst)@.len(),
            src_off + n <= src_len,
            dst_off + n <= dst_len,
            0 <= i <= n,
            copied(old(dst)@, dst@, src@, src_off as int, dst_off as int, i as int),
        decreases n - i,
    {
        dst[dst_off + i] = src[src_off + i];
        i = i + 1;
    }
}

/// Copies four RGBA pixels (16 bytes) from `src` at byte `src_off` to `dst`
/// at byte `dst_off`.
pub fn copy_4_pixels_simd(src: &[u8], src_off: usize, dst: &mut [u8], dst_off: usize)
    requires
        src_off + 16 <= src@.len(),
        dst_off + 16 <= old(dst)@.len(),
    ensures
        copied(old(dst)@, final(dst)@, src@, src_off as int, dst_off as int, 16),
{
    batch_copy_nearest(src, src_off, dst, dst_off, 4);
}

} // verus!
