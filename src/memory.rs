//! Byte-granular copy and fill over caller-supplied regions.
//!
//! A region is a buffer together with an offset and a length; the caller
//! guarantees that the region lies within the buffer.
use vstd::prelude::*;

verus! {

/// Copies `len` bytes from `src[src_offset..]` into `dst[dst_offset..]`, one byte at a
/// time from left to right, and returns `dst_offset`.
pub fn memcpy(dst: &mut [u8], dst_offset: usize, src: &[u8], src_offset: usize, len: usize) -> (r:
    usize)
    requires
        dst_offset + len <= old(dst).len(),
        src_offset + len <= src.len(),
    ensures
        r == dst_offset,
        final(dst)@.len() == old(dst)@.len(),
        forall|i: int|
            0 <= i < len ==> #[trigger] final(dst)@[dst_offset + i] == src@[src_offset + i],
        forall|i: int|
            0 <= i < old(dst)@.len() && !(dst_offset <= i < dst_offset + len)
                ==> #[trigger] final(dst)@[i] == old(dst)@[i],
        len == 0 ==> final(dst)@ == old(dst)@,
{
    let mut idx: usize = 0;
    while idx < len
        invariant
            idx <= len,
            dst_offset + len <= old(dst).len(),
            src_offset + len <= src.len(),
            dst.len() == old(dst).len(),
            forall|i: int| 0 <= i < idx ==> #[trigger] dst@[dst_offset + i] == src@[src_offset + i],
            forall|i: int|
                0 <= i < old(dst)@.len() && !(dst_offset <= i < dst_offset + idx)
                    ==> #[trigger] dst@[i] == old(dst)@[i],
        decreases len - idx,
    {
        let value = src[src_offset + idx];
        dst[dst_offset + idx] = value;
        idx = idx + 1;
    }
    proof {
        if len == 0 {
            assert(dst@ =~= old(dst)@);
        }
    }
    dst_offset
}

/// Copies `len` bytes within one buffer, from `buf[src_offset..]` to `buf[dst_offset..]`,
/// and returns `dst_offset`. The two ranges either coincide or do not overlap; when
/// they coincide the buffer is left as it was.
pub fn memcpy_within(buf: &mut [u8], dst_offset: usize, src_offset: usize, len: usize) -> (r:
    usize)
    requires
        dst_offset + len <= old(buf).len(),
        src_offset + len <= old(buf).len(),
        dst_offset == src_offset || dst_offset + len <= src_offset || src_offset + len
            <= dst_offset,
    ensures
        r == dst_offset,
        final(buf)@.len() == old(buf)@.len(),
        forall|i: int|
            0 <= i < len ==> #[trigger] final(buf)@[dst_offset + i] == old(buf)@[src_offset + i],
        forall|i: int|
            0 <= i < old(buf)@.len() && !(dst_offset <= i < dst_offset + len)
                ==> #[trigger] final(buf)@[i] == old(buf)@[i],
        dst_offset == src_offset ==> final(buf)@ == old(buf)@,
        len == 0 ==> final(buf)@ == old(buf)@,
{
    let mut idx: usize = 0;
    while idx < len
        invariant
            idx <= len,
            dst_offset + len <= old(buf).len(),
            src_offset + len <= old(buf).len(),
            dst_offset == src_offset || dst_offset + len <= src_offset || src_offset + len
                <= dst_offset,
            buf.len() == old(buf).len(),
            forall|i: int|
                0 <= i < idx ==> #[trigger] buf@[dst_offset + i] == old(buf)@[src_offset + i],
            forall|i: int|
                0 <= i < old(buf)@.len() && !(dst_offset <= i < dst_offset + idx)
                    ==> #[trigger] buf@[i] == old(buf)@[i],
        decreases len - idx,
    {
        let value = buf[src_offset + idx];
        buf[dst_offset + idx] = value;
        idx = idx + 1;
    }
    proof {
        if dst_offset == src_offset || len == 0 {
            assert forall|i: int| 0 <= i < buf@.len() implies buf@[i] == old(buf)@[i] by {
                if dst_offset <= i < dst_offset + len {
                    assert(buf@[dst_offset + (i - dst_offset)] == old(buf)@[src_offset + (i
                        - dst_offset)]);
                }
            }
            assert(buf@ =~= old(buf)@);
        }
    }
    dst_offset
}

/// Writes `value` into each of the `len` bytes of `dst[dst_offset..]`, one byte at a
/// time, and returns `dst_offset`.
pub fn memset(dst: &mut [u8], dst_offset: usize, value: u8, len: usize) -> (r: usize)
    requires
        dst_offset + len <= old(dst).len(),
    ensures
        r == dst_offset,
        final(dst)@.len() == old(dst)@.len(),
        forall|i: int| dst_offset <= i < dst_offset + len ==> #[trigger] final(dst)@[i] == value,
        forall|i: int|
            0 <= i < old(dst)@.len() && !(dst_offset <= i < dst_offset + len)
                ==> #[trigger] final(dst)@[i] == old(dst)@[i],
        len == 0 ==> final(dst)@ == old(dst)@,
{
    let mut idx: usize = 0;
    while idx < len
        invariant
            idx <= len,
            dst_offset + len <= old(dst).len(),
            dst.len() == old(dst).len(),
            forall|i: int| dst_offset <= i < dst_offset + idx ==> #[trigger] dst@[i] == value,
            forall|i: int|
                0 <= i < old(dst)@.len() && !(dst_offset <= i < dst_offset + idx)
                    ==> #[trigger] dst@[i] == old(dst)@[i],
        decreases len - idx,
    {
        dst[dst_offset + idx] = value;
        idx = idx + 1;
    }
    proof {
        if len == 0 {
            assert(dst@ =~= old(dst)@);
        }
    }
    dst_offset
}

/// Copies three bytes into a zeroed four-byte buffer, fills its last byte with `0xAA`,
/// and returns the exclusive-or of the four bytes, which is `0xAA`.
pub fn kfs_memory_helpers_marker() -> (r: u8)
    ensures
        r == 0xAA,
{
    let mut dst: [u8; 4] = [0u8, 0u8, 0u8, 0u8];
    let src: [u8; 4] = [1u8, 2u8, 3u8, 0u8];
    memcpy(&mut dst, 0, &src, 0, 3);
    memset(&mut dst, 3, 0xAA, 1);
    let (a, b, c, d) = (dst[0], dst[1], dst[2], dst[3]);
    assert(a == 1u8 && b == 2u8 && c == 3u8 && d == 0xAAu8) by {
        assert(dst@[0 + 0int] == src@[0 + 0int]);
        assert(dst@[0 + 1int] == src@[0 + 1int]);
        assert(dst@[0 + 2int] == src@[0 + 2int]);
    }
    assert(1u8 ^ 2u8 ^ 3u8 ^ 0xAAu8 == 0xAAu8) by (bit_vector);
    a ^ b ^ c ^ d
}

} // verus!
