//! Link-time image boundaries and the image size derived from them.
use vstd::prelude::*;

verus! {

/// The four boundary addresses that the link step exports: start and end of the
/// kernel image, and start and end of the zero-initialised data segment.
#[derive(Clone, Copy, Debug, PartialEq, Eq, Structural)]
pub struct LayoutSymbols {
    pub kernel_start: usize,
    pub kernel_end: usize,
    pub bss_start: usize,
    pub bss_end: usize,
}

/// The distance from `lo` to `hi`, modulo the address space.
pub open spec fn span(lo: usize, hi: usize) -> int {
    if lo <= hi {
        hi - lo
    } else {
        hi - lo + usize::MAX + 1
    }
}

/// The size of the image that `s` describes: the kernel image plus the
/// zero-initialised data segment.
pub open spec fn image_size(s: LayoutSymbols) -> int {
    span(s.kernel_start, s.kernel_end) + span(s.bss_start, s.bss_end)
}

/// The distance from `lo` to `hi` by wrapping subtraction: zero for an empty segment.
pub fn segment_size(lo: usize, hi: usize) -> (r: usize)
    ensures
        r == span(lo, hi),
{
    hi.wrapping_sub(lo)
}

/// Computes the size of the image from its boundary addresses.
pub fn kfs_layout_symbols_marker(symbols: &LayoutSymbols) -> (r: usize)
    requires
        image_size(*symbols) <= usize::MAX,
    ensures
        r == image_size(*symbols),
{
    segment_size(symbols.kernel_start, symbols.kernel_end) + segment_size(
        symbols.bss_start,
        symbols.bss_end,
    )
}

} // verus!
