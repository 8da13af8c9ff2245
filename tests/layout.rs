use kfs::layout::{kfs_layout_symbols_marker, segment_size, LayoutSymbols};

#[test]
fn image_size_adds_both_segments() {
    let symbols = LayoutSymbols {
        kernel_start: 0x10_0000,
        kernel_end: 0x10_3000,
        bss_start: 0x10_2000,
        bss_end: 0x10_2800,
    };
    assert_eq!(kfs_layout_symbols_marker(&symbols), 0x3800);
}

#[test]
fn image_size_with_empty_bss() {
    let symbols = LayoutSymbols {
        kernel_start: 0x10_0000,
        kernel_end: 0x10_1000,
        bss_start: 0x10_1000,
        bss_end: 0x10_1000,
    };
    assert_eq!(kfs_layout_symbols_marker(&symbols), 0x1000);
}

#[test]
fn segment_size_of_empty_segment_is_zero() {
    assert_eq!(segment_size(42, 42), 0);
}

#[test]
fn segment_size_wraps_when_end_precedes_start() {
    assert_eq!(segment_size(5, 3), usize::MAX - 1);
}
