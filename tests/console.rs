use kfs::vga::{
    kfs_vga_writer_marker, vga_cell_value, CellWrite, VgaConsole, VGA_CELLS,
    VGA_COLOR_LIGHT_GREEN_ON_BLACK,
};

#[test]
fn new_console_starts_at_cell_zero() {
    let console = VgaConsole::new();
    assert_eq!(console.cursor(), 0);
}

#[test]
fn cell_value_puts_attribute_in_high_byte() {
    assert_eq!(vga_cell_value(b'4'), 0x0234);
    assert_eq!(vga_cell_value(0), 0x0200);
    assert_eq!(vga_cell_value(0xFF), 0x02FF);
}

#[test]
fn putc_writes_at_cursor_and_advances() {
    let mut console = VgaConsole::new();
    let w = console.vga_putc(b'A');
    assert_eq!(w, CellWrite { index: 0, value: 0x0241 });
    assert_eq!(console.cursor(), 1);
    let w = console.vga_putc(b'B');
    assert_eq!(w, CellWrite { index: 1, value: 0x0242 });
    assert_eq!(console.cursor(), 2);
}

#[test]
fn putc_wraps_after_full_grid() {
    let mut console = VgaConsole::new();
    for i in 0..VGA_CELLS {
        let w = console.vga_putc(b'x');
        assert_eq!(w.index, i);
    }
    assert_eq!(console.cursor(), VGA_CELLS);
    let w = console.vga_putc(b'y');
    assert_eq!(w, CellWrite { index: 0, value: 0x0279 });
    assert_eq!(console.cursor(), 1);
}

#[test]
fn init_resets_cursor() {
    let mut console = VgaConsole::new();
    console.vga_putc(b'a');
    console.vga_putc(b'b');
    console.vga_init();
    assert_eq!(console.cursor(), 0);
    console.vga_init();
    assert_eq!(console.cursor(), 0);
    assert_eq!(console.vga_putc(b'c').index, 0);
}

#[test]
fn puts_writes_each_byte_before_terminator() {
    let mut console = VgaConsole::new();
    let ws = console.vga_puts(b"42\0ignored");
    assert_eq!(
        ws,
        vec![
            CellWrite { index: 0, value: 0x0234 },
            CellWrite { index: 1, value: 0x0232 },
        ]
    );
    assert_eq!(console.cursor(), 2);
}

#[test]
fn puts_empty_string_writes_nothing() {
    let mut console = VgaConsole::new();
    console.vga_putc(b'a');
    let ws = console.vga_puts(b"\0");
    assert!(ws.is_empty());
    assert_eq!(console.cursor(), 1);
}

#[test]
fn puts_wraps_across_end_of_grid() {
    let mut console = VgaConsole::new();
    for _ in 0..VGA_CELLS - 1 {
        console.vga_putc(b' ');
    }
    let ws = console.vga_puts(b"abc\0");
    let indices: Vec<usize> = ws.iter().map(|w| w.index).collect();
    assert_eq!(indices, vec![VGA_CELLS - 1, 0, 1]);
    assert_eq!(console.cursor(), 2);
}

#[test]
fn writer_marker_prints_vga_from_cell_zero() {
    let mut console = VgaConsole::new();
    console.vga_putc(b'z');
    let (attr, ws) = kfs_vga_writer_marker(&mut console);
    assert_eq!(attr, VGA_COLOR_LIGHT_GREEN_ON_BLACK);
    assert_eq!(
        ws,
        vec![
            CellWrite { index: 0, value: 0x0256 },
            CellWrite { index: 1, value: 0x0247 },
            CellWrite { index: 2, value: 0x0241 },
        ]
    );
    assert_eq!(console.cursor(), 3);
}
