//! Text-mode console driver over an 80 x 25 grid of 16-bit cells.
//!
//! The console keeps the cursor and decides, for each character, which cell receives
//! which value; the caller stores that value into the memory-mapped grid. Output
//! wraps to cell 0 once the grid is full: there is no scrolling and no awareness of
//! row boundaries.
use vstd::prelude::*;
use crate::string::{has_terminator, terminated_at};
use vstd::arithmetic::div_mod::{
    lemma_add_mod_noop, lemma_mod_pos_bound, lemma_mod_self_0, lemma_small_mod,
};

verus! {

/// Columns of the grid.
pub const VGA_WIDTH: usize = 80;

/// Rows of the grid.
pub const VGA_HEIGHT: usize = 25;

/// Number of cells in the grid.
pub const VGA_CELLS: usize = VGA_WIDTH * VGA_HEIGHT;

/// Display attribute written with every character.
pub const VGA_COLOR_LIGHT_GREEN_ON_BLACK: u16 = 0x02;

/// The cell value for `byte`: the attribute in the high byte, the character in the
/// low byte.
pub open spec fn cell_value(byte: u8) -> int {
    VGA_COLOR_LIGHT_GREEN_ON_BLACK as int * 256 + byte as int
}

/// The cell that the next character goes to when the cursor stands at `c`.
pub open spec fn write_index(c: nat) -> nat {
    if c >= VGA_CELLS {
        0
    } else {
        c
    }
}

/// The cursor after `k` characters have been written from cursor `c`.
pub open spec fn cursor_after(c: nat, k: nat) -> nat
    decreases k,
{
    if k == 0 {
        c
    } else {
        write_index(cursor_after(c, (k - 1) as nat)) + 1
    }
}

/// Composes the cell value for `byte`.
pub fn vga_cell_value(byte: u8) -> (r: u16)
    ensures
        r == cell_value(byte),
{
    let r = (VGA_COLOR_LIGHT_GREEN_ON_BLACK << 8) | (byte as u16);
    assert(((2u16 << 8u16) | (byte as u16)) == 512u16 + byte as u16) by (bit_vector);
    r
}

/// One store into the grid: `value` goes to cell `index`.
#[derive(Clone, Copy, Debug, PartialEq, Eq, Structural)]
pub struct CellWrite {
    pub index: usize,
    pub value: u16,
}

/// The console's state: the cursor, the cell of the next write (before wrapping).
pub struct VgaConsole {
    cursor: usize,
}

impl View for VgaConsole {
    type V = nat;

    closed spec fn view(&self) -> nat {
        self.cursor as nat
    }
}

impl VgaConsole {
    /// The cursor lies within `[0, VGA_CELLS]`; at `VGA_CELLS` the next write wraps.
    pub open spec fn wf(&self) -> bool {
        self@ <= VGA_CELLS
    }

    /// A console with its cursor at cell 0.
    pub fn new() -> (r: Self)
        ensures
            r@ == 0,
            r.wf(),
    {
        VgaConsole { cursor: 0 }
    }

    /// The current cursor.
    pub fn cursor(&self) -> (r: usize)
        ensures
            r == self@,
    {
        self.cursor
    }

    /// Resets the cursor to cell 0.
    pub fn vga_init(&mut self)
        ensures
            final(self)@ == 0,
            final(self).wf(),
    {
        self.cursor = 0;
    }

    /// Writes `byte` at the cursor, wrapping to cell 0 first when the grid is full, and
    /// advances the cursor by one. Returns the store to perform.
    pub fn vga_putc(&mut self, byte: u8) -> (w: CellWrite)
        requires
            old(self).wf(),
        ensures
            w.index == write_index(old(self)@),
            w.value == cell_value(byte),
            w.index < VGA_CELLS,
            final(self)@ == w.index + 1,
            final(self)@ == cursor_after(old(self)@, 1),
            final(self).wf(),
    {
        if self.cursor >= VGA_CELLS {
            self.cursor = 0;
        }
        let w = CellWrite { index: self.cursor, value: vga_cell_value(byte) };
        self.cursor = self.cursor + 1;
        assert(cursor_after(old(self)@, 1) == write_index(cursor_after(old(self)@, 0)) + 1);
        w
    }

    /// Writes the bytes of `text` before its first zero byte, one `vga_putc` each, and
    /// returns the stores in order.
    pub fn vga_puts(&mut self, text: &[u8]) -> (ws: Vec<CellWrite>)
        requires
            old(self).wf(),
            has_terminator(text@),
        ensures
            terminated_at(text@, ws@.len() as int),
            forall|i: int|
                0 <= i < ws@.len() ==> (#[trigger] ws@[i]).index == write_index(
                    cursor_after(old(self)@, i as nat),
                ) && ws@[i].value == cell_value(text@[i]),
            final(self)@ == cursor_after(old(self)@, ws@.len()),
            final(self).wf(),
    {
        let ghost k = choose|k: int| 0 <= k < text@.len() && text@[k] == 0;
        let mut ws: Vec<CellWrite> = Vec::new();
        let mut offset: usize = 0;
        loop
            invariant
                offset <= k < text@.len(),
                text@[k] == 0,
                text@.len() == text.len(),
                forall|i: int| 0 <= i < offset ==> text@[i] != 0,
                ws@.len() == offset,
                forall|i: int|
                    0 <= i < ws@.len() ==> (#[trigger] ws@[i]).index == write_index(
                        cursor_after(old(self)@, i as nat),
                    ) && ws@[i].value == cell_value(text@[i]),
                self@ == cursor_after(old(self)@, offset as nat),
                self.wf(),
            decreases k - offset,
        {
            let byte = text[offset];
            if byte == 0 {
                return ws;
            }
            let w = self.vga_putc(byte);
            ws.push(w);
            assert(cursor_after(old(self)@, (offset + 1) as nat) == write_index(
                cursor_after(old(self)@, offset as nat),
            ) + 1);
            offset = offset + 1;
        }
    }
}

/// Ensures that the cell index of the `k`-th write from cursor `c` is `k` cells past
/// the first one, around the grid.
pub proof fn lemma_write_index_after(c: nat, k: nat)
    requires
        c <= VGA_CELLS,
    ensures
        write_index(cursor_after(c, k)) == (write_index(c) + k) as int % (VGA_CELLS as int),
    decreases k,
{
    let m = VGA_CELLS as int;
    if k == 0 {
        assert(write_index(c) as int % m == write_index(c)) by (nonlinear_arith)
            requires
                0 <= (write_index(c) as int) < m,
        ;
    } else {
        let j = (k - 1) as nat;
        lemma_write_index_after(c, j);
        let x: int = (write_index(c) + j) as int;
        lemma_mod_pos_bound(x, m);
        lemma_add_mod_noop(x, 1, m);
        lemma_small_mod(1, m as nat);
        if x % m + 1 < m {
            lemma_small_mod((x % m + 1) as nat, m as nat);
        } else {
            lemma_mod_self_0(m);
        }
    }
}

/// Once a full grid of characters has been written after initialisation, the next
/// character goes to cell 0 again, not past the end of the grid.
pub proof fn lemma_wrap_after_full_screen()
    ensures
        write_index(cursor_after(0, VGA_CELLS as nat)) == 0,
        cursor_after(0, VGA_CELLS as nat) == VGA_CELLS,
{
    lemma_write_index_after(0, VGA_CELLS as nat);
    lemma_write_index_after(0, (VGA_CELLS - 1) as nat);
}

/// Initialises `console`, writes the string `"VGA"` to it and returns the display
/// attribute together with the stores to perform.
pub fn kfs_vga_writer_marker(console: &mut VgaConsole) -> (r: (u16, Vec<CellWrite>))
    ensures
        r.0 == VGA_COLOR_LIGHT_GREEN_ON_BLACK,
        r.1@ == seq![
            CellWrite { index: 0, value: 0x0256 },
            CellWrite { index: 1, value: 0x0247 },
            CellWrite { index: 2, value: 0x0241 },
        ],
        final(console)@ == 3,
{
    let demo: [u8; 4] = [0x56u8, 0x47u8, 0x41u8, 0u8];
    console.vga_init();
    assert(demo@[3] == 0);
    let ws = console.vga_puts(&demo);
    assert(terminated_at(demo@, 3));
    reveal_with_fuel(cursor_after, 4);
    assert(ws@[0] == CellWrite { index: 0, value: 0x0256 });
    assert(ws@[1] == CellWrite { index: 1, value: 0x0247 });
    assert(ws@[2] == CellWrite { index: 2, value: 0x0241 });
    assert(ws@ =~= seq![
        CellWrite { index: 0, value: 0x0256 },
        CellWrite { index: 1, value: 0x0247 },
        CellWrite { index: 2, value: 0x0241 },
    ]);
    (VGA_COLOR_LIGHT_GREEN_ON_BLACK, ws)
}

} // verus!
