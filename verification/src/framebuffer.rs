//! The in-memory mirror of the controller's display RAM.
//!
//! The buffer opens with one byte that is reserved for the data control byte,
//! so that the whole buffer can go out in a single unframed write. The cells
//! follow page by page; a page is a band of eight pixel rows, and a cell holds
//! the eight pixels of one column of a page, the topmost in bit 0.
use vstd::prelude::*;
use vstd::slice::slice_subrange;

verus! {

/// Columns that a page holds in the packed layout.
pub const PANEL_WIDTH: i32 = 64;

/// Pixel rows of the panel.
pub const PANEL_HEIGHT: i32 = 64;

/// Pixel rows that share one cell.
pub const PAGE_HEIGHT: i32 = 8;

/// Cells of display RAM that the buffer mirrors.
pub const DISPLAY_RAM_SZ: usize = 1024;

/// Bytes before the first cell.
pub const CELL_OFFSET: usize = 1;

/// Size of the display buffer: the reserved leading byte, then the cells.
pub const DISPLAY_BUFFER_SZ: usize = 1024 + 1;

/// Whether `(x, y)` names a pixel of the panel.
pub open spec fn in_bounds(x: int, y: int) -> bool {
    0 <= x < PANEL_WIDTH && 0 <= y < PANEL_HEIGHT
}

/// Index in the buffer of the cell that holds pixel `(x, y)`.
pub open spec fn cell_index(x: int, y: int) -> int {
    x + (y / 8) * PANEL_WIDTH + CELL_OFFSET
}

/// The bit of its cell that stands for a pixel in row `y`.
pub open spec fn bit_mask(y: int) -> u8 {
    1u8 << ((y % 8) as u8)
}

/// Whether bit `bit` of `byte` is set, bit 0 being the lowest.
pub open spec fn bit_set(byte: u8, bit: int) -> bool {
    byte & (1u8 << (bit as u8)) != 0
}

/// Whether pixel `(x, y)` is lit in `frame`.
pub open spec fn pixel_lit(frame: Seq<u8>, x: int, y: int) -> bool {
    bit_set(frame[cell_index(x, y)], y % 8)
}

/// `frame` with pixel `(x, y)` lit.
pub open spec fn with_pixel(frame: Seq<u8>, x: int, y: int) -> Seq<u8> {
    frame.update(cell_index(x, y), frame[cell_index(x, y)] | bit_mask(y))
}

/// `frame` with every cell overwritten by `value`; the leading byte stays.
pub open spec fn filled(frame: Seq<u8>, value: u8) -> Seq<u8> {
    Seq::new(frame.len(), |i: int| if i < CELL_OFFSET { frame[i] } else { value })
}

/// A buffer of `len` zero bytes.
pub open spec fn zeroed(len: nat) -> Seq<u8> {
    Seq::new(len, |i: int| 0u8)
}

/// Maps a pixel to its place in the buffer: the index of its cell and the bit
/// within that cell. Gives `None` exactly for coordinates outside the panel.
pub fn locate(x: i32, y: i32) -> (place: Option<(usize, u8)>)
    ensures
        place is Some <==> in_bounds(x as int, y as int),
        place matches Some((cell, bit)) ==> cell == cell_index(x as int, y as int) && bit
            == bit_mask(y as int),
        place matches Some((cell, bit)) ==> CELL_OFFSET <= cell < DISPLAY_BUFFER_SZ,
{
    if x < 0 || x >= PANEL_WIDTH || y < 0 || y >= PANEL_HEIGHT {
        return None;
    }
    let row: i32 = y / PAGE_HEIGHT;
    let cell: usize = (x + row * PANEL_WIDTH) as usize + CELL_OFFSET;
    let shift: u8 = (y % PAGE_HEIGHT) as u8;
    let bit: u8 = 1u8 << shift;
    Some((cell, bit))
}

/// Setting bit `k` of a byte sets that bit and keeps the seven others.
proof fn lemma_or_sets_one_bit(byte: u8, k: u8, j: u8)
    requires
        k < 8,
        j < 8,
    ensures
        ((byte | (1u8 << k)) & (1u8 << j) != 0) == ((byte & (1u8 << j) != 0) || j == k),
{
    assert(((byte | (1u8 << k)) & (1u8 << j) != 0) == ((byte & (1u8 << j) != 0) || j == k))
        by (bit_vector)
        requires
            k < 8,
            j < 8,
    ;
}

/// Lighting a pixel sets exactly one bit of the buffer: bit `y % 8` of the
/// cell of `(x, y)`. Every other bit of every byte keeps its value, so a bit
/// that was set stays set.
pub proof fn lemma_with_pixel_sets_one_bit(frame: Seq<u8>, x: int, y: int, index: int, bit: int)
    requires
        frame.len() == DISPLAY_BUFFER_SZ,
        in_bounds(x, y),
        0 <= index < frame.len(),
        0 <= bit < 8,
    ensures
        with_pixel(frame, x, y).len() == frame.len(),
        bit_set(with_pixel(frame, x, y)[index], bit) == (bit_set(frame[index], bit) || (index
            == cell_index(x, y) && bit == y % 8)),
{
    if index == cell_index(x, y) {
        lemma_or_sets_one_bit(frame[index], (y % 8) as u8, bit as u8);
    }
}

/// Lighting a pixel lights it and changes no other pixel of the panel.
pub proof fn lemma_with_pixel_lights_one(frame: Seq<u8>, x: int, y: int, ox: int, oy: int)
    requires
        frame.len() == DISPLAY_BUFFER_SZ,
        in_bounds(x, y),
        in_bounds(ox, oy),
    ensures
        pixel_lit(with_pixel(frame, x, y), ox, oy) == (pixel_lit(frame, ox, oy) || (ox == x && oy
            == y)),
{
    lemma_with_pixel_sets_one_bit(frame, x, y, cell_index(ox, oy), oy % 8);
}

/// A fill overwrites in full. The last of two fills decides every cell,
/// whatever the first one wrote, and a fill repeated changes nothing more.
pub proof fn lemma_fill_last_write_wins(frame: Seq<u8>, first: u8, second: u8)
    ensures
        filled(filled(frame, first), second) == filled(frame, second),
        filled(filled(frame, second), second) == filled(frame, second),
        forall|i: int|
            CELL_OFFSET <= i < frame.len() ==> #[trigger] filled(frame, second)[i] == second,
        forall|i: int|
            0 <= i < CELL_OFFSET && i < frame.len() ==> #[trigger] filled(frame, second)[i]
                == frame[i],
{
    assert(filled(filled(frame, first), second) =~= filled(frame, second));
    assert(filled(filled(frame, second), second) =~= filled(frame, second));
}

/// Two fills with complementary values, taken in either order, end in
/// buffers whose cells are bitwise complements of each other.
pub proof fn lemma_fill_orders_are_complements(frame: Seq<u8>, value: u8, i: int)
    requires
        CELL_OFFSET <= i < frame.len(),
    ensures
        filled(filled(frame, value), !value)[i] == !filled(filled(frame, !value), value)[i],
{
}

/// The display buffer of one driver: a fixed number of bytes, never resized.
pub struct DisplayBuffer {
    bytes: Vec<u8>,
}

impl View for DisplayBuffer {
    type V = Seq<u8>;

    closed spec fn view(&self) -> Seq<u8> {
        self.bytes@
    }
}

impl DisplayBuffer {
    /// The buffer has its fixed length.
    pub open spec fn wf(&self) -> bool {
        self@.len() == DISPLAY_BUFFER_SZ
    }

    /// A buffer of zero bytes.
    pub fn new() -> (buffer: DisplayBuffer)
        ensures
            buffer.wf(),
            buffer@ == zeroed(DISPLAY_BUFFER_SZ as nat),
    {
        let mut bytes: Vec<u8> = Vec::new();
        let mut i: usize = 0;
        while i < DISPLAY_BUFFER_SZ
            invariant
                i <= DISPLAY_BUFFER_SZ,
                bytes@ == zeroed(i as nat),
            decreases DISPLAY_BUFFER_SZ - i,
        {
            bytes.push(0);
            i += 1;
        }
        DisplayBuffer { bytes }
    }

    /// Overwrites every cell with `data`. The leading byte keeps its value.
    pub fn fill(&mut self, data: u8)
        requires
            old(self).wf(),
        ensures
            final(self).wf(),
            final(self)@ == filled(old(self)@, data),
    {
        let mut i: usize = CELL_OFFSET;
        while i < DISPLAY_BUFFER_SZ
            invariant
                CELL_OFFSET <= i <= DISPLAY_BUFFER_SZ,
                self.bytes@.len() == DISPLAY_BUFFER_SZ,
                forall|j: int| 0 <= j < CELL_OFFSET ==> self.bytes@[j] == old(self).bytes@[j],
                forall|j: int| CELL_OFFSET <= j < i ==> self.bytes@[j] == data,
            decreases DISPLAY_BUFFER_SZ - i,
        {
            self.bytes[i] = data;
            i += 1;
        }
    }

    /// Lights pixel `(x, y)` and says whether it did: coordinates outside the
    /// panel leave the buffer as it is. No other pixel changes.
    pub fn set_pixel(&mut self, x: i32, y: i32) -> (drawn: bool)
        requires
            old(self).wf(),
        ensures
            final(self).wf(),
            drawn == in_bounds(x as int, y as int),
            drawn ==> final(self)@ == with_pixel(old(self)@, x as int, y as int),
            !drawn ==> final(self)@ == old(self)@,
    {
        match locate(x, y) {
            Some((cell, bit)) => {
                let lit: u8 = self.bytes[cell] | bit;
                self.bytes[cell] = lit;
                true
            },
            None => false,
        }
    }

    /// Writes `marker` into the reserved leading byte.
    pub fn set_marker(&mut self, marker: u8)
        requires
            old(self).wf(),
        ensures
            final(self).wf(),
            final(self)@ == old(self)@.update(0, marker),
    {
        self.bytes[0] = marker;
    }

    /// Whether pixel `(x, y)` is lit; `None` for coordinates outside the panel.
    pub fn pixel(&self, x: i32, y: i32) -> (lit: Option<bool>)
        requires
            self.wf(),
        ensures
            lit is Some <==> in_bounds(x as int, y as int),
            lit matches Some(on) ==> on == pixel_lit(self@, x as int, y as int),
    {
        match locate(x, y) {
            Some((cell, bit)) => Some(self.bytes[cell] & bit != 0),
            None => None,
        }
    }

    /// The whole buffer, leading byte included.
    pub fn as_bytes(&self) -> (bytes: &[u8])
        ensures
            bytes@ == self@,
    {
        self.bytes.as_slice()
    }

    /// The cells alone, without the leading byte.
    pub fn cells(&self) -> (cells: &[u8])
        requires
            self.wf(),
        ensures
            cells@ == self@.subrange(CELL_OFFSET as int, DISPLAY_BUFFER_SZ as int),
    {
        slice_subrange(self.bytes.as_slice(), CELL_OFFSET, DISPLAY_BUFFER_SZ)
    }
}

} // verus!
