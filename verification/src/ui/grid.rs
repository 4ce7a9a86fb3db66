//! The terminal's cell buffer as the renderer sees it: a grid of marks,
//! addressed by column and row.

use tui::buffer::Buffer;
use tui::style::Color;
use vstd::prelude::*;

verus! {

/// A rectangle of cells: its left column, its top row and its extent.
#[derive(Clone, Copy, Debug, PartialEq, Eq)]
pub struct Area {
    pub x: u16,
    pub y: u16,
    pub width: u16,
    pub height: u16,
}

impl Area {
    /// Whether the cell at column `x`, row `y` lies in this rectangle.
    pub open spec fn holds(&self, x: int, y: int) -> bool {
        &&& self.x <= x < self.x + self.width
        &&& self.y <= y < self.y + self.height
    }

    /// Whether this rectangle has no cells.
    pub open spec fn is_empty(&self) -> bool {
        self.width == 0 || self.height == 0
    }

    /// Whether every cell of this rectangle lies in `outer`.
    pub open spec fn within(&self, outer: Area) -> bool {
        self.is_empty() || {
            &&& outer.x <= self.x
            &&& self.x + self.width <= outer.x + outer.width
            &&& outer.y <= self.y
            &&& self.y + self.height <= outer.y + outer.height
        }
    }
}

/// The foreground colours the renderer writes.
#[derive(Clone, Copy, Debug, PartialEq, Eq)]
pub enum Ink {
    Green,
    Cyan,
}

/// What a cell shows: its symbol, and its foreground colour where that is
/// one of the renderer's own.
pub struct Mark {
    pub symbol: Seq<char>,
    pub ink: Option<Ink>,
}

/// The terminal library's cell buffer.
#[verifier::external_type_specification]
#[verifier::external_body]
pub struct ExBuffer(Buffer);

/// The rectangle of the screen that a cell buffer covers.
pub uninterp spec fn buffer_area(buf: Buffer) -> Area;

/// The marks of a cell buffer's cells, row after row: of each cell the
/// characters of its symbol, and its foreground colour where that is one of
/// the renderer's own.
pub uninterp spec fn buffer_marks(buf: Buffer) -> Seq<Mark>;

/// Where the cell at column `x`, row `y` stands in a buffer that covers
/// `grid`.
pub open spec fn cell_index(grid: Area, x: int, y: int) -> int {
    (y - grid.y) * grid.width + (x - grid.x)
}

/// The mark at column `x`, row `y` of a buffer that covers `grid`.
pub open spec fn mark_at(marks: Seq<Mark>, grid: Area, x: int, y: int) -> Mark {
    marks[cell_index(grid, x, y)]
}

/// Whether a buffer that covers `grid` with `cells` cells can be addressed by
/// column and row: it has one cell for each position, its right and bottom
/// edges are columns and rows that exist, and each cell's place can be
/// computed in 16 bits.
pub open spec fn grid_sound(grid: Area, cells: nat) -> bool {
    &&& grid.x + grid.width <= u16::MAX
    &&& grid.y + grid.height <= u16::MAX
    &&& grid.width * grid.height == cells
    &&& cells <= 0x1_0000
}

/// Reads `Buffer::area`: the rectangle that the buffer covers.
#[verifier::external_body]
pub(crate) fn area_of(buf: &Buffer) -> (area: Area)
    ensures
        area == buffer_area(*buf),
{
    let rect = buf.area();
    Area { x: rect.x, y: rect.y, width: rect.width, height: rect.height }
}

/// Reads the length of `Buffer::content`: the number of cells that the
/// buffer holds.
#[verifier::external_body]
pub(crate) fn cell_count(buf: &Buffer) -> (cells: usize)
    ensures
        cells == buffer_marks(*buf).len(),
{
    buf.content().len()
}

/// Calls `Buffer::get_mut` for the cell at column `x`, row `y`, then
/// `Cell::set_char` and `Cell::set_fg` on it. `get_mut` finds the cell at
/// `(y - area.y) * area.width + (x - area.x)`, computed in 16 bits, and fails
/// outside the area; the two setters replace the cell's symbol by the one
/// character and its foreground colour by the given one. No other cell
/// changes, nor does the area.
#[verifier::external_body]
pub(crate) fn put_mark(buf: &mut Buffer, x: u16, y: u16, symbol: char, ink: Ink)
    requires
        grid_sound(buffer_area(*old(buf)), buffer_marks(*old(buf)).len()),
        buffer_area(*old(buf)).holds(x as int, y as int),
    ensures
        buffer_area(*final(buf)) == buffer_area(*old(buf)),
        buffer_marks(*final(buf)) == buffer_marks(*old(buf)).update(
            cell_index(buffer_area(*old(buf)), x as int, y as int),
            (Mark { symbol: seq![symbol], ink: Some(ink) }),
        ),
{
    let color = match ink {
        Ink::Green => Color::Green,
        Ink::Cyan => Color::Cyan,
    };
    buf.get_mut(x, y).set_char(symbol).set_fg(color);
}

/// Every position of a grid has a place among its cells.
pub proof fn lemma_cell_index_in_range(grid: Area, x: int, y: int)
    requires
        grid.holds(x, y),
    ensures
        0 <= cell_index(grid, x, y) < grid.width * grid.height,
{
    let w = grid.width as int;
    let h = grid.height as int;
    let dx = x - grid.x;
    let dy = y - grid.y;
    assert(0 <= dy * w + dx < w * h) by (nonlinear_arith)
        requires
            0 <= dx < w,
            0 <= dy < h,
    ;
}

/// Two positions of a grid that differ have different places among its cells.
pub proof fn lemma_cell_index_distinct(grid: Area, x1: int, y1: int, x2: int, y2: int)
    requires
        grid.holds(x1, y1),
        grid.holds(x2, y2),
        x1 != x2 || y1 != y2,
    ensures
        cell_index(grid, x1, y1) != cell_index(grid, x2, y2),
{
    let w = grid.width as int;
    let dx1 = x1 - grid.x;
    let dy1 = y1 - grid.y;
    let dx2 = x2 - grid.x;
    let dy2 = y2 - grid.y;
    assert(dy1 * w + dx1 != dy2 * w + dx2) by (nonlinear_arith)
        requires
            0 <= dx1 < w,
            0 <= dx2 < w,
            0 <= dy1,
            0 <= dy2,
            dx1 != dx2 || dy1 != dy2,
    ;
}

/// Every place among a grid's cells belongs to one of its positions.
pub proof fn lemma_cell_index_onto(grid: Area, index: int) -> (at: (int, int))
    requires
        0 <= index < grid.width * grid.height,
    ensures
        grid.holds(at.0, at.1),
        cell_index(grid, at.0, at.1) == index,
{
    let w = grid.width as int;
    let h = grid.height as int;
    assert(w > 0) by (nonlinear_arith)
        requires
            0 <= index < w * h,
            0 <= w,
    ;
    let dx = index % w;
    let dy = index / w;
    assert(0 <= dx < w && 0 <= dy < h && dy * w + dx == index) by (nonlinear_arith)
        requires
            0 <= index < w * h,
            0 < w,
            dx == index % w,
            dy == index / w,
    ;
    (grid.x + dx, grid.y + dy)
}

/// Sets the symbol and the foreground colour of the cell at column `x`, row
/// `y`, and leaves every other cell as it was.
pub(crate) fn set_mark(buf: &mut Buffer, x: u16, y: u16, symbol: char, ink: Ink)
    requires
        grid_sound(buffer_area(*old(buf)), buffer_marks(*old(buf)).len()),
        buffer_area(*old(buf)).holds(x as int, y as int),
    ensures
        buffer_area(*final(buf)) == buffer_area(*old(buf)),
        buffer_marks(*final(buf)).len() == buffer_marks(*old(buf)).len(),
        forall|px: int, py: int|
            buffer_area(*old(buf)).holds(px, py) ==> #[trigger] mark_at(
                buffer_marks(*final(buf)),
                buffer_area(*old(buf)),
                px,
                py,
            ) == (if px == x && py == y {
                Mark { symbol: seq![symbol], ink: Some(ink) }
            } else {
                mark_at(buffer_marks(*old(buf)), buffer_area(*old(buf)), px, py)
            }),
{
    let ghost grid = buffer_area(*buf);
    let ghost before = buffer_marks(*buf);
    put_mark(buf, x, y, symbol, ink);
    proof {
        lemma_cell_index_in_range(grid, x as int, y as int);
        assert forall|px: int, py: int| grid.holds(px, py) implies #[trigger] mark_at(
            buffer_marks(*buf),
            grid,
            px,
            py,
        ) == (if px == x && py == y {
            Mark { symbol: seq![symbol], ink: Some(ink) }
        } else {
            mark_at(before, grid, px, py)
        }) by {
            lemma_cell_index_in_range(grid, px, py);
            if px != x || py != y {
                lemma_cell_index_distinct(grid, px, py, x as int, y as int);
            }
        }
    }
}

/// Whether a buffer that covers `grid` with `cells` cells can be addressed by
/// column and row.
pub fn is_grid_sound(grid: Area, cells: usize) -> (sound: bool)
    ensures
        sound == grid_sound(grid, cells as nat),
{
    let right: u32 = grid.x as u32 + grid.width as u32;
    let bottom: u32 = grid.y as u32 + grid.height as u32;
    assert(grid.width * grid.height <= 0xffff * 0xffff) by (nonlinear_arith)
        requires
            0 <= grid.width <= 0xffff,
            0 <= grid.height <= 0xffff,
    ;
    let positions: u64 = grid.width as u64 * grid.height as u64;
    right <= 0xffff && bottom <= 0xffff && positions == cells as u64 && positions <= 0x1_0000
}

/// Whether every cell of `area` lies in `outer`.
pub fn is_within(area: Area, outer: Area) -> (inside: bool)
    ensures
        inside == area.within(outer),
{
    area.width == 0 || area.height == 0 || (outer.x <= area.x && area.x as u32 + area.width as u32
        <= outer.x as u32 + outer.width as u32 && outer.y <= area.y && area.y as u32
        + area.height as u32 <= outer.y as u32 + outer.height as u32)
}

/// The marks of a sound grid are fixed by the marks at its positions: two
/// buffers of one grid that show the same at every column and row show the
/// same altogether.
pub proof fn lemma_marks_fixed_by_positions(one: Seq<Mark>, other: Seq<Mark>, grid: Area)
    requires
        grid_sound(grid, one.len()),
        other.len() == one.len(),
        forall|x: int, y: int|
            grid.holds(x, y) ==> #[trigger] mark_at(one, grid, x, y) == mark_at(other, grid, x, y),
    ensures
        one == other,
{
    assert forall|index: int| 0 <= index < one.len() implies one[index] == other[index] by {
        let at = lemma_cell_index_onto(grid, index);
        assert(mark_at(one, grid, at.0, at.1) == mark_at(other, grid, at.0, at.1));
    }
    assert(one =~= other);
}

} // verus!
