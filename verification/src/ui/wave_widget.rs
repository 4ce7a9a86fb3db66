//! The waveform renderer: one sample per column, newest at the right, over a
//! horizontal line that marks zero amplitude.

use crate::data_buffer::latest;
use crate::data_buffer::DataBuffer;
use crate::ui::grid::area_of;
use crate::ui::grid::buffer_area;
use crate::ui::grid::buffer_marks;
use crate::ui::grid::cell_count;
use crate::ui::grid::grid_sound;
use crate::ui::grid::is_grid_sound;
use crate::ui::grid::is_within;
use crate::ui::grid::mark_at;
use crate::ui::grid::set_mark;
use crate::ui::grid::Area;
use crate::ui::grid::Ink;
use crate::ui::grid::Mark;
use tui::buffer::Buffer;
use vstd::prelude::*;

verus! {

/// The visual gain: samples are amplified by this factor before they are
/// plotted, so that quiet signals show.
pub const GAIN: i64 = 5;

/// The amplitude that stands for 1.0.
pub const FULL_SCALE: i64 = 32767;

/// The span of amplitudes from -1.0 to 1.0: twice the full scale.
pub const FULL_SPAN: i64 = 65534;

/// The symbol of the line that marks zero amplitude.
pub const BASELINE_SYMBOL: char = '=';

/// The symbol that plots a sample.
pub const TRACE_SYMBOL: char = '#';

/// The row on which a sample is plotted in a region of `height` rows, counted
/// from the region's top: the floor of `(GAIN * sample / FULL_SCALE + 1/2) *
/// height`. It may lie above or below the region.
pub open spec fn row_of(sample: i16, height: u16) -> int {
    ((2 * GAIN * sample + FULL_SCALE) * height) / (FULL_SPAN as int)
}

/// The row of the line that marks zero amplitude.
pub open spec fn baseline_row(height: u16) -> int {
    height as int / 2
}

/// The mark of the line that marks zero amplitude.
pub open spec fn baseline_mark() -> Mark {
    Mark { symbol: seq![BASELINE_SYMBOL], ink: Some(Ink::Green) }
}

/// The mark that plots a sample.
pub open spec fn trace_mark() -> Mark {
    Mark { symbol: seq![TRACE_SYMBOL], ink: Some(Ink::Cyan) }
}

/// What the cell at column `x`, row `y` shows once the zero line has been
/// drawn over the first `columns` columns of `area`, where it showed `under`
/// before.
pub open spec fn with_baseline(area: Area, columns: int, x: int, y: int, under: Mark) -> Mark {
    if area.holds(x, y) && x - area.x < columns && y - area.y == baseline_row(area.height) {
        baseline_mark()
    } else {
        under
    }
}

/// What the cell at column `x`, row `y` shows once `window` has been drawn
/// into `area`, where it showed `under` before: the trace where the sample of
/// its column falls on its row, else the zero line on that line's row, else
/// what it showed. A cell outside `area` keeps what it showed.
pub open spec fn drawn_mark(window: Seq<i16>, area: Area, x: int, y: int, under: Mark) -> Mark {
    if area.holds(x, y) && row_of(window[x - area.x], area.height) == y - area.y {
        trace_mark()
    } else {
        with_baseline(area, area.width as int, x, y, under)
    }
}

/// What the cell at column `x`, row `y` shows once the zero line and the
/// first `columns` samples of `window` have been drawn into `area`.
pub open spec fn partly_drawn(
    window: Seq<i16>,
    area: Area,
    columns: int,
    x: int,
    y: int,
    under: Mark,
) -> Mark {
    if x - area.x < columns {
        drawn_mark(window, area, x, y, under)
    } else {
        with_baseline(area, area.width as int, x, y, under)
    }
}

/// Why a waveform was not drawn.
#[derive(Clone, Copy, Debug, PartialEq, Eq)]
pub enum DrawError {
    /// The region has at least as many columns as the waveform has samples.
    TooFewSamples,
    /// The buffer does not hold one cell for each position of the rectangle
    /// it covers, or that rectangle reaches past the last column or row that
    /// can be numbered.
    UnsoundBuffer,
    /// The region is not inside the buffer.
    OutsideBuffer,
}

/// The row on which a sample is plotted in a region of `height` rows, if it
/// falls inside the region.
pub fn sample_row(sample: i16, height: u16) -> (row: Option<u16>)
    ensures
        row == (if 0 <= row_of(sample, height) < height {
            Some(row_of(sample, height) as u16)
        } else {
            None
        }),
{
    assert(-0x8_0000 <= 2 * GAIN * (sample as i64) <= 0x8_0000) by (nonlinear_arith)
        requires
            GAIN == 5,
            -0x8000 <= sample <= 0x7fff,
    ;
    let lifted: i64 = 2 * GAIN * (sample as i64) + FULL_SCALE;
    assert(-0x10_0000_0000 <= lifted * (height as i64) <= 0x10_0000_0000) by (nonlinear_arith)
        requires
            -0x10_0000 <= lifted <= 0x10_0000,
            0 <= height <= 0xffff,
    ;
    let scaled: i64 = lifted * (height as i64);
    if scaled < 0 {
        assert(scaled as int / 65534 < 0) by (nonlinear_arith)
            requires
                scaled < 0,
        ;
        return None;
    }
    let row: i64 = scaled / FULL_SPAN;
    if row < height as i64 {
        Some(row as u16)
    } else {
        None
    }
}

/// A widget that draws the newest samples of a waveform.
pub struct WaveWidget<'a> {
    waveform: &'a DataBuffer,
}

impl<'a> View for WaveWidget<'a> {
    type V = Seq<i16>;

    /// The samples of the waveform, oldest first.
    closed spec fn view(&self) -> Seq<i16> {
        self.waveform@
    }
}

impl<'a> WaveWidget<'a> {
    pub fn new(waveform: &'a DataBuffer) -> (made: Self)
        ensures
            made@ == waveform@,
    {
        Self { waveform }
    }

    /// Draws the newest `area.width` samples of the waveform into `area`, one
    /// per column from left to right, over the zero line. A sample whose row
    /// falls outside the region leaves its column without a trace. Cells
    /// outside `area` are not touched.
    ///
    /// The waveform must hold more samples than the region has columns, and
    /// a region that has any cells must lie inside a buffer that can be
    /// addressed.
    pub fn draw(&self, area: Area, buf: &mut Buffer)
        requires
            self@.len() > area.width,
            area.is_empty() || grid_sound(
                buffer_area(*old(buf)),
                buffer_marks(*old(buf)).len(),
            ),
            area.within(buffer_area(*old(buf))),
        ensures
            buffer_area(*final(buf)) == buffer_area(*old(buf)),
            buffer_marks(*final(buf)).len() == buffer_marks(*old(buf)).len(),
            area.is_empty() ==> buffer_marks(*final(buf)) == buffer_marks(*old(buf)),
            forall|x: int, y: int|
                buffer_area(*old(buf)).holds(x, y) ==> #[trigger] mark_at(
                    buffer_marks(*final(buf)),
                    buffer_area(*old(buf)),
                    x,
                    y,
                ) == drawn_mark(
                    latest(self@, area.width as int),
                    area,
                    x,
                    y,
                    mark_at(buffer_marks(*old(buf)), buffer_area(*old(buf)), x, y),
                ),
    {
        let ghost grid = buffer_area(*buf);
        let ghost before = buffer_marks(*buf);
        let ghost window = latest(self@, area.width as int);
        if area.width == 0 || area.height == 0 {
            return ;
        }
        let middle: u16 = area.height / 2;
        let mut col: u16 = 0;
        while col < area.width
            invariant
                col <= area.width,
                area.height > 0,
                middle == baseline_row(area.height),
                area.within(grid),
                buffer_area(*buf) == grid,
                buffer_marks(*buf).len() == before.len(),
                grid_sound(grid, before.len()),
                forall|x: int, y: int|
                    grid.holds(x, y) ==> #[trigger] mark_at(buffer_marks(*buf), grid, x, y)
                        == with_baseline(area, col as int, x, y, mark_at(before, grid, x, y)),
            decreases area.width - col,
        {
            set_mark(buf, area.x + col, area.y + middle, BASELINE_SYMBOL, Ink::Green);
            col += 1;
        }
        let skipped: usize = self.waveform.len() - area.width as usize;
        let mut col: u16 = 0;
        while col < area.width
            invariant
                col <= area.width,
                area.height > 0,
                area.within(grid),
                buffer_area(*buf) == grid,
                buffer_marks(*buf).len() == before.len(),
                grid_sound(grid, before.len()),
                self@.len() == skipped + area.width,
                skipped + area.width <= usize::MAX,
                window == latest(self@, area.width as int),
                forall|x: int, y: int|
                    grid.holds(x, y) ==> #[trigger] mark_at(buffer_marks(*buf), grid, x, y)
                        == partly_drawn(window, area, col as int, x, y, mark_at(before, grid, x, y)),
            decreases area.width - col,
        {
            let sample: i16 = self.waveform.get(skipped + col as usize);
            assert(sample == window[col as int]);
            match sample_row(sample, area.height) {
                Some(row) => {
                    set_mark(buf, area.x + col, area.y + row, TRACE_SYMBOL, Ink::Cyan);
                },
                None => {},
            }
            col += 1;
        }
    }

    /// Draws the waveform as `draw` does where `draw` can be called, and
    /// otherwise says why not and leaves the buffer as it was.
    pub fn draw_checked(&self, area: Area, buf: &mut Buffer) -> (done: Result<(), DrawError>)
        ensures
            buffer_area(*final(buf)) == buffer_area(*old(buf)),
            buffer_marks(*final(buf)).len() == buffer_marks(*old(buf)).len(),
            done == draw_verdict(
                self@.len(),
                area,
                buffer_area(*old(buf)),
                buffer_marks(*old(buf)).len(),
            ),
            done is Err || area.is_empty() ==> buffer_marks(*final(buf)) == buffer_marks(
                *old(buf),
            ),
            done is Ok ==> forall|x: int, y: int|
                buffer_area(*old(buf)).holds(x, y) ==> #[trigger] mark_at(
                    buffer_marks(*final(buf)),
                    buffer_area(*old(buf)),
                    x,
                    y,
                ) == drawn_mark(
                    latest(self@, area.width as int),
                    area,
                    x,
                    y,
                    mark_at(buffer_marks(*old(buf)), buffer_area(*old(buf)), x, y),
                ),
    {
        if self.waveform.len() <= area.width as usize {
            return Err(DrawError::TooFewSamples);
        }
        if area.width == 0 || area.height == 0 {
            return Ok(());
        }
        let grid: Area = area_of(buf);
        let cells: usize = cell_count(buf);
        if !is_grid_sound(grid, cells) {
            return Err(DrawError::UnsoundBuffer);
        }
        if !is_within(area, grid) {
            return Err(DrawError::OutsideBuffer);
        }
        self.draw(area, buf);
        Ok(())
    }
}

/// Whether a waveform of `samples` samples can be drawn into `area` of a
/// buffer that covers `grid` with `cells` cells, and if not, why not. A
/// region without cells asks nothing of the buffer.
pub open spec fn draw_verdict(samples: nat, area: Area, grid: Area, cells: nat) -> Result<
    (),
    DrawError,
> {
    if samples <= area.width {
        Err(DrawError::TooFewSamples)
    } else if area.is_empty() {
        Ok(())
    } else if !grid_sound(grid, cells) {
        Err(DrawError::UnsoundBuffer)
    } else if !area.within(grid) {
        Err(DrawError::OutsideBuffer)
    } else {
        Ok(())
    }
}

/// The drawing reads only the newest `area.width` samples: two waveforms of
/// one length that agree on them are drawn alike, whatever the older samples
/// are.
pub proof fn lemma_draw_reads_window_only(
    one: Seq<i16>,
    other: Seq<i16>,
    area: Area,
    x: int,
    y: int,
    under: Mark,
)
    requires
        one.len() == other.len(),
        one.len() > area.width,
        forall|i: int| one.len() - area.width <= i < one.len() ==> one[i] == other[i],
    ensures
        latest(one, area.width as int) == latest(other, area.width as int),
        drawn_mark(latest(one, area.width as int), area, x, y, under) == drawn_mark(
            latest(other, area.width as int),
            area,
            x,
            y,
            under,
        ),
{
    assert(latest(one, area.width as int) =~= latest(other, area.width as int));
}

/// The drawing stays inside its region: a cell outside it shows what it
/// showed before.
pub proof fn lemma_draws_inside_region_only(
    window: Seq<i16>,
    area: Area,
    x: int,
    y: int,
    under: Mark,
)
    requires
        !area.holds(x, y),
    ensures
        drawn_mark(window, area, x, y, under) == under,
{
}

/// A sample whose row falls outside the region leaves no trace in its
/// column: each cell of the column shows what it would show with the zero
/// line alone.
pub proof fn lemma_clipped_sample_leaves_no_trace(
    window: Seq<i16>,
    area: Area,
    x: int,
    y: int,
    under: Mark,
)
    requires
        area.holds(x, y),
        !(0 <= row_of(window[x - area.x], area.height) < area.height),
    ensures
        drawn_mark(window, area, x, y, under) == with_baseline(
            area,
            area.width as int,
            x,
            y,
            under,
        ),
{
}

/// A sample is drawn in its own column only: replacing the sample of one
/// column, by whatever value, changes no cell of another column.
pub proof fn lemma_columns_are_independent(
    window: Seq<i16>,
    column: int,
    sample: i16,
    area: Area,
    x: int,
    y: int,
    under: Mark,
)
    requires
        window.len() == area.width,
        0 <= column < window.len(),
        x - area.x != column,
    ensures
        drawn_mark(window.update(column, sample), area, x, y, under) == drawn_mark(
            window,
            area,
            x,
            y,
            under,
        ),
{
}

} // verus!
