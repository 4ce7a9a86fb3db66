use tui::buffer::Buffer;
use tui::layout::Rect;
use tui::style::Color;
use wavescope::data_buffer::DataBuffer;
use wavescope::ui::grid::is_grid_sound;
use wavescope::ui::grid::is_within;
use wavescope::ui::grid::Area;
use wavescope::ui::wave_widget::sample_row;
use wavescope::ui::wave_widget::DrawError;
use wavescope::ui::wave_widget::WaveWidget;

fn waveform(capacity: usize, newest: &[i16]) -> DataBuffer {
    let mut data = DataBuffer::new(capacity).unwrap();
    data.push_latest_data(newest);
    data
}

fn shown(buf: &Buffer, x: u16, y: u16) -> (String, Color) {
    let cell = buf.get(x, y);
    (cell.symbol.clone(), cell.style.fg)
}

fn blank() -> (String, Color) {
    (String::from(" "), Color::Reset)
}

fn baseline() -> (String, Color) {
    (String::from("="), Color::Green)
}

fn trace() -> (String, Color) {
    (String::from("#"), Color::Cyan)
}

#[test]
fn silence_is_plotted_on_the_middle_row() {
    assert_eq!(sample_row(0, 10), Some(5));
    assert_eq!(sample_row(0, 7), Some(3));
    assert_eq!(sample_row(0, 1), Some(0));
}

#[test]
fn rows_are_rounded_down() {
    assert_eq!(sample_row(3276, 10), Some(9));
    assert_eq!(sample_row(-3276, 10), Some(0));
    assert_eq!(sample_row(1000, 10), Some(6));
    assert_eq!(sample_row(-1000, 10), Some(3));
    assert_eq!(sample_row(1, 10), Some(5));
    assert_eq!(sample_row(-1, 10), Some(4));
}

#[test]
fn samples_beyond_the_region_have_no_row() {
    assert_eq!(sample_row(3277, 10), None);
    assert_eq!(sample_row(-3277, 10), None);
    assert_eq!(sample_row(i16::MAX, 10), None);
    assert_eq!(sample_row(i16::MIN, 10), None);
    assert_eq!(sample_row(i16::MAX, u16::MAX), None);
    assert_eq!(sample_row(0, 0), None);
}

#[test]
fn draws_the_newest_samples_over_the_zero_line() {
    let data = waveform(6, &[9999, -3276, 0, 3276, 20000]);
    let mut buf = Buffer::empty(Rect::new(0, 0, 6, 10));
    let area = Area { x: 0, y: 0, width: 4, height: 10 };
    WaveWidget::new(&data).draw(area, &mut buf);
    for x in 0..6u16 {
        for y in 0..10u16 {
            let expected = if x == 0 && y == 0 {
                trace()
            } else if x == 1 && y == 5 {
                trace()
            } else if x == 2 && y == 9 {
                trace()
            } else if x < 4 && y == 5 {
                baseline()
            } else {
                blank()
            };
            assert_eq!(shown(&buf, x, y), expected, "at column {} row {}", x, y);
        }
    }
}

#[test]
fn draws_inside_an_offset_region_only() {
    let data = waveform(5, &[-1000, 1000, 0]);
    let mut buf = Buffer::empty(Rect::new(2, 3, 7, 8));
    let area = Area { x: 4, y: 5, width: 3, height: 4 };
    assert_eq!(WaveWidget::new(&data).draw_checked(area, &mut buf), Ok(()));
    assert_eq!(sample_row(-1000, 4), Some(1));
    assert_eq!(sample_row(1000, 4), Some(2));
    assert_eq!(sample_row(0, 4), Some(2));
    for x in 2..9u16 {
        for y in 3..11u16 {
            let expected = if x == 4 && y == 6 {
                trace()
            } else if (x == 5 || x == 6) && y == 7 {
                trace()
            } else if x == 4 && y == 7 {
                baseline()
            } else {
                blank()
            };
            assert_eq!(shown(&buf, x, y), expected, "at column {} row {}", x, y);
        }
    }
}

#[test]
fn older_samples_do_not_change_the_drawing() {
    let area = Area { x: 0, y: 0, width: 3, height: 6 };
    let one = waveform(6, &[1, 2, 3, 500, -500, 0]);
    let other = waveform(6, &[-3000, 3000, 77, 500, -500, 0]);
    let mut first = Buffer::empty(Rect::new(0, 0, 3, 6));
    let mut second = Buffer::empty(Rect::new(0, 0, 3, 6));
    WaveWidget::new(&one).draw(area, &mut first);
    WaveWidget::new(&other).draw(area, &mut second);
    assert!(first == second);
    assert_eq!(shown(&first, 0, 3), trace());
    assert_eq!(shown(&first, 1, 2), trace());
}

#[test]
fn clipped_sample_leaves_its_column_bare() {
    let area = Area { x: 0, y: 0, width: 3, height: 6 };
    let clipped = waveform(4, &[1000, 30000, -1000]);
    let mut buf = Buffer::empty(Rect::new(0, 0, 3, 6));
    WaveWidget::new(&clipped).draw(area, &mut buf);
    for y in 0..6u16 {
        let expected = if y == 3 { baseline() } else { blank() };
        assert_eq!(shown(&buf, 1, y), expected);
    }
    let inside = waveform(4, &[1000, 0, -1000]);
    let mut other = Buffer::empty(Rect::new(0, 0, 3, 6));
    WaveWidget::new(&inside).draw(area, &mut other);
    for x in [0u16, 2] {
        for y in 0..6u16 {
            assert_eq!(shown(&buf, x, y), shown(&other, x, y));
        }
    }
    assert_eq!(shown(&buf, 0, 3), trace());
    assert_eq!(shown(&buf, 2, 2), trace());
}

#[test]
fn drawing_keeps_what_lies_under_untouched_cells() {
    let data = waveform(3, &[0, 0]);
    let mut buf = Buffer::empty(Rect::new(0, 0, 2, 3));
    buf.get_mut(0, 0).set_char('x').set_fg(Color::Red);
    buf.get_mut(1, 1).set_char('y').set_fg(Color::Red);
    let area = Area { x: 0, y: 0, width: 2, height: 3 };
    WaveWidget::new(&data).draw(area, &mut buf);
    assert_eq!(shown(&buf, 0, 0), (String::from("x"), Color::Red));
    assert_eq!(shown(&buf, 1, 1), trace());
    assert_eq!(shown(&buf, 0, 1), trace());
    assert_eq!(shown(&buf, 0, 2), blank());
}

#[test]
fn too_few_samples_are_refused() {
    let data = waveform(4, &[1, 2]);
    let mut buf = Buffer::empty(Rect::new(0, 0, 4, 4));
    let untouched = buf.clone();
    let area = Area { x: 0, y: 0, width: 4, height: 4 };
    assert_eq!(
        WaveWidget::new(&data).draw_checked(area, &mut buf),
        Err(DrawError::TooFewSamples)
    );
    assert!(buf == untouched);
}

#[test]
fn region_outside_the_buffer_is_refused() {
    let data = waveform(10, &[1, 2]);
    let mut buf = Buffer::empty(Rect::new(0, 0, 4, 4));
    let untouched = buf.clone();
    let area = Area { x: 2, y: 0, width: 3, height: 4 };
    assert_eq!(
        WaveWidget::new(&data).draw_checked(area, &mut buf),
        Err(DrawError::OutsideBuffer)
    );
    assert!(buf == untouched);
}

#[test]
fn unsound_buffer_is_refused() {
    let data = waveform(10, &[1, 2]);
    let mut buf = Buffer {
        area: Rect { x: 0, y: 0, width: 4, height: 4 },
        content: Vec::new(),
    };
    let area = Area { x: 0, y: 0, width: 3, height: 4 };
    assert_eq!(
        WaveWidget::new(&data).draw_checked(area, &mut buf),
        Err(DrawError::UnsoundBuffer)
    );
    assert!(buf.content.is_empty());
}

#[test]
fn empty_region_draws_nothing() {
    let data = waveform(3, &[1, 2]);
    let mut buf = Buffer::empty(Rect::new(0, 0, 4, 4));
    let untouched = buf.clone();
    let flat = Area { x: 1, y: 1, width: 2, height: 0 };
    assert_eq!(WaveWidget::new(&data).draw_checked(flat, &mut buf), Ok(()));
    let thin = Area { x: 1, y: 1, width: 0, height: 2 };
    assert_eq!(WaveWidget::new(&data).draw_checked(thin, &mut buf), Ok(()));
    assert!(buf == untouched);
}

#[test]
fn empty_region_asks_nothing_of_the_buffer() {
    let data = waveform(3, &[1, 2]);
    let mut buf = Buffer {
        area: Rect { x: 0, y: 0, width: 4, height: 4 },
        content: Vec::new(),
    };
    let thin = Area { x: 9, y: 9, width: 0, height: 2 };
    assert_eq!(WaveWidget::new(&data).draw_checked(thin, &mut buf), Ok(()));
    let wide = Area { x: 0, y: 0, width: 3, height: 2 };
    assert_eq!(
        WaveWidget::new(&data).draw_checked(wide, &mut buf),
        Err(DrawError::TooFewSamples)
    );
    assert!(buf.content.is_empty());
}

#[test]
fn grid_checks() {
    let grid = Area { x: 0, y: 0, width: 4, height: 3 };
    assert!(is_grid_sound(grid, 12));
    assert!(!is_grid_sound(grid, 11));
    assert!(!is_grid_sound(Area { x: 65530, y: 0, width: 6, height: 1 }, 6));
    assert!(is_grid_sound(Area { x: 65529, y: 0, width: 6, height: 1 }, 6));
    assert!(is_grid_sound(Area { x: 0, y: 0, width: 256, height: 256 }, 65536));
    assert!(!is_grid_sound(Area { x: 0, y: 0, width: 257, height: 256 }, 65792));
    assert!(is_within(Area { x: 1, y: 1, width: 3, height: 2 }, grid));
    assert!(!is_within(Area { x: 1, y: 1, width: 4, height: 2 }, grid));
    assert!(!is_within(Area { x: 1, y: 2, width: 3, height: 2 }, grid));
    assert!(is_within(Area { x: 9, y: 9, width: 0, height: 2 }, grid));
}
