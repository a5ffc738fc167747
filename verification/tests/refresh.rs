use led_matrix::color::colors_for_phase;
use led_matrix::color::row_color;
use led_matrix::color::tick;
use led_matrix::color::RowColor;
use led_matrix::engine::RefreshEngine;
use led_matrix::scanner::ColumnScanner;

fn lit_channels(c: RowColor) -> u32 {
    (c.red as u32) + (c.green as u32) + (c.blue as u32)
}

#[test]
fn row_color_is_one_hot_by_formula() {
    for phase in 0u8..32 {
        for row in 0u8..5 {
            let c = row_color(phase, row);
            assert_eq!(lit_channels(c), 1);
            let channel = (phase + row) % 3;
            assert_eq!(c.red, channel == 0);
            assert_eq!(c.green, channel == 1);
            assert_eq!(c.blue, channel == 2);
        }
    }
}

#[test]
fn colors_for_phase_matches_row_color() {
    for phase in 0u8..32 {
        let rows = colors_for_phase(phase);
        assert_eq!(rows.len(), 5);
        for row in 0u8..5 {
            assert_eq!(rows[row as usize], row_color(phase, row));
        }
    }
}

#[test]
fn tick_counts_up_below_threshold() {
    assert_eq!(tick(0, 0, 1024), (1, 0));
    assert_eq!(tick(1, 7, 1024), (2, 7));
    assert_eq!(tick(1022, 31, 1024), (1023, 31));
}

#[test]
fn tick_steps_phase_at_threshold() {
    assert_eq!(tick(1023, 0, 1024), (0, 1));
    assert_eq!(tick(1023, 5, 1024), (0, 6));
    assert_eq!(tick(1023, 31, 1024), (0, 0));
    assert_eq!(tick(0, 2, 1), (0, 3));
}

#[test]
fn scanner_starts_dark_at_column_zero() {
    let s = ColumnScanner::new();
    assert_eq!(s.col, 0);
    assert_eq!(s.lines.len(), 14);
    assert!(s.lines.iter().all(|&lit| !lit));
}

#[test]
fn scanner_keeps_one_column_lit() {
    let mut s = ColumnScanner::new();
    for n in 1u32..=40 {
        let (off, on) = s.advance();
        assert_eq!(off as u32, (n - 1) % 14);
        assert_eq!(on as u32, n % 14);
        assert_eq!(s.col as u32, n % 14);
        let lit: Vec<usize> = (0..14).filter(|&i| s.lines[i]).collect();
        assert_eq!(lit, vec![s.col as usize]);
    }
}

#[test]
fn scanner_wraps_at_column_thirteen() {
    let mut s = ColumnScanner::new();
    for _ in 0..13 {
        s.advance();
    }
    assert_eq!(s.col, 13);
    let (off, on) = s.advance();
    assert_eq!(off, 13);
    assert_eq!(on, 0);
    assert_eq!(s.col, 0);
}

#[test]
fn first_tick_from_start() {
    let mut e = RefreshEngine::new(1024);
    let frame = e.step();
    assert_eq!(frame.column_off, 0);
    assert_eq!(frame.column_on, 1);
    assert_eq!(e.scanner.col, 1);
    assert_eq!(e.phase, 0);
    assert_eq!(e.counter, 1);
    assert_eq!(
        frame.rows[0],
        RowColor { red: true, green: false, blue: false }
    );
}

#[test]
fn phase_steps_after_threshold_ticks() {
    let mut e = RefreshEngine::new(1024);
    for _ in 0..1024 {
        e.step();
    }
    assert_eq!(e.scanner.col, (1024 % 14) as u8);
    assert_eq!(e.scanner.col, 2);
    assert_eq!(e.phase, 1);
    assert_eq!(e.counter, 0);
    let row0 = row_color(e.phase, 0);
    assert!(row0.green);
    assert!(!row0.red);
    assert!(!row0.blue);
}

#[test]
fn column_sweep_returns_to_zero_after_fourteen_ticks() {
    for threshold in [1u32, 3, 1024] {
        let mut e = RefreshEngine::new(threshold);
        for _ in 0..14 {
            e.step();
        }
        assert_eq!(e.scanner.col, 0);
    }
}

#[test]
fn color_cycle_returns_to_start_after_full_period() {
    let mut e = RefreshEngine::new(1024);
    for _ in 0..(1024 * 32) {
        e.step();
    }
    assert_eq!(e.phase, 0);
    assert_eq!(e.counter, 0);
    assert_eq!(e.scanner.col, ((1024 * 32) % 14) as u8);
}

#[test]
fn column_advances_once_per_tick_even_on_phase_step() {
    let mut e = RefreshEngine::new(2);
    let mut expected_col: u32 = 0;
    for _ in 0..20 {
        let phase_before = e.phase;
        let frame = e.step();
        expected_col = (expected_col + 1) % 14;
        assert_eq!(frame.column_on as u32, expected_col);
        assert_eq!(e.scanner.col as u32, expected_col);
        let _ = phase_before;
    }
}

#[test]
fn every_frame_row_is_one_hot() {
    let mut e = RefreshEngine::new(3);
    for _ in 0..200 {
        let frame = e.step();
        assert_eq!(frame.rows.len(), 5);
        for c in &frame.rows {
            assert_eq!(lit_channels(*c), 1);
        }
    }
}
