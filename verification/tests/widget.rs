use bytesize::ByteSize;
use minibar::frame::build_frame;
use minibar::geometry::bar_width;
use minibar::geometry::empty_cells;
use minibar::geometry::filled_cells;
use minibar::geometry::percent_centi;
use minibar::geometry::throughput;
use minibar::Progress;

const SAVE: &[u8] = b"\x1b[s";
const RESTORE: &[u8] = b"\x1b[u";
const CLEAR_LINE: &[u8] = b"\x1b[2K";

fn frame(pos: u64, total: u64, w: u16, elapsed: u64, redraw: bool) -> Vec<u8> {
    let mut out = Vec::new();
    build_frame(&mut out, pos, total, w, elapsed, redraw);
    out
}

fn bar(filled: usize, empty: usize) -> String {
    let mut s = String::new();
    for _ in 0..filled {
        s.push('\u{2588}');
    }
    for _ in 0..empty {
        s.push('\u{2591}');
    }
    s
}

#[test]
fn mid_scenario_geometry() {
    assert_eq!(bar_width(100), 55);
    assert_eq!(filled_cells(100, 50, 100), 28);
    assert_eq!(empty_cells(100, 50, 100), 27);
    assert_eq!(percent_centi(50, 100), 5000);
    assert_eq!(throughput(50, 0), 0);
}

#[test]
fn mid_scenario_frame() {
    let expected = format!("\x1b[s{} 50 B/100 B (50.00%) - 0 B/s", bar(28, 27));
    assert_eq!(frame(50, 100, 100, 0, false), expected.as_bytes());
}

#[test]
fn overflow_scenario_frame() {
    let expected = format!("\x1b[s{} 150 B/100 B (150.00%) - 0 B/s", bar(55, 0));
    assert_eq!(frame(150, 100, 100, 0, false), expected.as_bytes());
}

#[test]
fn overflow_clamps_fill() {
    assert_eq!(filled_cells(100, 150, 100), 55);
    assert_eq!(empty_cells(100, 150, 100), 0);
    assert_eq!(filled_cells(100, u64::MAX, 1), 55);
    assert_eq!(empty_cells(100, u64::MAX, 1), 0);
}

#[test]
fn narrow_terminal_suffix_only() {
    assert_eq!(bar_width(45), 0);
    assert_eq!(bar_width(10), 0);
    assert_eq!(bar_width(46), 1);
    let expected = b"\x1b[s 10 B/100 B (10.00%) - 2 B/s";
    assert_eq!(frame(10, 100, 45, 5, false), expected);
    assert_eq!(frame(10, 100, 10, 5, false), expected);
}

#[test]
fn bar_conservation_samples() {
    for &w in &[10u16, 45, 46, 100, 200, u16::MAX] {
        for &(pos, total) in &[(0u64, 1u64), (1, 3), (50, 100), (150, 100), (u64::MAX, 7)] {
            let f = filled_cells(w, pos, total);
            let e = empty_cells(w, pos, total);
            assert_eq!(f + e, bar_width(w));
        }
    }
}

#[test]
fn render_twice_same_frame() {
    let mut p = Progress::new(Vec::<u8>::new(), 100);
    p.pos(50);
    p.render_at(100, 0).unwrap();
    p.render_at(100, 0).unwrap();
    let out = p.finish();
    let first = frame(50, 100, 100, 0, false);
    let mut expected = first.clone();
    expected.extend_from_slice(RESTORE);
    expected.extend_from_slice(&first);
    assert_eq!(out, expected);
}

#[test]
fn write_interception_stream() {
    let mut p = Progress::new(Vec::<u8>::new(), 100);
    p.pos(50);
    p.render_at(100, 0).unwrap();
    p.write_str("X\n").unwrap();
    p.render_at(100, 0).unwrap();
    let out = p.finish();
    let one = frame(50, 100, 100, 0, false);
    let mut expected = one.clone();
    expected.extend_from_slice(CLEAR_LINE);
    expected.extend_from_slice(RESTORE);
    expected.extend_from_slice(b"X\n");
    expected.extend_from_slice(&one);
    assert_eq!(out, expected);
}

#[test]
fn plain_write_str_untouched() {
    let mut p = Progress::new(Vec::<u8>::new(), 100);
    p.write_str("hello\n").unwrap();
    assert_eq!(p.finish(), b"hello\n");
}

#[test]
fn raw_write_bypasses_interception() {
    let mut p = Progress::new(Vec::<u8>::new(), 100);
    p.pos(1);
    p.render_at(50, 0).unwrap();
    let n = p.write(b"raw").unwrap();
    assert_eq!(n, 3);
    p.write_str("log\n").unwrap();
    let out = p.finish();
    let one = frame(1, 100, 50, 0, false);
    let mut expected = one.clone();
    expected.extend_from_slice(b"raw");
    expected.extend_from_slice(CLEAR_LINE);
    expected.extend_from_slice(RESTORE);
    expected.extend_from_slice(b"log\n");
    assert_eq!(out, expected);
}

#[test]
fn zero_elapsed_reports_zero() {
    assert_eq!(throughput(u64::MAX, 0), 0);
    assert_eq!(throughput(12345, 0), 0);
    let f = frame(99, 100, 45, 0, false);
    assert!(f.ends_with(b"- 0 B/s"));
}

#[test]
fn throughput_whole_seconds() {
    assert_eq!(throughput(1000, 3), 333);
    assert_eq!(throughput(6, 2), 3);
    let f = frame(1000, 2000, 45, 3, false);
    assert!(f.ends_with(b"- 333 B/s"));
}

#[test]
fn finish_returns_sink() {
    let mut p = Progress::new(b"head ".to_vec(), 100);
    p.pos(10);
    p.render_at(45, 0).unwrap();
    let mut out = p.finish();
    out.extend_from_slice(b" tail");
    let mut expected = b"head ".to_vec();
    expected.extend_from_slice(&frame(10, 100, 45, 0, false));
    expected.extend_from_slice(b" tail");
    assert_eq!(out, expected);
}

#[test]
fn kib_scenario_frame() {
    assert_eq!(format!("{}", ByteSize(1536)), "1.5 KiB");
    let expected = format!("\x1b[s{} 1.5 KiB/2.0 KiB (75.00%) - 1.5 KiB/s", bar(1, 0));
    assert_eq!(frame(1536, 2048, 46, 1, false), expected.as_bytes());
}

#[test]
fn percent_rounding() {
    assert_eq!(percent_centi(2, 3), 6667);
    assert_eq!(percent_centi(1, 3), 3333);
    assert_eq!(percent_centi(1, 1), 10000);
    assert_eq!(percent_centi(0, 5), 0);
    assert_eq!(percent_centi(u64::MAX, u64::MAX), 10000);
}

#[test]
fn position_regression_shrinks_bar() {
    let mut p = Progress::new(Vec::<u8>::new(), 100);
    p.pos(80);
    p.render_at(100, 0).unwrap();
    p.pos(30);
    p.render_at(100, 0).unwrap();
    let out = p.finish();
    let mut expected = frame(80, 100, 100, 0, false);
    expected.extend_from_slice(RESTORE);
    expected.extend_from_slice(&frame(30, 100, 100, 0, false));
    assert_eq!(out, expected);
}

#[test]
fn render_queries_live_terminal() {
    let mut p = Progress::new(Vec::<u8>::new(), 100);
    p.pos(5);
    let r = p.render();
    let out = p.finish();
    match r {
        Ok(()) => assert!(out.starts_with(SAVE)),
        Err(_) => assert!(out.is_empty()),
    }
}
