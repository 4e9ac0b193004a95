use dray::logread::{check_log_filename, compute_read_range, trim_window, DEFAULT_READ_SIZE};

#[test]
fn test_check_log_filename() {
    assert!(check_log_filename("dray.log"));
    assert!(check_log_filename("web_interface-1.log"));
    assert!(check_log_filename(""));
    assert!(!check_log_filename("../secret"));
    assert!(!check_log_filename("a b.log"));
    assert!(!check_log_filename("logs/dray.log"));
}

#[test]
fn test_read_range_reverse_from_end() {
    // A negative position means the end of the file for a backward read.
    assert_eq!(compute_read_range(250000, -1, true, DEFAULT_READ_SIZE), (150000, 250000));
    assert_eq!(compute_read_range(50, -1, true, DEFAULT_READ_SIZE), (0, 50));
}

#[test]
fn test_read_range_forward_from_start() {
    assert_eq!(compute_read_range(250000, -1, false, DEFAULT_READ_SIZE), (0, 100000));
    assert_eq!(compute_read_range(50, -1, false, DEFAULT_READ_SIZE), (0, 50));
}

#[test]
fn test_read_range_from_position() {
    assert_eq!(compute_read_range(250000, 200000, false, DEFAULT_READ_SIZE), (200000, 250000));
    assert_eq!(compute_read_range(250000, 120000, true, DEFAULT_READ_SIZE), (20000, 120000));
    // A position past the end clamps to the file size.
    assert_eq!(compute_read_range(100, 500, false, DEFAULT_READ_SIZE), (100, 100));
}

#[test]
fn test_trim_window_short_window_untouched() {
    let raw = b"ab\ncd".to_vec();
    assert_eq!(trim_window(&raw, 100, true), raw);
    assert_eq!(trim_window(&raw, 100, false), raw);
}

#[test]
fn test_trim_window_reverse_drops_leading_fragment() {
    let raw = b"ab\ncd".to_vec();
    assert_eq!(trim_window(&raw, 5, true), b"cd".to_vec());
    let no_break = b"abcde".to_vec();
    assert_eq!(trim_window(&no_break, 5, true), no_break);
}

#[test]
fn test_trim_window_forward_drops_trailing_fragment() {
    let raw = b"ab\ncd".to_vec();
    assert_eq!(trim_window(&raw, 5, false), b"ab".to_vec());
    let no_break = b"abcde".to_vec();
    assert_eq!(trim_window(&no_break, 5, false), no_break);
}
