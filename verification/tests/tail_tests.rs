use dray::decimal::{port_line, port_string, u64_dec_string};
use dray::sink::render_log;
use dray::tail::{strip_partial_first_line, tail_bytes};

#[test]
fn test_decimal_rendering() {
    assert_eq!(u64_dec_string(0), "0");
    assert_eq!(u64_dec_string(7), "7");
    assert_eq!(u64_dec_string(10), "10");
    assert_eq!(u64_dec_string(65535), "65535");
    assert_eq!(u64_dec_string(18446744073709551615), "18446744073709551615");
    assert_eq!(port_string(8080), "8080");
    assert_eq!(port_line(8080), "8080\n");
    assert_eq!(port_line(0), "0\n");
}

#[test]
fn test_render_log_lines() {
    assert_eq!(render_log(&vec![]), "");
    assert_eq!(render_log(&vec![1, 22, 333]), "1\n22\n333\n");
}

#[test]
fn test_tail_edge_sizes() {
    // An empty log round-trips; a zero budget on a non-empty log leaves
    // nothing complete to return.
    assert!(tail_bytes(&Vec::new(), 100).is_empty());
    assert!(tail_bytes(&b"abc\ndef\n".to_vec(), 0).is_empty());
}

#[test]
fn test_tail_small_file_round_trip() {
    // A log within the byte budget comes back exactly as it stands.
    let content = b"8080\n8081\n9000\n".to_vec();
    let out = tail_bytes(&content, 1024);
    assert_eq!(out, content);
}

#[test]
fn test_tail_exact_budget() {
    let content = b"1\n2\n3\n".to_vec();
    let out = tail_bytes(&content, content.len());
    assert_eq!(out, content);
}

#[test]
fn test_tail_large_file_first_line_complete() {
    // Twelve bytes, budget seven: the window is "567\n89\n" and its
    // truncated leading line is discarded.
    let content = b"123\n4567\n89\n".to_vec();
    let out = tail_bytes(&content, 7);
    assert_eq!(out, b"89\n".to_vec());
    // The returned text begins right after a line terminator.
    let start = content.len() - out.len();
    assert_eq!(content[start - 1], b'\n');
}

#[test]
fn test_tail_window_without_newline() {
    // No line terminator falls inside the window: nothing complete to
    // return.
    let content = b"abcdefgh".to_vec();
    let out = tail_bytes(&content, 4);
    assert!(out.is_empty());
}

#[test]
fn test_strip_partial_first_line_matches_tail() {
    // Stripping the seeked window of a large log gives the same result
    // as the tail read over the whole content.
    let content = b"123\n4567\n89\n".to_vec();
    let window = content[content.len() - 7..].to_vec();
    assert_eq!(strip_partial_first_line(&window), tail_bytes(&content, 7));
    assert!(strip_partial_first_line(&b"no-newline".to_vec()).is_empty());
}

#[test]
fn test_tail_of_port_log() {
    // A tail over a rendered classification log still starts on a whole
    // port number.
    let log = render_log(&vec![10001, 10002, 10003, 10004]);
    let bytes = log.as_bytes().to_vec();
    let out = tail_bytes(&bytes, 13);
    assert_eq!(out, b"10003\n10004\n".to_vec());
}
