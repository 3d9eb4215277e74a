use aiu_desktop::reader::{read_line_bounded, LineError, SliceReader};

#[test]
fn bounded_reader_rejects_oversized_lines() {
    let mut reader = SliceReader::new(b"123456789\n".to_vec());
    assert!(read_line_bounded(&mut reader, 4).is_err());
}

#[test]
fn bounded_reader_preserves_multiple_frames() {
    let mut reader = SliceReader::with_capacity(4, b"one\ntwo\n".to_vec());
    assert_eq!(
        read_line_bounded(&mut reader, 16).unwrap(),
        Some(b"one\n".to_vec())
    );
    assert_eq!(
        read_line_bounded(&mut reader, 16).unwrap(),
        Some(b"two\n".to_vec())
    );
    assert_eq!(read_line_bounded(&mut reader, 16).unwrap(), None);
}

#[test]
fn a_line_exactly_at_the_limit_is_accepted() {
    let mut reader = SliceReader::with_capacity(3, b"abcd\nef".to_vec());
    assert_eq!(read_line_bounded(&mut reader, 5).unwrap(), Some(b"abcd\n".to_vec()));
    assert_eq!(read_line_bounded(&mut reader, 5).unwrap(), Some(b"ef".to_vec()));
    assert_eq!(read_line_bounded(&mut reader, 5).unwrap(), None);
}

#[test]
fn the_limit_error_is_reported_as_such() {
    let mut reader = SliceReader::with_capacity(2, b"abcdef\n".to_vec());
    assert!(matches!(read_line_bounded(&mut reader, 6), Err(LineError::LimitExceeded)));
}

#[test]
fn an_empty_stream_has_no_line() {
    let mut reader = SliceReader::new(Vec::new());
    assert_eq!(read_line_bounded(&mut reader, 0).unwrap(), None);
}

#[test]
fn empty_lines_are_frames_too() {
    let mut reader = SliceReader::with_capacity(1, b"\n\nx".to_vec());
    assert_eq!(read_line_bounded(&mut reader, 1).unwrap(), Some(b"\n".to_vec()));
    assert_eq!(read_line_bounded(&mut reader, 1).unwrap(), Some(b"\n".to_vec()));
    assert_eq!(read_line_bounded(&mut reader, 1).unwrap(), Some(b"x".to_vec()));
    assert_eq!(read_line_bounded(&mut reader, 1).unwrap(), None);
}
