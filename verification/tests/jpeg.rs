use esp32_cam_ov2640::jpeg::{
    is_complete_jpeg, JpegAssembler, JpegError, JpegFrameBounds, JpegScanner,
};

#[test]
fn scanner_handles_markers_across_chunks() {
    let mut scanner = JpegScanner::new();
    assert_eq!(scanner.scan_chunk(&[0x00, 0xff]), None);
    assert_eq!(scanner.scan_chunk(&[0xd8, 0x11, 0xff]), None);
    assert_eq!(
        scanner.scan_chunk(&[0xd9]),
        Some(JpegFrameBounds { start: 1, end: 6 })
    );
}

#[test]
fn assembler_extracts_first_complete_jpeg() {
    let mut assembler = JpegAssembler::new();
    let mut out = [0; 8];
    assert_eq!(assembler.push_chunk(&[0x00, 0xff], &mut out), Ok(None));
    assert_eq!(
        assembler.push_chunk(&[0xd8, 0x01, 0x02, 0xff, 0xd9, 0xff], &mut out),
        Ok(Some(6))
    );
    assert_eq!(&out[..6], &[0xff, 0xd8, 0x01, 0x02, 0xff, 0xd9]);
    assert!(is_complete_jpeg(&out[..6]));
}

#[test]
fn scanner_reports_frame_within_one_chunk() {
    let mut scanner = JpegScanner::new();
    let found = scanner.scan_chunk(&[0x10, 0xff, 0xd8, 0xaa, 0xff, 0xd9, 0x20]);
    assert_eq!(found, Some(JpegFrameBounds { start: 1, end: 6 }));
    // The byte after the end marker stays unread.
    assert_eq!(scanner.position(), 6);
    assert!(!scanner.in_frame());
}

#[test]
fn scanner_ignores_end_marker_without_start() {
    let mut scanner = JpegScanner::new();
    assert_eq!(scanner.scan_chunk(&[0xff, 0xd9, 0x00]), None);
    assert!(!scanner.in_frame());
    assert_eq!(scanner.position(), 3);
}

#[test]
fn scanner_push_tracks_frame_and_reset_clears() {
    let mut scanner = JpegScanner::new();
    assert_eq!(scanner.push(0xff), None);
    assert_eq!(scanner.push(0xd8), None);
    assert!(scanner.in_frame());
    scanner.reset();
    assert!(!scanner.in_frame());
    assert_eq!(scanner.position(), 0);
    assert_eq!(scanner, JpegScanner::default());
}

#[test]
fn scanner_restarts_frame_on_second_start_marker() {
    let mut scanner = JpegScanner::new();
    let found = scanner.scan_chunk(&[0xff, 0xd8, 0x01, 0xff, 0xd8, 0x02, 0xff, 0xd9]);
    assert_eq!(found, Some(JpegFrameBounds { start: 3, end: 8 }));
}

#[test]
fn bounds_len_and_empty() {
    let b = JpegFrameBounds { start: 3, end: 10 };
    assert_eq!(b.len(), 7);
    assert!(!b.is_empty());
    assert!(JpegFrameBounds { start: 4, end: 4 }.is_empty());
}

#[test]
fn complete_jpeg_checks_both_markers() {
    assert!(is_complete_jpeg(&[0xff, 0xd8, 0xff, 0xd9]));
    assert!(!is_complete_jpeg(&[0xff, 0xd8, 0xd9]));
    assert!(!is_complete_jpeg(&[0xff, 0xd8, 0x00, 0xd9]));
    assert!(!is_complete_jpeg(&[0x00, 0xd8, 0xff, 0xd9]));
    assert!(!is_complete_jpeg(&[]));
}

#[test]
fn assembler_reports_buffer_too_small_and_resets() {
    let mut assembler = JpegAssembler::new();
    let mut out = [0; 3];
    let r = assembler.push_chunk(&[0xff, 0xd8, 0x01, 0x02, 0xff, 0xd9], &mut out);
    assert_eq!(r, Err(JpegError::BufferTooSmall { capacity: 3 }));
    assert!(!assembler.in_frame());
    assert!(assembler.is_empty());
    assert_eq!(assembler, JpegAssembler::default());
}

#[test]
fn assembler_start_marker_needs_two_bytes() {
    let mut assembler = JpegAssembler::new();
    let mut out = [0; 1];
    let r = assembler.push_chunk(&[0xff, 0xd8], &mut out);
    assert_eq!(r, Err(JpegError::BufferTooSmall { capacity: 1 }));
    assert_eq!(out, [0xff]);
}

#[test]
fn assembler_keeps_frame_open_across_chunks() {
    let mut assembler = JpegAssembler::new();
    let mut out = [0; 16];
    assert_eq!(assembler.push_chunk(&[0xff, 0xd8, 0x05], &mut out), Ok(None));
    assert!(assembler.in_frame());
    assert_eq!(assembler.len(), 3);
    assert_eq!(assembler.push_chunk(&[0xff], &mut out), Ok(None));
    assert_eq!(assembler.push_chunk(&[0xd9, 0x77], &mut out), Ok(Some(5)));
    assert!(!assembler.in_frame());
    assert_eq!(assembler.len(), 0);
    assert!(is_complete_jpeg(&out[..5]));
    assembler.reset();
    assert_eq!(assembler, JpegAssembler::new());
}

#[test]
fn scanner_frame_spans_complete_jpeg_of_stream() {
    let stream = [0x00, 0xff, 0xff, 0xd8, 0x10, 0xff, 0x00, 0xff, 0xd9, 0x33];
    let mut scanner = JpegScanner::new();
    let found = scanner.scan_chunk(&stream).unwrap();
    assert_eq!(found, JpegFrameBounds { start: 2, end: 9 });
    assert!(is_complete_jpeg(&stream[found.start..found.end]));
}
