use heimdal::frame::{encode_frame, frame_header, frame_length, parse_frame};

#[test]
fn header_is_big_endian() {
    assert_eq!(frame_header(0x0102_0304), [1, 2, 3, 4]);
    assert_eq!(frame_header(0), [0, 0, 0, 0]);
    assert_eq!(frame_header(u32::MAX), [255, 255, 255, 255]);
    assert_eq!(frame_length([1, 2, 3, 4]), 0x0102_0304);
    assert_eq!(frame_length([0, 0, 1, 0]), 256);
}

#[test]
fn frame_of_empty_record() {
    assert_eq!(encode_frame(&[]), Ok(vec![0, 0, 0, 0]));
}

#[test]
fn frame_of_small_record() {
    assert_eq!(encode_frame(&[9, 8, 7]), Ok(vec![0, 0, 0, 3, 9, 8, 7]));
}

#[test]
fn frame_round_trip_at_many_sizes() {
    for size in [0usize, 1, 4096, 1_000_000] {
        let record: Vec<u8> = (0..size).map(|i| (i * 31 % 251) as u8).collect();
        let frame = encode_frame(&record).unwrap();
        assert_eq!(frame.len(), size + 4);
        assert_eq!(frame_length([frame[0], frame[1], frame[2], frame[3]]) as usize, size);
        assert_eq!(parse_frame(&frame), Some(record));
    }
}

#[test]
fn truncated_or_padded_frames_are_refused() {
    assert_eq!(parse_frame(&[0, 0, 0]), None);
    assert_eq!(parse_frame(&[0, 0, 0, 2, 1]), None);
    assert_eq!(parse_frame(&[0, 0, 0, 1, 1, 2]), None);
    assert_eq!(parse_frame(&[0, 0, 0, 0]), Some(vec![]));
}
