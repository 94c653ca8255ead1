use screencast::nal::NalSplitter;
use screencast::reader::{FeedableReader, H264Encoder, H264Stream, StreamRead};

#[test]
fn splitter_waits_for_two_start_codes() {
    let mut s = NalSplitter::new();
    assert_eq!(s.push(&[0, 0, 0, 1, 0x67, 0x42]), None);
    assert_eq!(s.pending(), &[0, 0, 0, 1, 0x67, 0x42]);
    let unit = s.push(&[0, 0, 0, 1, 0x68]);
    assert_eq!(unit, Some(vec![0, 0, 0, 1, 0x67, 0x42]));
    assert_eq!(s.pending(), &[0, 0, 0, 1, 0x68]);
}

#[test]
fn splitter_drops_bytes_before_first_start_code() {
    let mut s = NalSplitter::new();
    let unit = s.push(&[9, 9, 0, 0, 0, 1, 5, 0, 0, 0, 1, 6]);
    assert_eq!(unit, Some(vec![0, 0, 0, 1, 5]));
    assert_eq!(s.pending(), &[0, 0, 0, 1, 6]);
}

#[test]
fn splitter_hands_out_one_unit_per_push() {
    let mut s = NalSplitter::new();
    let unit = s.push(&[0, 0, 0, 1, 1, 0, 0, 0, 1, 2, 0, 0, 0, 1, 3]);
    assert_eq!(unit, Some(vec![0, 0, 0, 1, 1]));
    assert_eq!(s.pending(), &[0, 0, 0, 1, 2, 0, 0, 0, 1, 3]);
    let unit = s.push(&[]);
    assert_eq!(unit, Some(vec![0, 0, 0, 1, 2]));
    assert_eq!(s.pending(), &[0, 0, 0, 1, 3]);
    assert_eq!(s.push(&[]), None);
}

#[test]
fn splitter_finds_start_code_split_across_chunks() {
    let mut s = NalSplitter::new();
    assert_eq!(s.push(&[0, 0, 0, 1, 7, 0, 0]), None);
    assert_eq!(s.push(&[0, 1, 8]), Some(vec![0, 0, 0, 1, 7]));
    assert_eq!(s.pending(), &[0, 0, 0, 1, 8]);
}

#[test]
fn splitter_ignores_three_byte_prefix() {
    let mut s = NalSplitter::new();
    assert_eq!(s.push(&[0, 0, 1, 4, 0, 0, 1, 5]), None);
    assert_eq!(s.pending().len(), 8);
}

#[test]
fn feedable_reader_reads_back_what_was_fed() {
    let mut r = FeedableReader::new();
    r.feed(&[1, 2, 3]);
    r.feed(&[4, 5]);
    let mut buf = [0u8; 8];
    let n = r.read(&mut buf);
    assert_eq!(n, 5);
    assert_eq!(&buf[..5], &[1, 2, 3, 4, 5]);
    assert_eq!(&buf[5..], &[0, 0, 0]);
    assert_eq!(r.read(&mut buf), 0);
}

#[test]
fn feedable_reader_reads_in_order_across_small_buffers() {
    let mut r = FeedableReader::new();
    r.feed(&[10, 20, 30, 40, 50]);
    let mut buf = [0u8; 2];
    assert_eq!(r.read(&mut buf), 2);
    assert_eq!(buf, [10, 20]);
    assert_eq!(r.read(&mut buf), 2);
    assert_eq!(buf, [30, 40]);
    assert_eq!(r.read(&mut buf), 1);
    assert_eq!(buf, [50, 40]);
    let mut empty: [u8; 0] = [];
    r.feed(&[1]);
    assert_eq!(r.read(&mut empty), 0);
    assert_eq!(r.read(&mut buf), 1);
}

#[test]
fn h264_stream_reports_pending_then_end() {
    let mut s = H264Stream::new();
    let mut buf = [0u8; 4];
    assert_eq!(s.read(&mut buf), StreamRead::Pending);
    s.push_encoded(&[0, 0, 0, 1, 9, 9]);
    assert_eq!(s.read(&mut buf), StreamRead::Data(4));
    assert_eq!(buf, [0, 0, 0, 1]);
    s.finish();
    assert_eq!(s.read(&mut buf), StreamRead::Data(2));
    assert_eq!(&buf[..2], &[9, 9]);
    assert_eq!(s.read(&mut buf), StreamRead::EndOfStream);
}

#[test]
fn h264_encoder_waits_while_running_and_ends_when_done() {
    let mut e = H264Encoder::new();
    let mut buf = [0u8; 3];
    assert_eq!(e.read(&mut buf), StreamRead::Pending);
    assert_eq!(buf, [0, 0, 0]);
    assert!(!e.is_finished());
    e.push_encoded(&[1, 2, 3, 4]);
    assert_eq!(e.read(&mut buf), StreamRead::Data(3));
    assert_eq!(buf, [1, 2, 3]);
    e.finish();
    assert!(!e.is_finished());
    assert_eq!(e.read(&mut buf), StreamRead::Data(1));
    assert_eq!(buf[0], 4);
    assert!(e.is_finished());
    assert_eq!(e.read(&mut buf), StreamRead::EndOfStream);
}
