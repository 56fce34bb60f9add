use video_gen::error::Error;
use video_gen::error::UNSUPPORTED_CONVERSION;
use video_gen::format::CodecInfo;
use video_gen::format::PixelLayout;
use video_gen::format::negotiate;
use video_gen::frame::RgbFrame;
use video_gen::frame::luma;
use video_gen::session::VideoGenerator;
use video_gen::time::Rational;
use video_gen::time::rescale_ts;

fn rgb_session(stream_id: i32) -> VideoGenerator {
    let info = CodecInfo { layouts: vec![PixelLayout::Rgb24] };
    VideoGenerator::new(Rational::new(1, 30), stream_id, Some(&info), 16, 16).unwrap()
}

fn solid_frame(layout: PixelLayout, width: u32, height: u32, byte: u8) -> RgbFrame {
    let bpp = match layout {
        PixelLayout::Gray8 => 1,
        PixelLayout::Rgb24 => 3,
        PixelLayout::Rgb32 => 4,
        PixelLayout::VideoToolbox => 0,
    };
    let data = vec![byte; (width as usize) * (height as usize) * bpp];
    RgbFrame::from_bytes(layout, width, height, data).unwrap()
}

#[test]
fn negotiate_empty_list_fails() {
    let layouts: Vec<PixelLayout> = vec![];
    assert_eq!(negotiate(&layouts), Err(Error::MissingFormat));
}

#[test]
fn negotiate_all_hardware_fails() {
    let layouts = vec![PixelLayout::VideoToolbox, PixelLayout::VideoToolbox];
    assert_eq!(negotiate(&layouts), Err(Error::MissingFormat));
}

#[test]
fn negotiate_picks_first_usable_regardless_of_position() {
    let head = vec![PixelLayout::Rgb24, PixelLayout::VideoToolbox, PixelLayout::Gray8];
    assert_eq!(negotiate(&head), Ok(PixelLayout::Rgb24));
    let middle = vec![PixelLayout::VideoToolbox, PixelLayout::Gray8, PixelLayout::Rgb24];
    assert_eq!(negotiate(&middle), Ok(PixelLayout::Gray8));
    let tail = vec![PixelLayout::VideoToolbox, PixelLayout::VideoToolbox, PixelLayout::Rgb32];
    assert_eq!(negotiate(&tail), Ok(PixelLayout::Rgb32));
}

#[test]
fn new_without_codec_is_invalid_codec() {
    let r = VideoGenerator::new(Rational::new(1, 30), 0, None, 16, 16);
    assert!(matches!(r, Err(Error::InvalidCodec)));
}

#[test]
fn new_with_hardware_only_codec_is_missing_format() {
    let info = CodecInfo { layouts: vec![PixelLayout::VideoToolbox] };
    let r = VideoGenerator::new(Rational::new(1, 30), 0, Some(&info), 16, 16);
    assert!(matches!(r, Err(Error::MissingFormat)));
}

#[test]
fn new_session_starts_at_zero() {
    let s = rgb_session(5);
    assert_eq!(s.frame_num, 0);
    assert!(!s.finalized);
    assert_eq!(s.stream_id, 5);
    assert_eq!(s.pixel_format, PixelLayout::Rgb24);
    assert_eq!(s.width(), 16);
    assert_eq!(s.height(), 16);
}

#[test]
fn timestamps_are_monotonic_and_unit_spaced() {
    let mut s = rgb_session(0);
    let frame = solid_frame(PixelLayout::Rgb24, 2, 2, 9);
    for k in 0..50i64 {
        let sub = s.add_frame(&frame);
        assert_eq!(sub.pts, k);
    }
    assert_eq!(s.frame_num, 50);
}

#[test]
fn submission_is_converted_to_session_layout() {
    let mut s = rgb_session(0);
    let frame = solid_frame(PixelLayout::Rgb32, 2, 2, 7);
    let sub = s.add_frame(&frame);
    assert_eq!(sub.frame.layout, PixelLayout::Rgb24);
    assert_eq!(sub.frame.width, 2);
    assert_eq!(sub.frame.height, 2);
    assert_eq!(sub.frame.data, vec![7u8; 12]);
}

#[test]
fn finalize_is_idempotent() {
    let mut s = rgb_session(0);
    let frame = solid_frame(PixelLayout::Rgb24, 2, 2, 1);
    s.add_frame(&frame);
    assert!(s.finalize());
    let frames_after_first = s.frame_num;
    assert!(!s.finalize());
    assert!(!s.finalize());
    assert!(s.finalized);
    assert_eq!(s.frame_num, frames_after_first);
}

#[test]
fn zero_frame_session_still_finalizes_once() {
    let mut s = rgb_session(0);
    assert_eq!(s.frame_num, 0);
    assert!(s.finalize());
    assert!(!s.finalize());
    assert_eq!(s.frame_num, 0);
}

#[test]
fn drain_stamps_stream_and_rescales() {
    let s = rgb_session(3);
    let ready = vec![0i64, 1, 2];
    let packets = s.drain_encoder(&ready, Rational::new(1, 15360));
    assert_eq!(packets.len(), 3);
    for (k, p) in packets.iter().enumerate() {
        assert_eq!(p.stream_id, 3);
        // one tick of 1/30 is 512 ticks of 1/15360
        assert_eq!(p.pts, 512 * k as i64);
    }
}

#[test]
fn drain_of_nothing_is_empty() {
    let s = rgb_session(3);
    let packets = s.drain_encoder(&vec![], Rational::new(1, 30));
    assert!(packets.is_empty());
}

#[test]
fn rescale_rounds_to_nearest() {
    // 1800 frames at 1/30 last 60 seconds
    assert_eq!(rescale_ts(1800, Rational::new(1, 30), Rational::new(1, 1)), 60);
    // 1/30 expressed in 1/20 ticks is 2/3, which rounds up to 1
    assert_eq!(rescale_ts(1, Rational::new(1, 30), Rational::new(1, 20)), 1);
    // a half rounds away from zero
    assert_eq!(rescale_ts(1, Rational::new(1, 2), Rational::new(1, 1)), 1);
    // identity rescale changes nothing
    assert_eq!(rescale_ts(12345, Rational::new(1, 30), Rational::new(1, 30)), 12345);
}

#[test]
fn stream_lookup_finds_first_match() {
    let s = rgb_session(4);
    assert_eq!(s.stream(&vec![9, 4, 4]), Ok(1));
    assert_eq!(s.stream(&vec![4]), Ok(0));
}

#[test]
fn stream_lookup_missing_is_missing_stream() {
    let s = rgb_session(4);
    assert_eq!(s.stream(&vec![0, 1, 2]), Err(Error::MissingStream));
    assert_eq!(s.stream(&vec![]), Err(Error::MissingStream));
}

#[test]
fn conversion_does_not_mutate_the_source() {
    let data: Vec<u8> = (0u8..=119).collect();
    let frame = RgbFrame::from_bytes(PixelLayout::Rgb24, 8, 5, data.clone()).unwrap();
    let out = frame.convert(PixelLayout::Gray8).unwrap();
    assert_eq!(frame.data, data);
    assert_eq!(out.layout, PixelLayout::Gray8);
    assert_eq!(out.data.len(), 40);
}

#[test]
fn conversion_rgb24_to_rgb32_adds_opaque_alpha() {
    let frame =
        RgbFrame::from_bytes(PixelLayout::Rgb24, 2, 1, vec![1, 2, 3, 4, 5, 6]).unwrap();
    let out = frame.convert(PixelLayout::Rgb32).unwrap();
    assert_eq!(out.data, vec![1, 2, 3, 255, 4, 5, 6, 255]);
}

#[test]
fn conversion_rgb32_to_rgb24_drops_alpha() {
    let frame =
        RgbFrame::from_bytes(PixelLayout::Rgb32, 2, 1, vec![1, 2, 3, 9, 4, 5, 6, 8]).unwrap();
    let out = frame.convert(PixelLayout::Rgb24).unwrap();
    assert_eq!(out.data, vec![1, 2, 3, 4, 5, 6]);
}

#[test]
fn conversion_gray_to_rgb_replicates_luma() {
    let frame = RgbFrame::from_bytes(PixelLayout::Gray8, 2, 1, vec![10, 200]).unwrap();
    let out = frame.convert(PixelLayout::Rgb24).unwrap();
    assert_eq!(out.data, vec![10, 10, 10, 200, 200, 200]);
}

#[test]
fn conversion_rgb_to_gray_uses_luma_weights() {
    let frame = RgbFrame::from_bytes(PixelLayout::Rgb24, 1, 1, vec![100, 50, 25]).unwrap();
    let out = frame.convert(PixelLayout::Gray8).unwrap();
    // (77*100 + 150*50 + 29*25 + 128) / 256 == 62
    assert_eq!(out.data, vec![62]);
    assert_eq!(luma(100, 50, 25), 62);
    // a grey pixel keeps its value exactly
    assert_eq!(luma(131, 131, 131), 131);
}

#[test]
fn conversion_to_same_layout_copies_bytes() {
    let bytes = vec![3u8, 1, 4, 1, 5, 9, 2, 6];
    let frame = RgbFrame::from_bytes(PixelLayout::Rgb32, 1, 2, bytes.clone()).unwrap();
    let out = frame.convert(PixelLayout::Rgb32).unwrap();
    assert_eq!(out.data, bytes);
}

#[test]
fn conversion_to_hardware_layout_fails() {
    let frame = RgbFrame::from_bytes(PixelLayout::Rgb24, 1, 1, vec![1, 2, 3]).unwrap();
    let r = frame.convert(PixelLayout::VideoToolbox);
    assert!(matches!(r, Err(Error::Encoder(UNSUPPORTED_CONVERSION))));
}

#[test]
fn from_bytes_rejects_mismatched_buffers() {
    assert!(RgbFrame::from_bytes(PixelLayout::Rgb24, 2, 2, vec![0; 11]).is_none());
    assert!(RgbFrame::from_bytes(PixelLayout::Rgb24, 0, 2, vec![]).is_none());
    assert!(RgbFrame::from_bytes(PixelLayout::Rgb24, 2, 0, vec![]).is_none());
    assert!(RgbFrame::from_bytes(PixelLayout::VideoToolbox, 2, 2, vec![0; 12]).is_none());
    assert!(RgbFrame::from_bytes(PixelLayout::Rgb24, 2, 2, vec![0; 12]).is_some());
}

#[test]
fn error_messages_name_the_kind() {
    assert_eq!(Error::MissingFormat.message(), "Codec is missing a pixel format");
    assert_eq!(Error::InvalidCodec.message(), "Can't find that codec");
    assert_eq!(Error::MissingStream.message(), "Can't find the stream");
    assert_eq!(Error::Encoder(-1).message(), "Encoder error");
}

#[test]
fn round_trip_model() {
    // The model-level half of the end-to-end round trip: 1800 checkerboard
    // frames through a 1/30 session give unit-spaced timestamps 0..1799 and
    // an overall duration of 60 seconds in the stream's time base.
    let mut s = rgb_session(0);
    let light = solid_frame(PixelLayout::Rgb32, 8, 8, 255);
    let dark = solid_frame(PixelLayout::Rgb32, 8, 8, 0);
    let mut pts_seen = Vec::new();
    for k in 0..1800i64 {
        let sub = s.add_frame(if k % 2 == 0 { &dark } else { &light });
        assert_eq!(sub.frame.layout, PixelLayout::Rgb24);
        pts_seen.push(sub.pts);
    }
    assert_eq!(s.frame_num, 1800);
    for (k, p) in pts_seen.iter().enumerate() {
        assert_eq!(*p, k as i64);
    }
    let seconds = rescale_ts(s.frame_num, Rational::new(1, 30), Rational::new(1, 1));
    assert_eq!(seconds, 60);
    assert!(s.finalize());
    assert!(!s.finalize());
}
