use esp32_cam_ov2640::{
    CaptureConfig, CaptureInfo, Frame, FrameFormat, FrameInfo, FrameSize, FrameSlot, ImageFormat,
    JpegConfig, OutputConfig, Resolution,
};

#[test]
fn frame_size_pixels() {
    assert_eq!(FrameSize::qqvga().pixels(), 19_200);
    assert_eq!(FrameSize::qvga().pixels(), 76_800);
    assert_eq!(FrameSize::vga().pixels(), 307_200);
    assert_eq!(FrameSize { width: 65535, height: 65535 }.pixels(), 4_294_836_225);
}

#[test]
fn conversions_follow_output_config() {
    assert_eq!(FrameSize::from(Resolution::Qvga320x240), FrameSize { width: 320, height: 240 });
    assert_eq!(FrameSize::from(Resolution::Vga640x480), FrameSize { width: 640, height: 480 });
    assert_eq!(FrameFormat::from(ImageFormat::Yuv422), FrameFormat::Yuv422);
    assert_eq!(FrameFormat::from(ImageFormat::Rgb565), FrameFormat::Rgb565);
    assert_eq!(FrameFormat::from(ImageFormat::Jpeg), FrameFormat::Jpeg);
    let c = CaptureConfig::from(OutputConfig::vga_jpeg(JpegConfig::default()));
    assert_eq!(c, CaptureConfig::new(FrameSize::vga(), FrameFormat::Jpeg));
    let c = CaptureConfig::from(OutputConfig::qvga_rgb565());
    assert_eq!(c, CaptureConfig::new(FrameSize::qvga(), FrameFormat::Rgb565));
}

#[test]
fn capture_info_and_frame_info() {
    let c = CaptureInfo::new(10, 3);
    assert_eq!(c.timestamp_us, None);
    let t = CaptureInfo::with_timestamp(10, 3, 99);
    assert_eq!(t.timestamp_us, Some(99));
    let config = CaptureConfig::new(FrameSize::qvga(), FrameFormat::Yuv422);
    let f = FrameInfo::from_capture(config, t);
    assert_eq!(f, FrameInfo::new(FrameSize::qvga(), FrameFormat::Yuv422, 10, 3, Some(99)));
}

#[test]
fn frame_slot_stores_prefix() {
    let mut slot: FrameSlot<8> = FrameSlot::new();
    assert_eq!(slot.capacity(), 8);
    assert_eq!(slot.info(), None);
    assert!(slot.frame().is_none());
    slot.as_mut_slice()[..3].copy_from_slice(&[1, 2, 3]);
    let info = FrameInfo::new(FrameSize::qqvga(), FrameFormat::Jpeg, 3, 1, None);
    slot.store(info);
    assert_eq!(slot.info(), Some(info));
    let frame: Frame<'_> = slot.frame().unwrap();
    assert_eq!(frame.data, &[1, 2, 3]);
    assert_eq!(frame.info, info);
    slot.clear();
    assert!(slot.frame().is_none());
}

#[test]
fn frame_slot_rejects_oversized_info() {
    let mut slot: FrameSlot<4> = FrameSlot::default();
    slot.store(FrameInfo::new(FrameSize::qqvga(), FrameFormat::Jpeg, 5, 1, None));
    assert!(slot.frame().is_none());
    slot.store(FrameInfo::new(FrameSize::qqvga(), FrameFormat::Jpeg, 4, 1, None));
    assert_eq!(slot.frame().unwrap().data, &[0, 0, 0, 0]);
}

#[test]
fn frame_new_keeps_data() {
    let data = [9u8, 8];
    let info = FrameInfo::new(FrameSize::qvga(), FrameFormat::Rgb565, 2, 7, None);
    let f = Frame::new(&data, info);
    assert_eq!(f.data, &[9, 8]);
    assert_eq!(f.info.sequence, 7);
}
