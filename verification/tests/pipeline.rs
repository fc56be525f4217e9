use core::convert::Infallible;

use esp32_cam_ov2640::pipeline::{
    capture_result, deliver, frame_from_capture, jpeg_capture_result, jpeg_frame_from_capture,
    sink_outcome, start_result, stop_result,
};
use esp32_cam_ov2640::{
    CameraCapture, CameraStack, CaptureConfig, CaptureInfo, Frame, FrameFormat, FrameSink,
    FrameSize, JpegConfig, OutputConfig, StackError,
};

#[derive(Default)]
struct MockCapture {
    sequence: u64,
    started: Option<CaptureConfig>,
    last: Option<Result<CaptureInfo, &'static str>>,
    payload: Vec<u8>,
    report_extra: usize,
    fail: bool,
}

impl CameraCapture for MockCapture {
    type Error = &'static str;

    fn started_with(&self) -> Option<CaptureConfig> {
        self.started
    }

    fn start(&mut self, config: CaptureConfig) -> Result<(), Self::Error> {
        self.started = Some(config);
        Ok(())
    }

    fn last_capture(&self) -> Option<Result<CaptureInfo, Self::Error>> {
        self.last
    }

    fn capture_into(&mut self, buffer: &mut [u8]) -> Result<CaptureInfo, Self::Error> {
        let r = if self.fail {
            Err("dma")
        } else {
            let n = self.payload.len().min(buffer.len());
            buffer[..n].copy_from_slice(&self.payload[..n]);
            self.sequence += 1;
            Ok(CaptureInfo::new(self.payload.len() + self.report_extra, self.sequence))
        };
        self.last = Some(r);
        r
    }

    fn stop(&mut self) -> Result<(), Self::Error> {
        self.started = None;
        Ok(())
    }
}

struct Collect {
    frames: Vec<(Vec<u8>, u64)>,
    refuse: bool,
}

impl FrameSink for Collect {
    type Error = u8;

    fn write_frame(&mut self, frame: Frame<'_>) -> Result<(), Self::Error> {
        if self.refuse {
            return Err(7);
        }
        self.frames.push((frame.data.to_vec(), frame.info.sequence));
        Ok(())
    }
}

fn jpeg_capture() -> MockCapture {
    MockCapture { payload: vec![0xff, 0xd8, 0x01, 0x02, 0xff, 0xd9], ..Default::default() }
}

#[test]
fn stack_captures_jpeg_frame() {
    let output = OutputConfig::qvga_jpeg(JpegConfig::default());
    let mut stack = CameraStack::new((), jpeg_capture(), output);
    assert_eq!(stack.output(), output);
    assert_eq!(stack.capture_config(), CaptureConfig::new(FrameSize::qvga(), FrameFormat::Jpeg));
    let mut buffer = [0u8; 64];
    let frame = stack.capture_jpeg_frame::<Infallible>(&mut buffer).unwrap();
    assert_eq!(frame.info.sequence, 1);
    assert_eq!(frame.info.bytes, 6);
    assert_eq!(frame.data, &[0xff, 0xd8, 0x01, 0x02, 0xff, 0xd9]);
    assert_eq!(stack.stop::<Infallible>(), Ok(()));
    let (_, capture) = stack.split();
    assert_eq!(capture.started_with(), None);
}

#[test]
fn stack_refuses_jpeg_capture_for_other_format() {
    let mut stack = CameraStack::new((), jpeg_capture(), OutputConfig::qvga_yuv422());
    let mut buffer = [0u8; 16];
    let r = stack.capture_jpeg_frame::<Infallible>(&mut buffer);
    assert_eq!(r, Err(StackError::ExpectedJpeg));
    assert_eq!(stack.capture_mut().sequence, 0);
}

#[test]
fn stack_reports_invalid_jpeg() {
    let capture = MockCapture { payload: vec![0xff, 0xd8, 0x00, 0x00], ..Default::default() };
    let mut stack = CameraStack::new((), capture, OutputConfig::vga_jpeg(JpegConfig::default()));
    let mut buffer = [0u8; 16];
    let r = stack.capture_jpeg_frame::<Infallible>(&mut buffer);
    assert_eq!(r, Err(StackError::InvalidJpeg));
}

#[test]
fn stack_reports_oversized_capture() {
    let mut capture = jpeg_capture();
    capture.report_extra = 100;
    let mut stack = CameraStack::new((), capture, OutputConfig::qvga_rgb565());
    let mut buffer = [0u8; 16];
    let r = stack.capture_frame::<Infallible>(&mut buffer);
    assert_eq!(r, Err(StackError::BufferTooSmall { bytes: 106, capacity: 16 }));
}

#[test]
fn stack_passes_capture_errors() {
    let mut capture = jpeg_capture();
    capture.fail = true;
    let mut stack = CameraStack::new((), capture, OutputConfig::qvga_rgb565());
    let mut buffer = [0u8; 16];
    let r = stack.capture_frame::<Infallible>(&mut buffer);
    assert_eq!(r, Err(StackError::Capture("dma")));
}

#[test]
fn stack_capture_and_write_to_sink() {
    let mut stack = CameraStack::new(5u8, jpeg_capture(), OutputConfig::qvga_yuv422());
    let mut sink = Collect { frames: Vec::new(), refuse: false };
    let mut buffer = [0u8; 16];
    assert_eq!(stack.capture_and_write::<Infallible, _>(&mut buffer, &mut sink), Ok(()));
    assert_eq!(stack.capture_and_write::<Infallible, _>(&mut buffer, &mut sink), Ok(()));
    assert_eq!(sink.frames.len(), 2);
    assert_eq!(sink.frames[1].1, 2);
    assert_eq!(sink.frames[0].0, vec![0xff, 0xd8, 0x01, 0x02, 0xff, 0xd9]);
    sink.refuse = true;
    assert_eq!(
        stack.capture_and_write::<Infallible, _>(&mut buffer, &mut sink),
        Err(StackError::Sink(7))
    );
    assert_eq!(*stack.sensor_mut(), 5);
}

#[test]
fn frame_from_capture_checks_size() {
    let config = CaptureConfig::new(FrameSize::vga(), FrameFormat::Jpeg);
    let data = [1u8, 2, 3, 4];
    let ok: Result<Frame<'_>, StackError<(), (), ()>> =
        frame_from_capture(config, &data, CaptureInfo::new(3, 9));
    let frame = ok.unwrap();
    assert_eq!(frame.data, &[1, 2, 3]);
    assert_eq!(frame.info.size, FrameSize::vga());
    assert_eq!(frame.info.sequence, 9);
    let err: Result<Frame<'_>, StackError<(), (), ()>> =
        frame_from_capture(config, &data, CaptureInfo::new(5, 9));
    assert_eq!(err.unwrap_err(), StackError::BufferTooSmall { bytes: 5, capacity: 4 });
}

#[test]
fn jpeg_frame_from_capture_checks_markers() {
    let config = CaptureConfig::new(FrameSize::qvga(), FrameFormat::Jpeg);
    let data = [0xff, 0xd8, 0x01, 0xff, 0xd9, 0x00];
    let ok: Result<Frame<'_>, StackError<(), (), ()>> =
        jpeg_frame_from_capture(config, &data, CaptureInfo::new(5, 2));
    assert_eq!(ok.unwrap().data, &[0xff, 0xd8, 0x01, 0xff, 0xd9]);
    let bad: Result<Frame<'_>, StackError<(), (), ()>> =
        jpeg_frame_from_capture(config, &data, CaptureInfo::new(6, 2));
    assert_eq!(bad.unwrap_err(), StackError::InvalidJpeg);
    let big: Result<Frame<'_>, StackError<(), (), ()>> =
        jpeg_frame_from_capture(config, &data, CaptureInfo::new(7, 2));
    assert_eq!(big.unwrap_err(), StackError::BufferTooSmall { bytes: 7, capacity: 6 });
}

#[test]
fn deliver_passes_capture_errors_and_sink_answers() {
    let mut sink = Collect { frames: Vec::new(), refuse: false };
    let err: Result<Frame<'_>, StackError<(), &str>> = Err(StackError::Capture("dma"));
    assert_eq!(deliver(err, &mut sink), Err(StackError::Capture("dma")));
    let err: Result<Frame<'_>, StackError<(), &str>> =
        Err(StackError::BufferTooSmall { bytes: 9, capacity: 4 });
    assert_eq!(deliver(err, &mut sink), Err(StackError::BufferTooSmall { bytes: 9, capacity: 4 }));
    assert!(sink.frames.is_empty());
    let data = [1u8, 2];
    let info = esp32_cam_ov2640::FrameInfo::new(FrameSize::qvga(), FrameFormat::Jpeg, 2, 4, None);
    let ok: Result<Frame<'_>, StackError<(), &str>> = Ok(Frame::new(&data, info));
    assert_eq!(deliver(ok, &mut sink), Ok(()));
    assert_eq!(sink.frames, vec![(vec![1, 2], 4)]);
    sink.refuse = true;
    let ok: Result<Frame<'_>, StackError<(), &str>> = Ok(Frame::new(&data, info));
    assert_eq!(deliver(ok, &mut sink), Err(StackError::Sink(7)));
    assert_eq!(sink_outcome::<(), (), u8>(Ok(())), Ok(()));
    assert_eq!(sink_outcome::<(), (), u8>(Err(3)), Err(StackError::Sink(3)));
}

#[test]
fn start_after_init_starts_capture_only_after_sensor() {
    let mut stack = CameraStack::new((), jpeg_capture(), OutputConfig::qvga_jpeg(JpegConfig::default()));
    let r: Result<u16, StackError<&str, &str>> = stack.start_after_init(Err("no sensor"));
    assert_eq!(r, Err(StackError::Sensor("no sensor")));
    assert_eq!(stack.capture_mut().started_with(), None);
    let r: Result<u16, StackError<&str, &str>> = stack.start_after_init(Ok(0x2640));
    assert_eq!(r, Ok(0x2640));
    let expected = CaptureConfig::from(stack.output());
    assert_eq!(stack.capture_mut().started_with(), Some(expected));
    assert_eq!(
        stack.capture_config(),
        CaptureConfig::from(stack.output())
    );
}

#[test]
fn capture_result_passes_backend_error_or_reported_frame() {
    let config = CaptureConfig::new(FrameSize::qvga(), FrameFormat::Rgb565);
    let data = [9u8, 8, 7, 6];
    let err: Result<Frame<'_>, StackError<(), &str>> = capture_result(config, &data, Err("dma"));
    assert_eq!(err.unwrap_err(), StackError::Capture("dma"));
    let ok: Result<Frame<'_>, StackError<(), &str>> =
        capture_result(config, &data, Ok(CaptureInfo::new(2, 11)));
    let frame = ok.unwrap();
    assert_eq!(frame.data, &[9, 8]);
    assert_eq!(frame.info.bytes, 2);
    assert_eq!(frame.info.sequence, 11);
    assert_eq!(frame.info.format, FrameFormat::Rgb565);
    let big: Result<Frame<'_>, StackError<(), &str>> =
        capture_result(config, &data, Ok(CaptureInfo::new(5, 11)));
    assert_eq!(big.unwrap_err(), StackError::BufferTooSmall { bytes: 5, capacity: 4 });
}

#[test]
fn jpeg_capture_result_checks_the_reported_bytes() {
    let config = CaptureConfig::new(FrameSize::qvga(), FrameFormat::Jpeg);
    let data = [0xff, 0xd8, 0xff, 0xd9, 0x00];
    let err: Result<Frame<'_>, StackError<(), &str>> = jpeg_capture_result(config, &data, Err("dma"));
    assert_eq!(err.unwrap_err(), StackError::Capture("dma"));
    let ok: Result<Frame<'_>, StackError<(), &str>> =
        jpeg_capture_result(config, &data, Ok(CaptureInfo::new(4, 3)));
    assert_eq!(ok.unwrap().data, &[0xff, 0xd8, 0xff, 0xd9]);
    let bad: Result<Frame<'_>, StackError<(), &str>> =
        jpeg_capture_result(config, &data, Ok(CaptureInfo::new(5, 3)));
    assert_eq!(bad.unwrap_err(), StackError::InvalidJpeg);
}

#[test]
fn start_and_stop_results_carry_the_backend_answer() {
    assert_eq!(start_result::<u16, (), &str>(0x2640, Ok(())), Ok(0x2640));
    assert_eq!(start_result::<u16, (), &str>(0x2640, Err("clock")), Err(StackError::Capture("clock")));
    assert_eq!(stop_result::<(), &str>(Ok(())), Ok(()));
    assert_eq!(stop_result::<(), &str>(Err("busy")), Err(StackError::Capture("busy")));
}

#[test]
fn stack_records_what_the_backend_answered() {
    let mut stack = CameraStack::new((), jpeg_capture(), OutputConfig::qvga_rgb565());
    let mut buffer = [0u8; 16];
    let frame = stack.capture_frame::<Infallible>(&mut buffer).unwrap();
    assert_eq!(frame.info.bytes, 6);
    assert_eq!(stack.capture_mut().last_capture(), Some(Ok(CaptureInfo::new(6, 1))));
}
