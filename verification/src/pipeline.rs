//! A sensor and a capture backend wired together: frames captured into a
//! caller-supplied buffer, checked, and handed to a sink.

use vstd::prelude::*;

use crate::driver::OutputConfig;
use crate::frame::{
    capture_frame_info, output_capture_config, CaptureConfig, CaptureInfo, Frame, FrameFormat,
    FrameInfo,
};
use crate::jpeg::{complete_jpeg, is_complete_jpeg};
use crate::traits::{CameraCapture, FrameSink};

verus! {

/// Errors of the stack: from the sensor, the capture backend or the sink,
/// or a frame that does not fit or is not the JPEG image expected.
#[derive(Debug, Clone, Copy, PartialEq, Eq)]
pub enum StackError<SensorError, CaptureError, SinkError = core::convert::Infallible> {
    Sensor(SensorError),
    Capture(CaptureError),
    Sink(SinkError),
    BufferTooSmall { bytes: usize, capacity: usize },
    ExpectedJpeg,
    InvalidJpeg,
}

pub type StackResult<T, SensorError, CaptureError, SinkError = core::convert::Infallible> = Result<
    T,
    StackError<SensorError, CaptureError, SinkError>,
>;

/// The frame that a capture reported as `capture` makes of `buffer`: its
/// first `capture.bytes` bytes with the metadata of `config`, or an error
/// when the reported size exceeds the buffer.
pub fn frame_from_capture<'a, SE, CE, KE>(
    config: CaptureConfig,
    buffer: &'a [u8],
    capture: CaptureInfo,
) -> (r: Result<Frame<'a>, StackError<SE, CE, KE>>)
    ensures
        capture.bytes > buffer@.len() ==> (r matches Err(StackError::BufferTooSmall {
            bytes,
            capacity,
        }) && bytes == capture.bytes && capacity == buffer@.len()),
        capture.bytes <= buffer@.len() ==> (r matches Ok(f) && f.info == capture_frame_info(
            config,
            capture,
        ) && f.data@ == buffer@.take(capture.bytes as int)),
{
    if capture.bytes > buffer.len() {
        return Err(StackError::BufferTooSmall { bytes: capture.bytes, capacity: buffer.len() });
    }
    let info = FrameInfo::from_capture(config, capture);
    let data: &'a [u8] = &buffer[0..capture.bytes];
    Ok(Frame::new(data, info))
}

/// The JPEG frame that a capture reported as `capture` makes of `buffer`:
/// as [`frame_from_capture`], and an error when those bytes are not one
/// complete JPEG image.
pub fn jpeg_frame_from_capture<'a, SE, CE, KE>(
    config: CaptureConfig,
    buffer: &'a [u8],
    capture: CaptureInfo,
) -> (r: Result<Frame<'a>, StackError<SE, CE, KE>>)
    ensures
        capture.bytes > buffer@.len() ==> (r matches Err(StackError::BufferTooSmall {
            bytes,
            capacity,
        }) && bytes == capture.bytes && capacity == buffer@.len()),
        capture.bytes <= buffer@.len() && !complete_jpeg(buffer@.take(capture.bytes as int)) ==> (
        r matches Err(StackError::InvalidJpeg)),
        capture.bytes <= buffer@.len() && complete_jpeg(buffer@.take(capture.bytes as int)) ==> (
        r matches Ok(f) && f.info == capture_frame_info(config, capture) && f.data@ == buffer@.take(
            capture.bytes as int,
        )),
{
    let frame = frame_from_capture(config, buffer, capture);
    match frame {
        Err(e) => Err(e),
        Ok(frame) => {
            if !is_complete_jpeg(frame.data) {
                return Err(StackError::InvalidJpeg);
            }
            Ok(frame)
        },
    }
}

/// A capture error as the error of a capture-and-deliver operation: the
/// same variant and payload. (A sink error cannot come out of a capture;
/// that arm is never taken.)
pub open spec fn capture_error_passed<SE, CE, KE>(e: StackError<SE, CE>) -> StackError<SE, CE, KE> {
    match e {
        StackError::Sensor(x) => StackError::Sensor(x),
        StackError::Capture(x) => StackError::Capture(x),
        StackError::BufferTooSmall { bytes, capacity } => StackError::BufferTooSmall {
            bytes,
            capacity,
        },
        StackError::ExpectedJpeg => StackError::ExpectedJpeg,
        StackError::InvalidJpeg => StackError::InvalidJpeg,
        StackError::Sink(_) => StackError::InvalidJpeg,
    }
}

/// The result of a delivery whose sink answered `written`: `Ok` when it
/// accepted the frame, its error as `Sink` otherwise.
pub fn sink_outcome<SE, CE, KE>(written: Result<(), KE>) -> (r: StackResult<(), SE, CE, KE>)
    ensures
        written is Ok ==> r == Ok::<(), StackError<SE, CE, KE>>(()),
        written matches Err(e) ==> r matches Err(StackError::Sink(e2)) && e2 == e,
{
    match written {
        Ok(()) => Ok(()),
        Err(e) => Err(StackError::Sink(e)),
    }
}

/// Hands a captured frame to `sink`; a capture error is returned as it is,
/// with the sink left untouched.
pub fn deliver<'a, SE, CE, SINK: FrameSink>(
    captured: StackResult<Frame<'a>, SE, CE>,
    sink: &mut SINK,
) -> (r: StackResult<(), SE, CE, SINK::Error>)
    requires
        !(captured matches Err(StackError::Sink(_))),
    ensures
        captured matches Err(e) ==> r == Err::<(), StackError<SE, CE, SINK::Error>>(
            capture_error_passed(e),
        ) && *final(sink) == *old(sink),
        captured is Ok ==> r is Ok || r matches Err(StackError::Sink(_)),
{
    match captured {
        Err(StackError::Sensor(x)) => Err(StackError::Sensor(x)),
        Err(StackError::Capture(x)) => Err(StackError::Capture(x)),
        Err(StackError::BufferTooSmall { bytes, capacity }) => Err(
            StackError::BufferTooSmall { bytes, capacity },
        ),
        Err(StackError::ExpectedJpeg) => Err(StackError::ExpectedJpeg),
        Err(StackError::InvalidJpeg) => Err(StackError::InvalidJpeg),
        Err(StackError::Sink(_)) => {
            proof {
                assert(false);
            }
            Err(StackError::InvalidJpeg)
        },
        Ok(frame) => sink_outcome(sink.write_frame(frame)),
    }
}

/// What a capture gives when the backend answered `captured` and the
/// buffer then holds `data`: the backend's error as `Capture`;
/// `BufferTooSmall` when the reported size exceeds the buffer; otherwise
/// the buffer's first reported bytes with the metadata of `config`.
pub open spec fn capture_outcome<'a, SE, CE>(
    config: CaptureConfig,
    data: Seq<u8>,
    captured: Result<CaptureInfo, CE>,
    r: StackResult<Frame<'a>, SE, CE>,
) -> bool {
    match captured {
        Err(e) => r matches Err(StackError::Capture(e2)) && e2 == e,
        Ok(c) => if c.bytes > data.len() {
            r matches Err(StackError::BufferTooSmall { bytes, capacity }) && bytes == c.bytes
                && capacity == data.len()
        } else {
            r matches Ok(f) && f.info == capture_frame_info(config, c) && f.data@ == data.take(
                c.bytes as int,
            )
        },
    }
}

/// What a JPEG capture gives when the backend answered `captured` and the
/// buffer then holds `data`: as [`capture_outcome`], except that reported
/// bytes which are not one complete JPEG image give `InvalidJpeg`.
pub open spec fn jpeg_capture_outcome<'a, SE, CE>(
    config: CaptureConfig,
    data: Seq<u8>,
    captured: Result<CaptureInfo, CE>,
    r: StackResult<Frame<'a>, SE, CE>,
) -> bool {
    match captured {
        Ok(c) => if c.bytes <= data.len() && !complete_jpeg(data.take(c.bytes as int)) {
            r matches Err(StackError::InvalidJpeg)
        } else {
            capture_outcome(config, data, captured, r)
        },
        Err(_) => capture_outcome(config, data, captured, r),
    }
}

/// What a capture whose backend answered `captured` gives: the backend's
/// error as `Capture`, or the frame that its report makes of `buffer`.
pub fn capture_result<'a, SE, CE>(
    config: CaptureConfig,
    buffer: &'a [u8],
    captured: Result<CaptureInfo, CE>,
) -> (r: StackResult<Frame<'a>, SE, CE>)
    ensures
        capture_outcome(config, buffer@, captured, r),
{
    match captured {
        Err(e) => Err(StackError::Capture(e)),
        Ok(capture) => frame_from_capture(config, buffer, capture),
    }
}

/// What a JPEG capture whose backend answered `captured` gives: the
/// backend's error as `Capture`, or what [`jpeg_frame_from_capture`] makes
/// of its report.
pub fn jpeg_capture_result<'a, SE, CE>(
    config: CaptureConfig,
    buffer: &'a [u8],
    captured: Result<CaptureInfo, CE>,
) -> (r: StackResult<Frame<'a>, SE, CE>)
    ensures
        jpeg_capture_outcome(config, buffer@, captured, r),
{
    match captured {
        Err(e) => Err(StackError::Capture(e)),
        Ok(capture) => jpeg_frame_from_capture(config, buffer, capture),
    }
}

/// What starting the backend gives once the sensor has answered with `id`
/// and the backend with `started`: the id, or the backend's error as
/// `Capture`.
pub fn start_result<Id, SE, CE>(id: Id, started: Result<(), CE>) -> (r: StackResult<Id, SE, CE>)
    ensures
        started is Ok ==> (r matches Ok(i) && i == id),
        started matches Err(e) ==> (r matches Err(StackError::Capture(e2)) && e2 == e),
{
    match started {
        Ok(()) => Ok(id),
        Err(e) => Err(StackError::Capture(e)),
    }
}

/// What stopping gives once the backend has answered `stopped`: `Ok`, or
/// the backend's error as `Capture`.
pub fn stop_result<SE, CE>(stopped: Result<(), CE>) -> (r: StackResult<(), SE, CE>)
    ensures
        stopped is Ok ==> r is Ok,
        stopped matches Err(e) ==> (r matches Err(StackError::Capture(e2)) && e2 == e),
{
    match stopped {
        Ok(()) => Ok(()),
        Err(e) => Err(StackError::Capture(e)),
    }
}

/// The mutable reference it is given.
fn pass_borrow<T>(x: &mut T) -> (r: &mut T)
    ensures
        *r == *old(x),
        *final(x) == *final(r),
    no_unwind
{
    x
}

/// A sensor and a capture backend configured for one output.
pub struct CameraStack<SENSOR, CAPTURE> {
    sensor: SENSOR,
    capture: CAPTURE,
    output: OutputConfig,
    capture_config: CaptureConfig,
}

impl<SENSOR, CAPTURE> CameraStack<SENSOR, CAPTURE> {
    /// The capture configuration is the one that matches the output
    /// configuration.
    #[verifier::type_invariant]
    closed spec fn configs_agree(&self) -> bool {
        self.capture_config == output_capture_config(self.output)
    }

    /// The sensor output configuration.
    pub closed spec fn output_config(&self) -> OutputConfig {
        self.output
    }

    /// The capture configuration, derived from the output configuration.
    pub closed spec fn capture_settings(&self) -> CaptureConfig {
        self.capture_config
    }

    /// The sensor.
    pub closed spec fn sensor_part(&self) -> SENSOR {
        self.sensor
    }

    /// The capture backend.
    pub closed spec fn capture_part(&self) -> CAPTURE {
        self.capture
    }

    pub fn new(sensor: SENSOR, capture: CAPTURE, output: OutputConfig) -> (s: Self)
        ensures
            s.sensor_part() == sensor,
            s.capture_part() == capture,
            s.output_config() == output,
            s.capture_settings() == output_capture_config(output),
    {
        CameraStack { sensor, capture, output, capture_config: CaptureConfig::from(output) }
    }

    /// Gives the sensor and the capture backend back.
    pub fn split(self) -> (parts: (SENSOR, CAPTURE))
        ensures
            parts == (self.sensor_part(), self.capture_part()),
    {
        (self.sensor, self.capture)
    }

    pub fn output(&self) -> (o: OutputConfig)
        ensures
            o == self.output_config(),
    {
        self.output
    }

    /// The capture configuration; it always agrees with the output
    /// configuration (frame size from the resolution, frame format from the
    /// output format).
    pub fn capture_config(&self) -> (c: CaptureConfig)
        ensures
            c == self.capture_settings(),
            c == output_capture_config(self.output_config()),
    {
        proof {
            use_type_invariant(self);
        }
        self.capture_config
    }

    pub fn sensor_mut(&mut self) -> (s: &mut SENSOR)
        ensures
            *s == old(self).sensor_part(),
            final(self).sensor_part() == *final(s),
            final(self).capture_part() == old(self).capture_part(),
            final(self).output_config() == old(self).output_config(),
            final(self).capture_settings() == old(self).capture_settings(),
    {
        proof {
            use_type_invariant(&*self);
        }
        pass_borrow(&mut self.sensor)
    }

    pub fn capture_mut(&mut self) -> (c: &mut CAPTURE)
        ensures
            *c == old(self).capture_part(),
            final(self).capture_part() == *final(c),
            final(self).sensor_part() == old(self).sensor_part(),
            final(self).output_config() == old(self).output_config(),
            final(self).capture_settings() == old(self).capture_settings(),
    {
        proof {
            use_type_invariant(&*self);
        }
        pass_borrow(&mut self.capture)
    }
}

impl<SENSOR, CAPTURE: CameraCapture> CameraStack<SENSOR, CAPTURE> {
    /// Captures one frame into `buffer`; the frame is the buffer's first
    /// bytes, as many as the backend reports, with the metadata of the
    /// capture configuration.
    pub fn capture_frame<'a, SE>(&mut self, buffer: &'a mut [u8]) -> (r: StackResult<
        Frame<'a>,
        SE,
        CAPTURE::Error,
    >)
        ensures
            final(self).output_config() == old(self).output_config(),
            final(self).capture_settings() == old(self).capture_settings(),
            final(self).sensor_part() == old(self).sensor_part(),
            r matches Ok(f) ==> {
                &&& f.info.size == old(self).capture_settings().size
                &&& f.info.format == old(self).capture_settings().format
                &&& f.info.bytes <= old(buffer)@.len()
                &&& f.data@ == final(buffer)@.take(f.info.bytes as int)
            },
            r matches Err(StackError::BufferTooSmall { bytes, capacity }) ==> capacity == old(
                buffer,
            )@.len() && bytes > capacity,
            r matches Err(e) ==> e is Capture || e is BufferTooSmall,
            final(buffer)@.len() == old(buffer)@.len(),
            final(self).capture_part().last_capture() matches Some(captured) && capture_outcome(
                old(self).capture_settings(),
                final(buffer)@,
                captured,
                r,
            ),
    {
        proof {
            use_type_invariant(&*self);
        }
        let captured = pass_borrow(&mut self.capture).capture_into(buffer);
        let data: &'a [u8] = buffer;
        capture_result(self.capture_config, data, captured)
    }

    /// Captures one frame and checks that it is a complete JPEG image; a
    /// stack configured for another format refuses before capturing.
    pub fn capture_jpeg_frame<'a, SE>(&mut self, buffer: &'a mut [u8]) -> (r: StackResult<
        Frame<'a>,
        SE,
        CAPTURE::Error,
    >)
        ensures
            final(self).output_config() == old(self).output_config(),
            final(self).capture_settings() == old(self).capture_settings(),
            final(self).sensor_part() == old(self).sensor_part(),
            old(self).capture_settings().format != FrameFormat::Jpeg ==> (r matches Err(
                StackError::ExpectedJpeg,
            ) && final(buffer)@ == old(buffer)@ && final(self).capture_part() == old(
                self,
            ).capture_part()),
            old(self).capture_settings().format == FrameFormat::Jpeg ==> !(r matches Err(
                StackError::ExpectedJpeg,
            )),
            r matches Ok(f) ==> {
                &&& f.info.size == old(self).capture_settings().size
                &&& f.info.format == FrameFormat::Jpeg
                &&& f.info.bytes <= old(buffer)@.len()
                &&& f.data@ == final(buffer)@.take(f.info.bytes as int)
                &&& complete_jpeg(f.data@)
            },
            r matches Err(StackError::InvalidJpeg) ==> exists|n: usize|
                n <= final(buffer)@.len() && !complete_jpeg(#[trigger] final(buffer)@.take(n as int)),
            r matches Err(StackError::BufferTooSmall { bytes, capacity }) ==> capacity == old(
                buffer,
            )@.len() && bytes > capacity,
            r matches Err(e) ==> e is Capture || e is BufferTooSmall || e is ExpectedJpeg
                || e is InvalidJpeg,
            old(self).capture_settings().format == FrameFormat::Jpeg ==> (final(self).capture_part().last_capture() matches Some(captured) && jpeg_capture_outcome(
                old(self).capture_settings(),
                final(buffer)@,
                captured,
                r,
            )),
    {
        if self.capture_config.format != FrameFormat::Jpeg {
            return Err(StackError::ExpectedJpeg);
        }
        proof {
            use_type_invariant(&*self);
        }
        let captured = pass_borrow(&mut self.capture).capture_into(buffer);
        let data: &'a [u8] = buffer;
        let r = jpeg_capture_result(self.capture_config, data, captured);
        assert(r matches Err(StackError::InvalidJpeg) ==> (captured matches Ok(c) && c.bytes
            <= data@.len() && !complete_jpeg(data@.take(c.bytes as int))));
        r
    }

    pub fn stop<SE>(&mut self) -> (r: StackResult<(), SE, CAPTURE::Error>)
        ensures
            final(self).output_config() == old(self).output_config(),
            final(self).capture_settings() == old(self).capture_settings(),
            final(self).sensor_part() == old(self).sensor_part(),
            r is Ok ==> final(self).capture_part().started_with() == None::<CaptureConfig>,
            r matches Err(e) ==> e is Capture,
    {
        proof {
            use_type_invariant(&*self);
        }
        let stopped = pass_borrow(&mut self.capture).stop();
        stop_result(stopped)
    }

    /// Captures one frame and hands it to `sink`: a capture error is
    /// returned as [`CameraStack::capture_frame`] gives it, without calling
    /// the sink; otherwise the result is `Ok` or the sink's error.
    pub fn capture_and_write<SE, SINK: FrameSink>(&mut self, buffer: &mut [u8], sink: &mut SINK) -> (r:
        StackResult<(), SE, CAPTURE::Error, SINK::Error>)
        ensures
            final(self).output_config() == old(self).output_config(),
            final(self).capture_settings() == old(self).capture_settings(),
            final(self).sensor_part() == old(self).sensor_part(),
            r matches Err(StackError::BufferTooSmall { bytes, capacity }) ==> capacity == old(
                buffer,
            )@.len() && bytes > capacity,
            (r matches Err(e) && (e is Capture || e is BufferTooSmall)) ==> *final(sink) == *old(
                sink,
            ),
            r matches Err(e) ==> e is Capture || e is BufferTooSmall || e is Sink,
            final(self).capture_part().last_capture() is Some,
            final(self).capture_part().last_capture() matches Some(Err(e)) ==> (r matches Err(
                StackError::Capture(e2),
            ) && e2 == e),
            final(self).capture_part().last_capture() matches Some(Ok(c)) ==> (c.bytes > old(
                buffer,
            )@.len() ==> (r matches Err(StackError::BufferTooSmall { bytes, capacity }) && bytes
                == c.bytes && capacity == old(buffer)@.len())),
            final(self).capture_part().last_capture() matches Some(Ok(c)) ==> (c.bytes <= old(
                buffer,
            )@.len() ==> (r is Ok || r matches Err(StackError::Sink(_)))),
    {
        let frame = self.capture_frame::<SE>(buffer);
        deliver(frame, sink)
    }

    /// The step of starting the stack that follows the sensor's
    /// initialization for the stack's output, whose result is `init`: a
    /// sensor error ends the start with the capture backend left untouched;
    /// otherwise the capture backend is started with the capture
    /// configuration, and the sensor's id is returned once it has started.
    pub fn start_after_init<Id, SE>(&mut self, init: Result<Id, SE>) -> (r: StackResult<
        Id,
        SE,
        CAPTURE::Error,
    >)
        ensures
            final(self).output_config() == old(self).output_config(),
            final(self).capture_settings() == old(self).capture_settings(),
            final(self).sensor_part() == old(self).sensor_part(),
            init is Err ==> final(self).capture_part() == old(self).capture_part(),
            init matches Err(e) ==> r matches Err(StackError::Sensor(e2)) && e2 == e,
            init is Ok ==> r is Ok || r matches Err(StackError::Capture(_)),
            r matches Ok(id) ==> init matches Ok(id0) && id == id0,
            r is Ok ==> final(self).capture_part().started_with() == Some(
                old(self).capture_settings(),
            ),
            r matches Err(e) ==> e is Sensor || e is Capture,
    {
        proof {
            use_type_invariant(&*self);
        }
        match init {
            Err(e) => Err(StackError::Sensor(e)),
            Ok(id) => {
                let started = pass_borrow(&mut self.capture).start(self.capture_config);
                start_result(id, started)
            },
        }
    }
}

} // verus!
