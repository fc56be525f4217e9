//! OV2640 sensor register driver and portable camera stack primitives, with
//! machine-checked contracts.
//!
//! The crate owns the portable pieces: the register protocol of the sensor
//! (bank tracking, read-modify-write of bit fields, table writes), sensor
//! identification, output configuration, typed image controls, frame
//! metadata, JPEG framing, a fixed-capacity metadata queue and a small
//! capture pipeline.
//!
//! Sensor operations are register programs ([`RegOp`] sequences) built by
//! the methods of [`Ov2640`]; [`Ov2640::advance`] carries a program out one
//! bus transfer at a time, and the caller performs each transfer and wait
//! it asks for. [`semantics`] states, and proves, what a program does on
//! the bus.

mod driver;
pub mod frame;
pub mod jpeg;
pub mod pipeline;
pub mod plans;
pub mod queue;
pub mod registers;
pub mod semantics;
pub mod tables;
pub mod traits;

pub use driver::{
    BusAction, ControlLevel, DetectedSensor, Error, GainCeiling, ImageFormat, JpegConfig,
    OutputConfig, Ov2640, Pending, PixelClock, RegOp, RegisterRun, Resolution, SpecialEffect,
    WhiteBalanceMode, DEFAULT_ADDRESS, EXPECTED_PID, EXPECTED_VER,
};
pub use frame::{CaptureConfig, CaptureInfo, Frame, FrameFormat, FrameInfo, FrameSize, FrameSlot};
pub use jpeg::{is_complete_jpeg, JpegAssembler, JpegError, JpegFrameBounds, JpegScanner};
pub use pipeline::{CameraStack, StackError};
pub use queue::{FrameQueue, QueueError};
pub use tables::RegisterTables;
pub use traits::{CameraCapture, FrameSink, SensorControl, SensorControls};
