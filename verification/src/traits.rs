//! Interfaces through which a target project plugs sensors, capture
//! backends and frame consumers into the stack.

use vstd::prelude::*;

use crate::driver::{ControlLevel, GainCeiling, SpecialEffect, WhiteBalanceMode};
use crate::frame::{CaptureConfig, CaptureInfo, Frame};

verus! {

/// One typed image control and its setting.
#[derive(Debug, Clone, Copy, PartialEq, Eq, Structural)]
pub enum SensorControl {
    Brightness(ControlLevel),
    Contrast(ControlLevel),
    Saturation(ControlLevel),
    SpecialEffect(SpecialEffect),
    WhiteBalanceMode(WhiteBalanceMode),
    AutoWhiteBalance(bool),
    AwbGain(bool),
    AutoExposure(bool),
    Aec2(bool),
    ExposureLevel(ControlLevel),
    ExposureValue(u16),
    AutoGain(bool),
    AgcGain(u8),
    GainCeiling(GainCeiling),
    RawGamma(bool),
    LensCorrection(bool),
    DownsizeCropWindow(bool),
    BadPixelCorrection(bool),
    WhitePixelCorrection(bool),
    HorizontalMirror(bool),
    VerticalFlip(bool),
    ColorBar(bool),
    JpegQuality(u8),
}

/// A sensor whose image controls can be set.
pub trait SensorControls {
    type Error;

    fn set_control(&mut self, control: SensorControl) -> Result<(), Self::Error>;
}

/// A chip-specific capture backend: DVP/DCMI/LCD_CAM/PIO capture into a
/// caller-supplied buffer.
pub trait CameraCapture {
    type Error;

    /// The capture configuration the hardware is set up for, while the
    /// backend is started.
    spec fn started_with(&self) -> Option<CaptureConfig>;

    /// Configures the hardware for `config.size` and `config.format` and
    /// starts capturing.
    fn start(&mut self, config: CaptureConfig) -> (r: Result<(), Self::Error>)
        ensures
            r is Ok ==> final(self).started_with() == Some(config),
    ;

    /// What the most recent capture answered, once one has been made.
    spec fn last_capture(&self) -> Option<Result<CaptureInfo, Self::Error>>;

    /// Captures one frame into `buffer` (a slice keeps its length) and
    /// reports its size and sequence number, or the backend's error.
    fn capture_into(&mut self, buffer: &mut [u8]) -> (r: Result<CaptureInfo, Self::Error>)
        ensures
            final(buffer)@.len() == old(buffer)@.len(),
            final(self).last_capture() == Some(r),
    ;

    /// Stops capturing.
    fn stop(&mut self) -> (r: Result<(), Self::Error>)
        ensures
            r is Ok ==> final(self).started_with() == None::<CaptureConfig>,
    ;
}

/// A consumer of frames: transport, storage or a model pipeline.
pub trait FrameSink {
    type Error;

    fn write_frame(&mut self, frame: Frame<'_>) -> Result<(), Self::Error>;
}

} // verus!
