//! Frame metadata and fixed-capacity frame storage.

use vstd::prelude::*;

use crate::driver::{ImageFormat, OutputConfig, Resolution};

verus! {

/// Width and height of a frame in pixels.
#[derive(Debug, Clone, Copy, PartialEq, Eq, Structural)]
pub struct FrameSize {
    pub width: u16,
    pub height: u16,
}

impl FrameSize {
    /// 160x120.
    pub fn qqvga() -> (s: FrameSize)
        ensures
            s == (FrameSize { width: 160, height: 120 }),
    {
        FrameSize { width: 160, height: 120 }
    }

    /// 320x240.
    pub fn qvga() -> (s: FrameSize)
        ensures
            s == (FrameSize { width: 320, height: 240 }),
    {
        FrameSize { width: 320, height: 240 }
    }

    /// 640x480.
    pub fn vga() -> (s: FrameSize)
        ensures
            s == (FrameSize { width: 640, height: 480 }),
    {
        FrameSize { width: 640, height: 480 }
    }

    /// Number of pixels of a frame of this size.
    pub fn pixels(self) -> (p: u32)
        ensures
            p == self.width * self.height,
    {
        assert(self.width * self.height <= 65535 * 65535) by (nonlinear_arith)
            requires
                self.width <= 65535,
                self.height <= 65535,
        ;
        self.width as u32 * self.height as u32
    }
}

/// Frame size produced by the sensor at `resolution`.
pub open spec fn resolution_size(resolution: Resolution) -> FrameSize {
    match resolution {
        Resolution::Qvga320x240 => FrameSize { width: 320, height: 240 },
        Resolution::Vga640x480 => FrameSize { width: 640, height: 480 },
    }
}

impl From<Resolution> for FrameSize {
    fn from(value: Resolution) -> (s: Self) {
        match value {
            Resolution::Qvga320x240 => FrameSize { width: 320, height: 240 },
            Resolution::Vga640x480 => FrameSize { width: 640, height: 480 },
        }
    }
}

impl vstd::std_specs::convert::FromSpecImpl<Resolution> for FrameSize {
    open spec fn obeys_from_spec() -> bool {
        true
    }

    open spec fn from_spec(v: Resolution) -> FrameSize {
        resolution_size(v)
    }
}

} // verus!

verus! {

/// Pixel format of a captured frame.
#[derive(Debug, Clone, Copy, PartialEq, Eq, Structural)]
pub enum FrameFormat {
    Yuv422,
    Rgb565,
    Jpeg,
}

/// Frame format produced by the sensor output format `format`.
pub open spec fn image_frame_format(format: ImageFormat) -> FrameFormat {
    match format {
        ImageFormat::Yuv422 => FrameFormat::Yuv422,
        ImageFormat::Rgb565 => FrameFormat::Rgb565,
        ImageFormat::Jpeg => FrameFormat::Jpeg,
    }
}

impl From<ImageFormat> for FrameFormat {
    fn from(value: ImageFormat) -> (f: Self) {
        match value {
            ImageFormat::Yuv422 => FrameFormat::Yuv422,
            ImageFormat::Rgb565 => FrameFormat::Rgb565,
            ImageFormat::Jpeg => FrameFormat::Jpeg,
        }
    }
}

impl vstd::std_specs::convert::FromSpecImpl<ImageFormat> for FrameFormat {
    open spec fn obeys_from_spec() -> bool {
        true
    }

    open spec fn from_spec(v: ImageFormat) -> FrameFormat {
        image_frame_format(v)
    }
}

/// What a capture backend is asked to deliver: frame size and format.
#[derive(Debug, Clone, Copy, PartialEq, Eq, Structural)]
pub struct CaptureConfig {
    pub size: FrameSize,
    pub format: FrameFormat,
}

impl CaptureConfig {
    pub fn new(size: FrameSize, format: FrameFormat) -> (c: Self)
        ensures
            c.size == size,
            c.format == format,
    {
        CaptureConfig { size, format }
    }
}

/// Capture configuration that matches the sensor output `config`.
pub open spec fn output_capture_config(config: OutputConfig) -> CaptureConfig {
    CaptureConfig {
        size: resolution_size(config.resolution),
        format: image_frame_format(config.format),
    }
}

impl From<OutputConfig> for CaptureConfig {
    fn from(value: OutputConfig) -> (c: Self) {
        CaptureConfig { size: FrameSize::from(value.resolution), format: FrameFormat::from(value.format) }
    }
}

impl vstd::std_specs::convert::FromSpecImpl<OutputConfig> for CaptureConfig {
    open spec fn obeys_from_spec() -> bool {
        true
    }

    open spec fn from_spec(v: OutputConfig) -> CaptureConfig {
        output_capture_config(v)
    }
}

/// What a capture backend reports of one captured frame.
#[derive(Debug, Clone, Copy, PartialEq, Eq, Structural)]
pub struct CaptureInfo {
    pub bytes: usize,
    pub sequence: u64,
    pub timestamp_us: Option<u64>,
}

impl CaptureInfo {
    pub fn new(bytes: usize, sequence: u64) -> (c: Self)
        ensures
            c == (CaptureInfo { bytes, sequence, timestamp_us: None }),
    {
        CaptureInfo { bytes, sequence, timestamp_us: None }
    }

    pub fn with_timestamp(bytes: usize, sequence: u64, timestamp_us: u64) -> (c: Self)
        ensures
            c == (CaptureInfo { bytes, sequence, timestamp_us: Some(timestamp_us) }),
    {
        CaptureInfo { bytes, sequence, timestamp_us: Some(timestamp_us) }
    }
}

/// Metadata of a stored or delivered frame.
#[derive(Debug, Clone, Copy, PartialEq, Eq, Structural)]
pub struct FrameInfo {
    pub size: FrameSize,
    pub format: FrameFormat,
    pub bytes: usize,
    pub sequence: u64,
    pub timestamp_us: Option<u64>,
}

/// Frame metadata made of a capture configuration and a capture report.
pub open spec fn capture_frame_info(config: CaptureConfig, capture: CaptureInfo) -> FrameInfo {
    FrameInfo {
        size: config.size,
        format: config.format,
        bytes: capture.bytes,
        sequence: capture.sequence,
        timestamp_us: capture.timestamp_us,
    }
}

impl FrameInfo {
    pub fn new(
        size: FrameSize,
        format: FrameFormat,
        bytes: usize,
        sequence: u64,
        timestamp_us: Option<u64>,
    ) -> (f: Self)
        ensures
            f == (FrameInfo { size, format, bytes, sequence, timestamp_us }),
    {
        FrameInfo { size, format, bytes, sequence, timestamp_us }
    }

    pub fn from_capture(config: CaptureConfig, capture: CaptureInfo) -> (f: Self)
        ensures
            f == capture_frame_info(config, capture),
    {
        FrameInfo {
            size: config.size,
            format: config.format,
            bytes: capture.bytes,
            sequence: capture.sequence,
            timestamp_us: capture.timestamp_us,
        }
    }
}

/// A frame: its bytes and its metadata.
#[derive(Debug, Clone, Copy, PartialEq, Eq)]
pub struct Frame<'a> {
    pub data: &'a [u8],
    pub info: FrameInfo,
}

impl<'a> Frame<'a> {
    pub fn new(data: &'a [u8], info: FrameInfo) -> (f: Self)
        ensures
            f.data@ == data@,
            f.info == info,
    {
        Frame { data, info }
    }
}

/// Storage for one frame of at most `N` bytes and its metadata.
pub struct FrameSlot<const N: usize> {
    data: [u8; N],
    info: Option<FrameInfo>,
}

impl<const N: usize> FrameSlot<N> {
    /// The bytes of the slot's buffer.
    pub closed spec fn bytes(&self) -> Seq<u8> {
        self.data@
    }

    /// The metadata stored in the slot, if any.
    pub closed spec fn stored(&self) -> Option<FrameInfo> {
        self.info
    }

    /// An empty slot with a zeroed buffer.
    pub fn new() -> (s: Self)
        ensures
            s.stored() == None::<FrameInfo>,
            s.bytes() == Seq::new(N as nat, |i: int| 0u8),
    {
        let s = FrameSlot { data: [0u8; N], info: None };
        assert(s.bytes() =~= Seq::new(N as nat, |i: int| 0u8));
        s
    }

    pub fn capacity(&self) -> (n: usize)
        ensures
            n == N,
    {
        N
    }

    /// The whole buffer, to be filled by a capture backend.
    pub fn as_mut_slice(&mut self) -> (buf: &mut [u8])
        ensures
            buf@ == old(self).bytes(),
            buf@.len() == N,
            final(self).bytes() == final(buf)@,
            final(self).stored() == old(self).stored(),
    {
        vstd::array::ref_mut_array_unsizing_coercion(&mut self.data)
    }

    pub fn store(&mut self, info: FrameInfo)
        ensures
            final(self).stored() == Some(info),
            final(self).bytes() == old(self).bytes(),
    {
        self.info = Some(info);
    }

    pub fn clear(&mut self)
        ensures
            final(self).stored() == None::<FrameInfo>,
            final(self).bytes() == old(self).bytes(),
    {
        self.info = None;
    }

    pub fn info(&self) -> (i: Option<FrameInfo>)
        ensures
            i == self.stored(),
    {
        self.info
    }

    /// The stored frame: the first `info.bytes` bytes of the buffer, when
    /// metadata is stored and its byte count fits the buffer.
    pub fn frame(&self) -> (f: Option<Frame<'_>>)
        ensures
            f is Some <==> (self.stored() matches Some(i) && i.bytes <= N),
            f matches Some(fr) ==> fr.info == self.stored().unwrap() && fr.data@ == self.bytes().take(
                fr.info.bytes as int,
            ),
    {
        match self.info {
            None => None,
            Some(info) => {
                if info.bytes <= N {
                    let data: &[u8] = &self.data[0..info.bytes];
                    Some(Frame { data, info })
                } else {
                    None
                }
            },
        }
    }
}

impl<const N: usize> Default for FrameSlot<N> {
    fn default() -> (s: Self)
        ensures
            s.stored() == None::<FrameInfo>,
            s.bytes() == Seq::new(N as nat, |i: int| 0u8),
    {
        Self::new()
    }
}

} // verus!
