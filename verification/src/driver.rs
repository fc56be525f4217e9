//! OV2640 sensor handle: identification, output configuration and typed
//! image controls expressed as register programs.

use vstd::prelude::*;

use crate::registers::BANK_SEL;

verus! {

/// I2C/SCCB address of the OV2640 when none is given.
pub const DEFAULT_ADDRESS: u8 = 0x30;
/// Product id (`REG_PID`) that an OV2640 reports.
pub const EXPECTED_PID: u8 = 0x26;
/// Product version (`REG_VER`) that an OV2640 reports.
pub const EXPECTED_VER: u8 = 0x42;

/// Errors of the sensor driver: a failed bus transfer, or a device that does
/// not identify as an OV2640.
#[derive(Debug, Clone, Copy, PartialEq, Eq)]
pub enum Error<E> {
    I2c(E),
    UnexpectedId { pid: u8, ver: u8 },
}

/// Identification registers read from the sensor.
#[derive(Debug, Clone, Copy, PartialEq, Eq, Structural)]
pub struct DetectedSensor {
    pub pid: u8,
    pub ver: u8,
}

/// Output resolutions with a supported register configuration.
#[derive(Debug, Clone, Copy, PartialEq, Eq, Structural)]
pub enum Resolution {
    Qvga320x240,
    Vga640x480,
}

/// Output pixel formats.
#[derive(Debug, Clone, Copy, PartialEq, Eq, Structural)]
pub enum ImageFormat {
    Yuv422,
    Rgb565,
    Jpeg,
}

/// Five-step level of a table-driven image control.
#[derive(Debug, Clone, Copy, PartialEq, Eq, Structural)]
pub enum ControlLevel {
    /// Minimum level used by Espressif's OV2640 tables.
    Minus2,
    /// Low level used by Espressif's OV2640 tables.
    Minus1,
    /// Neutral/default level.
    Zero,
    /// High level used by Espressif's OV2640 tables.
    Plus1,
    /// Maximum level used by Espressif's OV2640 tables.
    Plus2,
}

/// Row of a five-level control table that holds the values for `level`
/// (row 0 holds the register addresses).
pub open spec fn control_level_row(level: ControlLevel) -> usize {
    match level {
        ControlLevel::Minus2 => 1,
        ControlLevel::Minus1 => 2,
        ControlLevel::Zero => 3,
        ControlLevel::Plus1 => 4,
        ControlLevel::Plus2 => 5,
    }
}

/// How many steps `level` lies above (positive) or below (negative) the
/// neutral level.
pub open spec fn level_steps(level: ControlLevel) -> int {
    match level {
        ControlLevel::Minus2 => -2,
        ControlLevel::Minus1 => -1,
        ControlLevel::Zero => 0,
        ControlLevel::Plus1 => 1,
        ControlLevel::Plus2 => 2,
    }
}

/// The five levels fill the five value rows of a control table in order:
/// the neutral level takes the middle row 3 and each step moves one row, so
/// distinct levels take distinct rows and a higher level a later row.
pub proof fn lemma_control_level_rows(a: ControlLevel, b: ControlLevel)
    ensures
        control_level_row(a) == 3 + level_steps(a),
        control_level_row(ControlLevel::Zero) == 3,
        level_steps(a) < level_steps(b) <==> control_level_row(a) < control_level_row(b),
        control_level_row(a) == control_level_row(b) <==> a == b,
{
}

impl ControlLevel {
    /// Table row of this level.
    pub fn table_row(self) -> (row: usize)
        ensures
            row == control_level_row(self),
            row == 3 + level_steps(self),
            1 <= row <= 5,
    {
        match self {
            ControlLevel::Minus2 => 1,
            ControlLevel::Minus1 => 2,
            ControlLevel::Zero => 3,
            ControlLevel::Plus1 => 4,
            ControlLevel::Plus2 => 5,
        }
    }
}

/// Special colour effects of the DSP.
#[derive(Debug, Clone, Copy, PartialEq, Eq, Structural)]
pub enum SpecialEffect {
    /// Normal color output.
    NoEffect,
    /// Inverted colors.
    Negative,
    /// Black-and-white output.
    Grayscale,
    /// Red tint.
    Reddish,
    /// Green tint.
    Greenish,
    /// Blue tint.
    Blue,
    /// Sepia-like tint.
    Retro,
}

/// Row of the special-effect table that holds the values for `effect`.
pub open spec fn special_effect_row(effect: SpecialEffect) -> usize {
    match effect {
        SpecialEffect::NoEffect => 1,
        SpecialEffect::Negative => 2,
        SpecialEffect::Grayscale => 3,
        SpecialEffect::Reddish => 4,
        SpecialEffect::Greenish => 5,
        SpecialEffect::Blue => 6,
        SpecialEffect::Retro => 7,
    }
}

impl SpecialEffect {
    /// Table row of this effect.
    pub fn table_row(self) -> (row: usize)
        ensures
            row == special_effect_row(self),
            1 <= row <= 7,
    {
        match self {
            SpecialEffect::NoEffect => 1,
            SpecialEffect::Negative => 2,
            SpecialEffect::Grayscale => 3,
            SpecialEffect::Reddish => 4,
            SpecialEffect::Greenish => 5,
            SpecialEffect::Blue => 6,
            SpecialEffect::Retro => 7,
        }
    }
}

/// White-balance modes: automatic, or one of four presets.
#[derive(Debug, Clone, Copy, PartialEq, Eq, Structural)]
pub enum WhiteBalanceMode {
    /// Automatic white balance mode.
    Auto,
    /// Sunny/daylight preset.
    Sunny,
    /// Cloudy preset.
    Cloudy,
    /// Office/fluorescent preset.
    Office,
    /// Home/indoor preset.
    Home,
}

/// Row of the white-balance table for `mode`; automatic mode has none.
pub open spec fn white_balance_row(mode: WhiteBalanceMode) -> Option<usize> {
    match mode {
        WhiteBalanceMode::Auto => None,
        WhiteBalanceMode::Sunny => Some(1),
        WhiteBalanceMode::Cloudy => Some(2),
        WhiteBalanceMode::Office => Some(3),
        WhiteBalanceMode::Home => Some(4),
    }
}

impl WhiteBalanceMode {
    /// Table row of this mode, `None` for automatic white balance.
    pub fn table_row(self) -> (row: Option<usize>)
        ensures
            row == white_balance_row(self),
            row matches Some(r) ==> 1 <= r <= 4,
    {
        match self {
            WhiteBalanceMode::Auto => None,
            WhiteBalanceMode::Sunny => Some(1),
            WhiteBalanceMode::Cloudy => Some(2),
            WhiteBalanceMode::Office => Some(3),
            WhiteBalanceMode::Home => Some(4),
        }
    }
}

/// Ceiling of the automatic gain control.
#[derive(Debug, Clone, Copy, PartialEq, Eq, Structural)]
pub enum GainCeiling {
    /// 2x automatic gain ceiling.
    X2,
    /// 4x automatic gain ceiling.
    X4,
    /// 8x automatic gain ceiling.
    X8,
    /// 16x automatic gain ceiling.
    X16,
    /// 32x automatic gain ceiling.
    X32,
    /// 64x automatic gain ceiling.
    X64,
    /// 128x automatic gain ceiling.
    X128,
}

/// Value of the three-bit gain-ceiling field of `COM9` for `ceiling`.
pub open spec fn gain_ceiling_bits(ceiling: GainCeiling) -> u8 {
    match ceiling {
        GainCeiling::X2 => 0,
        GainCeiling::X4 => 1,
        GainCeiling::X8 => 2,
        GainCeiling::X16 => 3,
        GainCeiling::X32 => 4,
        GainCeiling::X64 => 5,
        GainCeiling::X128 => 6,
    }
}

impl GainCeiling {
    /// Field value of this ceiling.
    pub fn bits(self) -> (b: u8)
        ensures
            b == gain_ceiling_bits(self),
            b <= 6,
    {
        match self {
            GainCeiling::X2 => 0,
            GainCeiling::X4 => 1,
            GainCeiling::X8 => 2,
            GainCeiling::X16 => 3,
            GainCeiling::X32 => 4,
            GainCeiling::X64 => 5,
            GainCeiling::X128 => 6,
        }
    }
}

/// Pixel-clock setting of an output configuration.
#[derive(Debug, Clone, Copy, PartialEq, Eq, Structural)]
pub enum PixelClock {
    /// Verified for QVGA YUV422/RGB565 capture.
    QvgaParallel,
    /// Verified for QVGA JPEG on ESP32-S3 LCD_CAM/GDMA.
    QvgaJpeg,
}

/// JPEG tuning: quantization scale (`QS`) and DVP output speed (`R_DVP_SP`).
#[derive(Debug, Clone, Copy, PartialEq, Eq, Structural)]
pub struct JpegConfig {
    pub qs: u8,
    pub r_dvp_sp: u8,
}

impl JpegConfig {
    pub fn new(qs: u8, r_dvp_sp: u8) -> (c: Self)
        ensures
            c.qs == qs,
            c.r_dvp_sp == r_dvp_sp,
    {
        JpegConfig { qs, r_dvp_sp }
    }
}

impl Default for JpegConfig {
    /// The quality-first baseline: `QS = 0x0c`, `R_DVP_SP = 0x08`.
    fn default() -> (c: Self)
        ensures
            c.qs == 0x0c,
            c.r_dvp_sp == 0x08,
    {
        JpegConfig { qs: 0x0c, r_dvp_sp: 0x08 }
    }
}

/// Resolution, format, pixel clock and JPEG tuning of the sensor output.
#[derive(Debug, Clone, Copy, PartialEq, Eq, Structural)]
pub struct OutputConfig {
    pub resolution: Resolution,
    pub format: ImageFormat,
    pub pixel_clock: PixelClock,
    pub jpeg: JpegConfig,
}

/// The combinations of resolution, format and pixel clock that have a
/// register configuration.
pub open spec fn supported_output(config: OutputConfig) -> bool {
    match (config.resolution, config.format, config.pixel_clock) {
        (Resolution::Qvga320x240, ImageFormat::Yuv422, PixelClock::QvgaParallel) => true,
        (Resolution::Qvga320x240, ImageFormat::Rgb565, PixelClock::QvgaParallel) => true,
        (Resolution::Qvga320x240, ImageFormat::Jpeg, PixelClock::QvgaJpeg) => true,
        (Resolution::Vga640x480, ImageFormat::Jpeg, PixelClock::QvgaJpeg) => true,
        _ => false,
    }
}

impl OutputConfig {
    /// Whether this combination of resolution, format and pixel clock has a
    /// register configuration.
    pub fn is_supported(&self) -> (b: bool)
        ensures
            b == supported_output(*self),
    {
        match (self.resolution, self.format, self.pixel_clock) {
            (Resolution::Qvga320x240, ImageFormat::Yuv422, PixelClock::QvgaParallel) => true,
            (Resolution::Qvga320x240, ImageFormat::Rgb565, PixelClock::QvgaParallel) => true,
            (Resolution::Qvga320x240, ImageFormat::Jpeg, PixelClock::QvgaJpeg) => true,
            (Resolution::Vga640x480, ImageFormat::Jpeg, PixelClock::QvgaJpeg) => true,
            _ => false,
        }
    }

    pub fn qvga_yuv422() -> (c: Self)
        ensures
            c.resolution == Resolution::Qvga320x240,
            c.format == ImageFormat::Yuv422,
            c.pixel_clock == PixelClock::QvgaParallel,
            c.jpeg == (JpegConfig { qs: 0x0c, r_dvp_sp: 0x08 }),
            supported_output(c),
    {
        OutputConfig {
            resolution: Resolution::Qvga320x240,
            format: ImageFormat::Yuv422,
            pixel_clock: PixelClock::QvgaParallel,
            jpeg: JpegConfig::new(0x0c, 0x08),
        }
    }

    pub fn qvga_rgb565() -> (c: Self)
        ensures
            c.resolution == Resolution::Qvga320x240,
            c.format == ImageFormat::Rgb565,
            c.pixel_clock == PixelClock::QvgaParallel,
            c.jpeg == (JpegConfig { qs: 0x0c, r_dvp_sp: 0x08 }),
            supported_output(c),
    {
        OutputConfig {
            resolution: Resolution::Qvga320x240,
            format: ImageFormat::Rgb565,
            pixel_clock: PixelClock::QvgaParallel,
            jpeg: JpegConfig::new(0x0c, 0x08),
        }
    }

    pub fn qvga_jpeg(jpeg: JpegConfig) -> (c: Self)
        ensures
            c.resolution == Resolution::Qvga320x240,
            c.format == ImageFormat::Jpeg,
            c.pixel_clock == PixelClock::QvgaJpeg,
            c.jpeg == jpeg,
            supported_output(c),
    {
        OutputConfig {
            resolution: Resolution::Qvga320x240,
            format: ImageFormat::Jpeg,
            pixel_clock: PixelClock::QvgaJpeg,
            jpeg,
        }
    }

    pub fn vga_jpeg(jpeg: JpegConfig) -> (c: Self)
        ensures
            c.resolution == Resolution::Vga640x480,
            c.format == ImageFormat::Jpeg,
            c.pixel_clock == PixelClock::QvgaJpeg,
            c.jpeg == jpeg,
            supported_output(c),
    {
        OutputConfig {
            resolution: Resolution::Vga640x480,
            format: ImageFormat::Jpeg,
            pixel_clock: PixelClock::QvgaJpeg,
            jpeg,
        }
    }
}


/// One register-level step of a sensor operation.
#[derive(Debug, Clone, Copy, PartialEq, Eq, Structural)]
pub enum RegOp {
    /// Write `value` to `reg` of the selected bank.
    Write { reg: u8, value: u8 },
    /// Read `reg` of the selected bank; the byte read is kept.
    Read { reg: u8 },
    /// Select `bank`, writing `BANK_SEL` only when `bank` is not known to be
    /// selected already.
    SelectBank { bank: u8 },
    /// Read `reg` of the selected bank and write it back with its bits
    /// `mask << offset` replaced by `(value & mask) << offset`.
    Update { reg: u8, offset: u8, mask: u8, value: u8 },
    /// Wait `ms` milliseconds.
    Delay { ms: u32 },
    /// The sensor was reset: no bank is known to be selected.
    ForgetBank,
    /// Stop unless the first two bytes read are the OV2640 product id and
    /// version.
    CheckId,
}

/// What the caller of [`Ov2640::advance`] is asked to do next.
#[derive(Debug, Clone, Copy, PartialEq, Eq, Structural)]
pub enum BusAction {
    /// Write the two bytes `[reg, value]` to the device at `address`.
    Write { address: u8, reg: u8, value: u8 },
    /// Write the byte `reg` to the device at `address`, then read one byte.
    Read { address: u8, reg: u8 },
    /// Wait `ms` milliseconds.
    Delay { ms: u32 },
    /// The operation is complete.
    Done,
    /// The device did not identify as an OV2640; the operation stops.
    WrongId { pid: u8, ver: u8 },
}

/// What a run waits for from the transfer it asked for last.
#[derive(Debug, Clone, Copy, PartialEq, Eq, Structural)]
pub enum Pending {
    /// Nothing: no transfer, or a delay.
    Idle,
    /// The acknowledgement of a write of `value` to `reg`.
    Write { reg: u8, value: u8 },
    /// The byte of a read.
    Read,
    /// The byte of the read of an `Update`, to be written back changed.
    Update { reg: u8, offset: u8, mask: u8, value: u8 },
}

/// Abstract state of a sensor handle: its bus address and the register bank
/// known to be selected.
#[derive(Debug, Clone, Copy, PartialEq, Eq, Structural)]
pub struct SensorState {
    pub address: u8,
    pub bank: Option<u8>,
}

/// Abstract state of a [`RegisterRun`].
pub struct RunState {
    /// The steps of the operation.
    pub ops: Seq<RegOp>,
    /// Index of the next step to start.
    pub next: int,
    /// What the last requested transfer is awaited for.
    pub pending: Pending,
    /// Bytes read so far, in order.
    pub reads: Seq<u8>,
    /// Number of writes acknowledged so far (wrapping).
    pub writes: u16,
}

/// Ids that an OV2640 reports: the first two bytes read are its product id
/// and version.
pub open spec fn id_matches(reads: Seq<u8>) -> bool {
    reads.len() >= 2 && reads[0] == EXPECTED_PID && reads[1] == EXPECTED_VER
}

/// Byte `i` of `reads`, zero when absent.
pub open spec fn read_or_zero(reads: Seq<u8>, i: int) -> u8 {
    if 0 <= i < reads.len() {
        reads[i]
    } else {
        0
    }
}

/// `current` with the bits `mask << offset` replaced by `(value & mask) <<
/// offset`.
pub open spec fn field_update(current: u8, offset: u8, mask: u8, value: u8) -> u8 {
    (current & !(mask << offset)) | ((value & mask) << offset)
}

/// Steps that need no bus transfer are carried out from `next` on until one
/// needs a transfer or a delay, or the operation ends; the bank known
/// selected, the next step, what is then awaited, and the action.
pub open spec fn pump(bank: Option<u8>, address: u8, ops: Seq<RegOp>, next: int, reads: Seq<u8>) -> (
    Option<u8>,
    int,
    Pending,
    BusAction,
)
    decreases ops.len() - next,
{
    if next < 0 || next >= ops.len() {
        (bank, next, Pending::Idle, BusAction::Done)
    } else {
        match ops[next] {
            RegOp::Write { reg, value } => (
                bank,
                next + 1,
                Pending::Write { reg, value },
                BusAction::Write { address, reg, value },
            ),
            RegOp::Read { reg } => (bank, next + 1, Pending::Read, BusAction::Read { address, reg }),
            RegOp::SelectBank { bank: b } => {
                if bank == Some(b) {
                    pump(bank, address, ops, next + 1, reads)
                } else {
                    (
                        bank,
                        next + 1,
                        Pending::Write { reg: BANK_SEL, value: b },
                        BusAction::Write { address, reg: BANK_SEL, value: b },
                    )
                }
            },
            RegOp::Update { reg, offset, mask, value } => (
                bank,
                next + 1,
                Pending::Update { reg, offset, mask, value },
                BusAction::Read { address, reg },
            ),
            RegOp::Delay { ms } => (bank, next + 1, Pending::Idle, BusAction::Delay { ms }),
            RegOp::ForgetBank => pump(None, address, ops, next + 1, reads),
            RegOp::CheckId => {
                if id_matches(reads) {
                    pump(bank, address, ops, next + 1, reads)
                } else {
                    (
                        bank,
                        ops.len() as int,
                        Pending::Idle,
                        BusAction::WrongId {
                            pid: read_or_zero(reads, 0),
                            ver: read_or_zero(reads, 1),
                        },
                    )
                }
            },
        }
    }
}

/// One call of [`Ov2640::advance`]: the awaited transfer completes with
/// `reply` (the byte read, for a read), and the next action is chosen.
pub open spec fn advance_spec(s: SensorState, r: RunState, reply: u8) -> (SensorState, RunState, BusAction) {
    match r.pending {
        Pending::Update { reg, offset, mask, value } => {
            let v = field_update(reply, offset, mask, value);
            (
                s,
                RunState {
                    ops: r.ops,
                    next: r.next,
                    pending: Pending::Write { reg, value: v },
                    reads: r.reads,
                    writes: r.writes,
                },
                BusAction::Write { address: s.address, reg, value: v },
            )
        },
        _ => {
            let bank1 = match r.pending {
                Pending::Write { reg, value } => if reg == BANK_SEL {
                    Some(value)
                } else {
                    s.bank
                },
                _ => s.bank,
            };
            let writes1 = match r.pending {
                Pending::Write { .. } => r.writes.wrapping_add(1),
                _ => r.writes,
            };
            let reads1 = match r.pending {
                Pending::Read => r.reads.push(reply),
                _ => r.reads,
            };
            let (bank2, next2, pending2, action) = pump(bank1, s.address, r.ops, r.next, reads1);
            (
                SensorState { address: s.address, bank: bank2 },
                RunState { ops: r.ops, next: next2, pending: pending2, reads: reads1, writes: writes1 },
                action,
            )
        },
    }
}

/// Every `Update` step shifts by less than eight bits.
pub open spec fn ops_valid(ops: Seq<RegOp>) -> bool {
    forall|i: int| 0 <= i < ops.len() ==> (#[trigger] ops[i] matches RegOp::Update { offset, .. } ==> offset < 8)
}

/// Progress of one sensor operation over the bus.
pub struct RegisterRun {
    ops: Vec<RegOp>,
    next: usize,
    pending: Pending,
    reads: Vec<u8>,
    writes: u16,
}

impl View for RegisterRun {
    type V = RunState;

    closed spec fn view(&self) -> RunState {
        RunState {
            ops: self.ops@,
            next: self.next as int,
            pending: self.pending,
            reads: self.reads@,
            writes: self.writes,
        }
    }
}

impl RegisterRun {
    /// Invariant of a run: its steps are valid, its position within them,
    /// and an awaited update shifts by less than eight bits.
    pub open spec fn wf(&self) -> bool {
        &&& ops_valid(self@.ops)
        &&& 0 <= self@.next <= self@.ops.len()
        &&& (self@.pending matches Pending::Update { offset, .. } ==> offset < 8)
    }

    /// A run of `ops` that has not started.
    pub fn new(ops: Vec<RegOp>) -> (r: Self)
        requires
            ops_valid(ops@),
        ensures
            r.wf(),
            r@.ops == ops@,
            r@.next == 0,
            r@.pending == Pending::Idle,
            r@.reads == Seq::<u8>::empty(),
            r@.writes == 0,
    {
        RegisterRun { ops, next: 0, pending: Pending::Idle, reads: Vec::new(), writes: 0 }
    }

    /// Bytes read so far, in order.
    pub fn reads(&self) -> (r: &Vec<u8>)
        ensures
            r@ == self@.reads,
    {
        &self.reads
    }

    /// Number of writes acknowledged so far (wrapping).
    pub fn writes(&self) -> (n: u16)
        ensures
            n == self@.writes,
    {
        self.writes
    }

    /// The identification read by the run: its first two bytes read.
    pub fn detected(&self) -> (d: Option<DetectedSensor>)
        ensures
            d is Some <==> self@.reads.len() >= 2,
            d matches Some(id) ==> id.pid == self@.reads[0] && id.ver == self@.reads[1],
    {
        if self.reads.len() >= 2 {
            Some(DetectedSensor { pid: self.reads[0], ver: self.reads[1] })
        } else {
            None
        }
    }
}

/// OV2640 sensor handle: the bus it sits on, its address, and the register
/// bank known to be selected.
pub struct Ov2640<I2C> {
    i2c: I2C,
    address: u8,
    current_bank: Option<u8>,
}

impl<I2C> View for Ov2640<I2C> {
    type V = SensorState;

    closed spec fn view(&self) -> SensorState {
        SensorState { address: self.address, bank: self.current_bank }
    }
}

impl<I2C> Ov2640<I2C> {
    /// The bus the sensor sits on.
    pub closed spec fn bus(&self) -> I2C {
        self.i2c
    }

    /// A handle for the sensor at the default address; no bank is known to
    /// be selected.
    pub fn new(i2c: I2C) -> (s: Self)
        ensures
            s@ == (SensorState { address: DEFAULT_ADDRESS, bank: None }),
            s.bus() == i2c,
    {
        Ov2640 { i2c, address: DEFAULT_ADDRESS, current_bank: None }
    }

    pub fn with_address(i2c: I2C, address: u8) -> (s: Self)
        ensures
            s@ == (SensorState { address, bank: None }),
            s.bus() == i2c,
    {
        Ov2640 { i2c, address, current_bank: None }
    }

    /// Gives the bus back.
    pub fn free(self) -> (i2c: I2C)
        ensures
            i2c == self.bus(),
    {
        self.i2c
    }

    pub fn address(&self) -> (a: u8)
        ensures
            a == self@.address,
    {
        self.address
    }

    /// The bus, for carrying out the transfers that [`Ov2640::advance`]
    /// asks for.
    pub fn i2c_mut(&mut self) -> (bus: &mut I2C)
        ensures
            *bus == old(self).bus(),
            final(self).bus() == *final(bus),
            final(self)@ == old(self)@,
    {
        &mut self.i2c
    }

    /// Carries a run one step further: the transfer asked for by the
    /// previous call completed (a read returning `reply`; `reply` is
    /// ignored otherwise, and on the first call), and the next action is
    /// returned. A transfer that fails ends the run: the handle then knows
    /// only what the acknowledged transfers told it.
    pub fn advance(&mut self, run: &mut RegisterRun, reply: u8) -> (action: BusAction)
        requires
            old(run).wf(),
        ensures
            final(run).wf(),
            final(self).bus() == old(self).bus(),
            (final(self)@, final(run)@, action) == advance_spec(old(self)@, old(run)@, reply),
    {
        match run.pending {
            Pending::Update { reg, offset, mask, value } => {
                let v = (reply & !(mask << offset)) | ((value & mask) << offset);
                run.pending = Pending::Write { reg, value: v };
                return BusAction::Write { address: self.address, reg, value: v };
            },
            Pending::Write { reg, value } => {
                if reg == BANK_SEL {
                    self.current_bank = Some(value);
                }
                run.writes = run.writes.wrapping_add(1);
            },
            Pending::Read => {
                run.reads.push(reply);
            },
            Pending::Idle => {},
        }
        run.pending = Pending::Idle;
        self.pump(run)
    }

    fn pump(&mut self, run: &mut RegisterRun) -> (action: BusAction)
        requires
            ops_valid(old(run)@.ops),
            0 <= old(run)@.next <= old(run)@.ops.len(),
        ensures
            final(run).wf(),
            final(run)@.ops == old(run)@.ops,
            final(run)@.reads == old(run)@.reads,
            final(run)@.writes == old(run)@.writes,
            final(self)@.address == old(self)@.address,
            final(self).bus() == old(self).bus(),
            (final(self)@.bank, final(run)@.next, final(run)@.pending, action) == pump(
                old(self)@.bank,
                old(self)@.address,
                old(run)@.ops,
                old(run)@.next,
                old(run)@.reads,
            ),
    {
        loop
            invariant
                ops_valid(run@.ops),
                0 <= run@.next <= run@.ops.len(),
                run@.ops == old(run)@.ops,
                run@.reads == old(run)@.reads,
                run@.writes == old(run)@.writes,
                self@.address == old(self)@.address,
                self.bus() == old(self).bus(),
                pump(self@.bank, self@.address, run@.ops, run@.next, run@.reads) == pump(
                    old(self)@.bank,
                    old(self)@.address,
                    old(run)@.ops,
                    old(run)@.next,
                    old(run)@.reads,
                ),
            decreases run@.ops.len() - run@.next,
        {
            if run.next >= run.ops.len() {
                run.pending = Pending::Idle;
                return BusAction::Done;
            }
            let op = run.ops[run.next];
            run.next = run.next + 1;
            match op {
                RegOp::Write { reg, value } => {
                    run.pending = Pending::Write { reg, value };
                    return BusAction::Write { address: self.address, reg, value };
                },
                RegOp::Read { reg } => {
                    run.pending = Pending::Read;
                    return BusAction::Read { address: self.address, reg };
                },
                RegOp::SelectBank { bank } => {
                    if self.current_bank != Some(bank) {
                        run.pending = Pending::Write { reg: BANK_SEL, value: bank };
                        return BusAction::Write { address: self.address, reg: BANK_SEL, value: bank };
                    }
                },
                RegOp::Update { reg, offset, mask, value } => {
                    assert(ops_valid(run@.ops) && run@.ops[run@.next - 1] == op);
                    run.pending = Pending::Update { reg, offset, mask, value };
                    return BusAction::Read { address: self.address, reg };
                },
                RegOp::Delay { ms } => {
                    run.pending = Pending::Idle;
                    return BusAction::Delay { ms };
                },
                RegOp::ForgetBank => {
                    self.current_bank = None;
                },
                RegOp::CheckId => {
                    let ok = run.reads.len() >= 2 && run.reads[0] == EXPECTED_PID && run.reads[1]
                        == EXPECTED_VER;
                    if !ok {
                        let pid = if run.reads.len() >= 1 {
                            run.reads[0]
                        } else {
                            0
                        };
                        let ver = if run.reads.len() >= 2 {
                            run.reads[1]
                        } else {
                            0
                        };
                        run.next = run.ops.len();
                        run.pending = Pending::Idle;
                        return BusAction::WrongId { pid, ver };
                    }
                },
            }
        }
    }
}

} // verus!
