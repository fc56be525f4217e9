//! The register programs of the sensor operations: identification, reset,
//! initialization, output configuration and the typed image controls.

use vstd::prelude::*;

use crate::driver::{
    control_level_row, field_update, gain_ceiling_bits, ops_valid, special_effect_row, supported_output,
    white_balance_row, ControlLevel, GainCeiling, ImageFormat, JpegConfig, OutputConfig, Ov2640,
    PixelClock, RegOp, Resolution, SpecialEffect, WhiteBalanceMode,
};
use crate::registers::{
    AEC, AWB_MODE, BANK_DSP, BANK_SEL, BANK_SENSOR, COM7, COM7_COLOR_BAR, COM7_SRST, COM8,
    COM8_AEC_EN, COM8_AGC_EN, COM9, CTRL0, CTRL1, CTRL2, CTRL3, END_REG, END_VALUE, GAIN, QS,
    REG04, REG04_HFLIP_IMG, REG04_VFLIP_IMG, REG04_VREF_EN, REG45, REG_PID, REG_VER, R_DVP_SP,
};
use crate::tables::RegisterTables;
use crate::traits::SensorControl;

verus! {

/// Select `bank`, then write `value` to `reg`.
pub open spec fn in_bank_ops(bank: u8, reg: u8, value: u8) -> Seq<RegOp> {
    seq![RegOp::SelectBank { bank }, RegOp::Write { reg, value }]
}

/// Select `bank`, then replace the bits `mask << offset` of `reg` by
/// `(value & mask) << offset`.
pub open spec fn bits_ops(bank: u8, reg: u8, offset: u8, mask: u8, value: u8) -> Seq<RegOp> {
    seq![RegOp::SelectBank { bank }, RegOp::Update { reg, offset, mask, value }]
}

/// Select `bank`, then set (`enable`) or clear the bits `mask` of `reg`.
pub open spec fn flag_ops(bank: u8, reg: u8, mask: u8, enable: bool) -> Seq<RegOp> {
    bits_ops(
        bank,
        reg,
        0,
        mask,
        if enable {
            mask
        } else {
            0
        },
    )
}

/// The step for one entry of a sequence table: an entry for `BANK_SEL`
/// selects a bank, any other entry is a write.
pub open spec fn entry_op(entry: (u8, u8)) -> RegOp {
    if entry.0 == BANK_SEL {
        RegOp::SelectBank { bank: entry.1 }
    } else {
        RegOp::Write { reg: entry.0, value: entry.1 }
    }
}

/// The steps for a sequence table: one per entry, up to the end marker.
pub open spec fn table_ops(regs: Seq<(u8, u8)>) -> Seq<RegOp>
    decreases regs.len(),
{
    if regs.len() == 0 || regs[0] == (END_REG, END_VALUE) {
        seq![]
    } else {
        seq![entry_op(regs[0])] + table_ops(regs.drop_first())
    }
}

/// The steps for a control-table row: for each register address of `regs`
/// paired with a value of `values`, select `bank` and write the value.
pub open spec fn control_ops(bank: u8, regs: Seq<u8>, values: Seq<u8>) -> Seq<RegOp>
    decreases regs.len(),
{
    if regs.len() == 0 || values.len() == 0 {
        seq![]
    } else {
        in_bank_ops(bank, regs[0], values[0]) + control_ops(
            bank,
            regs.drop_first(),
            values.drop_first(),
        )
    }
}

/// The steps that write row `row` of control table `table` in `bank`.
pub open spec fn row_ops(bank: u8, table: Seq<Vec<u8>>, row: int) -> Seq<RegOp> {
    control_ops(bank, table[0]@, table[row]@)
}

/// Select the sensor bank and read the product id and version.
pub open spec fn detect_ops() -> Seq<RegOp> {
    seq![
        RegOp::SelectBank { bank: BANK_SENSOR },
        RegOp::Read { reg: REG_PID },
        RegOp::Read { reg: REG_VER },
    ]
}

/// Read the identification and stop unless it is that of an OV2640.
pub open spec fn verify_id_ops() -> Seq<RegOp> {
    detect_ops().push(RegOp::CheckId)
}

/// Software reset, a 10 ms wait, and no bank known selected afterwards.
pub open spec fn reset_ops() -> Seq<RegOp> {
    in_bank_ops(BANK_SENSOR, COM7, COM7_SRST) + seq![RegOp::Delay { ms: 10 }, RegOp::ForgetBank]
}

/// The JPEG tuning writes that end a JPEG output configuration.
pub open spec fn jpeg_tuning_ops(jpeg: JpegConfig) -> Seq<RegOp> {
    seq![
        RegOp::SelectBank { bank: BANK_DSP },
        RegOp::Write { reg: R_DVP_SP, value: jpeg.r_dvp_sp },
        RegOp::Write { reg: QS, value: jpeg.qs },
    ]
}

/// The steps that configure the output `config`: DSP bypass, sensor timing,
/// window, pixel clock and format tables, then the JPEG tuning for JPEG
/// outputs.
pub open spec fn output_ops(config: OutputConfig, t: RegisterTables) -> Seq<RegOp> {
    let front = table_ops(t.dsp_bypass_on@);
    match (config.resolution, config.format) {
        (Resolution::Qvga320x240, ImageFormat::Yuv422) => front + table_ops(t.settings_to_cif@)
            + table_ops(t.qvga_window@) + table_ops(t.qvga_yuv422_clocks@) + table_ops(
            t.settings_yuv422@,
        ),
        (Resolution::Qvga320x240, ImageFormat::Rgb565) => front + table_ops(t.settings_to_cif@)
            + table_ops(t.qvga_window@) + table_ops(t.qvga_yuv422_clocks@) + table_ops(
            t.settings_rgb565@,
        ),
        (Resolution::Qvga320x240, ImageFormat::Jpeg) => front + table_ops(t.settings_to_cif@)
            + table_ops(t.qvga_window@) + table_ops(t.qvga_jpeg_clocks@) + table_ops(
            t.settings_jpeg@,
        ) + jpeg_tuning_ops(config.jpeg),
        (Resolution::Vga640x480, _) => front + table_ops(t.settings_to_svga@) + table_ops(
            t.vga_window@,
        ) + table_ops(t.vga_jpeg_clocks@) + table_ops(t.settings_jpeg@) + jpeg_tuning_ops(
            config.jpeg,
        ),
    }
}

/// Sensor timing table of a resolution: CIF timing for QVGA, SVGA timing for
/// VGA.
pub open spec fn timing_table(resolution: Resolution, t: RegisterTables) -> Seq<(u8, u8)> {
    match resolution {
        Resolution::Qvga320x240 => t.settings_to_cif@,
        Resolution::Vga640x480 => t.settings_to_svga@,
    }
}

/// Output window table of a resolution.
pub open spec fn window_table(resolution: Resolution, t: RegisterTables) -> Seq<(u8, u8)> {
    match resolution {
        Resolution::Qvga320x240 => t.qvga_window@,
        Resolution::Vga640x480 => t.vga_window@,
    }
}

/// Pixel-clock table of an output: at QVGA the table of the configured
/// pixel clock (parallel YUV422/RGB565 or JPEG), at VGA the VGA JPEG clocks.
pub open spec fn clock_table(config: OutputConfig, t: RegisterTables) -> Seq<(u8, u8)> {
    match config.resolution {
        Resolution::Qvga320x240 => match config.pixel_clock {
            PixelClock::QvgaParallel => t.qvga_yuv422_clocks@,
            PixelClock::QvgaJpeg => t.qvga_jpeg_clocks@,
        },
        Resolution::Vga640x480 => t.vga_jpeg_clocks@,
    }
}

/// Output format table of an image format.
pub open spec fn format_table(format: ImageFormat, t: RegisterTables) -> Seq<(u8, u8)> {
    match format {
        ImageFormat::Yuv422 => t.settings_yuv422@,
        ImageFormat::Rgb565 => t.settings_rgb565@,
        ImageFormat::Jpeg => t.settings_jpeg@,
    }
}

/// The JPEG tuning for a JPEG output, nothing for the others.
pub open spec fn format_tuning_ops(config: OutputConfig) -> Seq<RegOp> {
    if config.format == ImageFormat::Jpeg {
        jpeg_tuning_ops(config.jpeg)
    } else {
        seq![]
    }
}

/// The output program of a supported configuration runs its stages in
/// order, each chosen by one setting: the DSP bypass; the sensor timing and
/// the window of its resolution; the pixel-clock table of its pixel clock;
/// the format table of its format; and the JPEG tuning exactly when the
/// format is JPEG.
pub proof fn lemma_output_program_stages(config: OutputConfig, t: RegisterTables)
    requires
        supported_output(config),
    ensures
        output_ops(config, t) == table_ops(t.dsp_bypass_on@) + table_ops(
            timing_table(config.resolution, t),
        ) + table_ops(window_table(config.resolution, t)) + table_ops(clock_table(config, t))
            + table_ops(format_table(config.format, t)) + format_tuning_ops(config),
{
    let p = table_ops(t.dsp_bypass_on@) + table_ops(timing_table(config.resolution, t))
        + table_ops(window_table(config.resolution, t)) + table_ops(clock_table(config, t))
        + table_ops(format_table(config.format, t));
    if config.format != ImageFormat::Jpeg {
        assert(p + seq![] =~= p);
    }
}

/// Identification check, reset, common initialization, output
/// configuration, and a 100 ms wait.
pub open spec fn init_ops(config: OutputConfig, t: RegisterTables) -> Seq<RegOp> {
    verify_id_ops() + reset_ops() + table_ops(t.settings_cif@) + output_ops(config, t) + seq![
        RegOp::Delay { ms: 100 },
    ]
}

/// Manual exposure value: `value` clamped to 1200.
pub open spec fn exposure_clamped(value: u16) -> u16 {
    if value > 1200 {
        1200
    } else {
        value
    }
}

/// AEC[1:0] of the manual exposure.
pub open spec fn exposure_low(value: u16) -> u8 {
    (exposure_clamped(value) & 0x03) as u8
}

/// AEC[9:2] of the manual exposure.
pub open spec fn exposure_mid(value: u16) -> u8 {
    ((exposure_clamped(value) >> 2u16) & 0xff) as u8
}

/// AEC[15:10] of the manual exposure.
pub open spec fn exposure_high(value: u16) -> u8 {
    (exposure_clamped(value) >> 10u16) as u8
}

/// Manual exposure `value`, clamped to 1200, spread over AEC[1:0] in
/// `REG04`, AEC[9:2] in `AEC` and AEC[15:10] in `REG45`.
pub open spec fn exposure_ops(value: u16) -> Seq<RegOp> {
    bits_ops(BANK_SENSOR, REG04, 0, 0x03, exposure_low(value)) + in_bank_ops(
        BANK_SENSOR,
        AEC,
        exposure_mid(value),
    ) + bits_ops(BANK_SENSOR, REG45, 0, 0x3f, exposure_high(value))
}

/// The white-balance mode steps: the preset-enable bit, then the preset's
/// gains when a preset is chosen.
pub open spec fn white_balance_ops(mode: WhiteBalanceMode, t: RegisterTables) -> Seq<RegOp> {
    let enable: u8 = if white_balance_row(mode) is Some {
        1
    } else {
        0
    };
    bits_ops(BANK_DSP, AWB_MODE, 6, 1, enable) + match white_balance_row(mode) {
        Some(row) => row_ops(BANK_DSP, t.white_balance_mode@, row as int),
        None => seq![],
    }
}

/// The control tables hold the row that `control` writes.
pub open spec fn control_tables_cover(control: SensorControl, t: RegisterTables) -> bool {
    match control {
        SensorControl::Brightness(l) => control_level_row(l) < t.brightness@.len(),
        SensorControl::Contrast(l) => control_level_row(l) < t.contrast@.len(),
        SensorControl::Saturation(l) => control_level_row(l) < t.saturation@.len(),
        SensorControl::SpecialEffect(e) => special_effect_row(e) < t.special_effect@.len(),
        SensorControl::WhiteBalanceMode(m) => white_balance_row(m) matches Some(row) ==> row
            < t.white_balance_mode@.len(),
        SensorControl::ExposureLevel(l) => control_level_row(l) < t.ae_level@.len(),
        SensorControl::AgcGain(g) => (if g > 30 {
            30
        } else {
            g
        }) < t.agc_gain@.len(),
        _ => true,
    }
}

/// The register program of `control`.
pub open spec fn control_program(control: SensorControl, t: RegisterTables) -> Seq<RegOp> {
    match control {
        SensorControl::Brightness(l) => row_ops(BANK_DSP, t.brightness@, control_level_row(l) as int),
        SensorControl::Contrast(l) => row_ops(BANK_DSP, t.contrast@, control_level_row(l) as int),
        SensorControl::Saturation(l) => row_ops(BANK_DSP, t.saturation@, control_level_row(l) as int),
        SensorControl::SpecialEffect(e) => row_ops(
            BANK_DSP,
            t.special_effect@,
            special_effect_row(e) as int,
        ),
        SensorControl::WhiteBalanceMode(m) => white_balance_ops(m, t),
        SensorControl::AutoWhiteBalance(b) => bits_ops(BANK_DSP, CTRL1, 3, 1, b as u8),
        SensorControl::AwbGain(b) => bits_ops(BANK_DSP, CTRL1, 2, 1, b as u8),
        SensorControl::AutoExposure(b) => flag_ops(BANK_SENSOR, COM8, COM8_AEC_EN, b),
        SensorControl::Aec2(b) => bits_ops(BANK_DSP, CTRL0, 6, 1, (!b) as u8),
        SensorControl::ExposureLevel(l) => row_ops(
            BANK_SENSOR,
            t.ae_level@,
            control_level_row(l) as int,
        ),
        SensorControl::ExposureValue(v) => exposure_ops(v),
        SensorControl::AutoGain(b) => flag_ops(BANK_SENSOR, COM8, COM8_AGC_EN, b),
        SensorControl::AgcGain(g) => in_bank_ops(
            BANK_SENSOR,
            GAIN,
            t.agc_gain@[(if g > 30 {
                30
            } else {
                g
            }) as int],
        ),
        SensorControl::GainCeiling(c) => bits_ops(BANK_SENSOR, COM9, 5, 0x07, gain_ceiling_bits(c)),
        SensorControl::RawGamma(b) => bits_ops(BANK_DSP, CTRL1, 5, 1, b as u8),
        SensorControl::LensCorrection(b) => bits_ops(BANK_DSP, CTRL1, 1, 1, b as u8),
        SensorControl::DownsizeCropWindow(b) => bits_ops(BANK_DSP, CTRL2, 5, 1, b as u8),
        SensorControl::BadPixelCorrection(b) => bits_ops(BANK_DSP, CTRL3, 7, 1, b as u8),
        SensorControl::WhitePixelCorrection(b) => bits_ops(BANK_DSP, CTRL3, 6, 1, b as u8),
        SensorControl::HorizontalMirror(b) => flag_ops(BANK_SENSOR, REG04, REG04_HFLIP_IMG, b),
        SensorControl::VerticalFlip(b) => flag_ops(BANK_SENSOR, REG04, REG04_VREF_EN, b) + flag_ops(
            BANK_SENSOR,
            REG04,
            REG04_VFLIP_IMG,
            b,
        ),
        SensorControl::ColorBar(b) => flag_ops(BANK_SENSOR, COM7, COM7_COLOR_BAR, b),
        SensorControl::JpegQuality(q) => in_bank_ops(
            BANK_DSP,
            QS,
            if q > 63 {
                63
            } else {
                q
            },
        ),
    }
}

impl RegisterTables {
    /// Whether the control tables hold the row that `control` writes.
    pub fn covers(&self, control: SensorControl) -> (b: bool)
        ensures
            b == control_tables_cover(control, *self),
    {
        match control {
            SensorControl::Brightness(l) => l.table_row() < self.brightness.len(),
            SensorControl::Contrast(l) => l.table_row() < self.contrast.len(),
            SensorControl::Saturation(l) => l.table_row() < self.saturation.len(),
            SensorControl::SpecialEffect(e) => e.table_row() < self.special_effect.len(),
            SensorControl::WhiteBalanceMode(m) => match m.table_row() {
                Some(row) => row < self.white_balance_mode.len(),
                None => true,
            },
            SensorControl::ExposureLevel(l) => l.table_row() < self.ae_level.len(),
            SensorControl::AgcGain(g) => (g.min(30) as usize) < self.agc_gain.len(),
            _ => true,
        }
    }
}

/// `a + b`, building a program from two parts.
fn join(a: Vec<RegOp>, b: Vec<RegOp>) -> (r: Vec<RegOp>)
    requires
        ops_valid(a@),
        ops_valid(b@),
    ensures
        r@ == a@ + b@,
        ops_valid(r@),
{
    let ghost a0 = a@;
    let ghost b0 = b@;
    let mut a = a;
    let mut b = b;
    a.append(&mut b);
    assert forall|i: int| 0 <= i < a@.len() implies (#[trigger] a@[i] matches RegOp::Update {
        offset,
        ..
    } ==> offset < 8) by {
        if i < a0.len() {
            assert(a@[i] == a0[i]);
        } else {
            assert(a@[i] == b0[i - a0.len()]);
        }
    }
    a
}

/// The program of a single step.
fn single(op: RegOp) -> (r: Vec<RegOp>)
    requires
        op matches RegOp::Update { offset, .. } ==> offset < 8,
    ensures
        r@ == seq![op],
        ops_valid(r@),
{
    let r = vec![op];
    assert(r@ =~= seq![op]);
    r
}

impl<I2C> Ov2640<I2C> {
    /// `write_reg`: write `value` to `reg` of the selected bank; a write of
    /// `BANK_SEL` makes `value` the bank known selected.
    pub fn write_reg(&self, reg: u8, value: u8) -> (ops: Vec<RegOp>)
        ensures
            ops@ == seq![RegOp::Write { reg, value }],
            ops_valid(ops@),
    {
        single(RegOp::Write { reg, value })
    }

    /// `read_reg`: read `reg` of the selected bank.
    pub fn read_reg(&self, reg: u8) -> (ops: Vec<RegOp>)
        ensures
            ops@ == seq![RegOp::Read { reg }],
            ops_valid(ops@),
    {
        single(RegOp::Read { reg })
    }

    /// `select_bank`: select `bank` unless it is known to be selected.
    pub fn select_bank(&self, bank: u8) -> (ops: Vec<RegOp>)
        ensures
            ops@ == seq![RegOp::SelectBank { bank }],
            ops_valid(ops@),
    {
        single(RegOp::SelectBank { bank })
    }

    /// `write_reg_in_bank`: select `bank`, then write `value` to `reg`.
    pub fn write_reg_in_bank(&self, bank: u8, reg: u8, value: u8) -> (ops: Vec<RegOp>)
        ensures
            ops@ == in_bank_ops(bank, reg, value),
            ops_valid(ops@),
    {
        let r = vec![RegOp::SelectBank { bank }, RegOp::Write { reg, value }];
        assert(r@ =~= in_bank_ops(bank, reg, value));
        r
    }

    /// `read_reg_in_bank`: select `bank`, then read `reg`.
    pub fn read_reg_in_bank(&self, bank: u8, reg: u8) -> (ops: Vec<RegOp>)
        ensures
            ops@ == seq![RegOp::SelectBank { bank }, RegOp::Read { reg }],
            ops_valid(ops@),
    {
        let r = vec![RegOp::SelectBank { bank }, RegOp::Read { reg }];
        assert(r@ =~= seq![RegOp::SelectBank { bank }, RegOp::Read { reg }]);
        r
    }

    /// `set_reg_bits`: select `bank`, read `reg`, and write it back with
    /// the bits `mask << offset` replaced by `(value & mask) << offset`.
    pub fn set_reg_bits(&self, bank: u8, reg: u8, offset: u8, mask: u8, value: u8) -> (ops: Vec<
        RegOp,
    >)
        requires
            offset < 8,
        ensures
            ops@ == bits_ops(bank, reg, offset, mask, value),
            ops_valid(ops@),
    {
        let r = vec![RegOp::SelectBank { bank }, RegOp::Update { reg, offset, mask, value }];
        assert(r@ =~= bits_ops(bank, reg, offset, mask, value));
        r
    }

    /// `write_reg_flag`: set (`enable`) or clear the bits `mask` of `reg`
    /// in `bank`.
    pub fn write_reg_flag(&self, bank: u8, reg: u8, mask: u8, enable: bool) -> (ops: Vec<RegOp>)
        ensures
            ops@ == flag_ops(bank, reg, mask, enable),
            ops_valid(ops@),
    {
        self.set_reg_bits(
            bank,
            reg,
            0,
            mask,
            if enable {
                mask
            } else {
                0
            },
        )
    }

    /// `write_regs`: one step per table entry up to the end marker; an
    /// entry for `BANK_SEL` selects its bank only when it is not known
    /// selected. The run's count of writes is the number of writes made.
    pub fn write_regs(&self, regs: &[(u8, u8)]) -> (ops: Vec<RegOp>)
        ensures
            ops@ == table_ops(regs@),
            ops_valid(ops@),
    {
        let mut ops: Vec<RegOp> = Vec::new();
        let mut i: usize = 0;
        assert(regs@.skip(0) =~= regs@);
        while i < regs.len()
            invariant
                i <= regs@.len(),
                ops_valid(ops@),
                ops@ + table_ops(regs@.skip(i as int)) == table_ops(regs@),
            decreases regs@.len() - i,
        {
            let ghost rest = regs@.skip(i as int);
            assert(rest[0] == regs@[i as int]);
            assert(rest.drop_first() =~= regs@.skip(i + 1));
            let (reg, value) = regs[i];
            if reg == END_REG && value == END_VALUE {
                assert(table_ops(rest) =~= seq![]);
                assert(ops@ + seq![] =~= ops@);
                return ops;
            }
            let op = if reg == BANK_SEL {
                RegOp::SelectBank { bank: value }
            } else {
                RegOp::Write { reg, value }
            };
            let ghost before = ops@;
            ops.push(op);
            assert(ops@ == before + seq![op]);
            assert(before + table_ops(rest) =~= ops@ + table_ops(regs@.skip(i + 1)));
            assert forall|k: int| 0 <= k < ops@.len() implies (#[trigger] ops@[k] matches RegOp::Update {
                offset,
                ..
            } ==> offset < 8) by {
                if k < before.len() {
                    assert(ops@[k] == before[k]);
                }
            }
            i = i + 1;
        }
        assert(regs@.skip(i as int) =~= Seq::<(u8, u8)>::empty());
        assert(ops@ + seq![] =~= ops@);
        ops
    }

    /// `write_control_regs`: for each register address in row 0 of `table`
    /// paired with a value of row `row`, select `bank` and write the value.
    fn write_control_regs(&self, bank: u8, table: &Vec<Vec<u8>>, row: usize) -> (ops: Vec<RegOp>)
        requires
            1 <= row < table@.len(),
        ensures
            ops@ == row_ops(bank, table@, row as int),
            ops_valid(ops@),
    {
        let regs = &table[0];
        let values = &table[row];
        let n = if regs.len() < values.len() {
            regs.len()
        } else {
            values.len()
        };
        let mut ops: Vec<RegOp> = Vec::new();
        let mut i: usize = 0;
        assert(regs@.skip(0) =~= regs@);
        assert(values@.skip(0) =~= values@);
        while i < n
            invariant
                i <= n,
                n == if regs@.len() < values@.len() {
                    regs@.len()
                } else {
                    values@.len()
                },
                regs@ == table@[0]@,
                values@ == table@[row as int]@,
                ops_valid(ops@),
                ops@ + control_ops(bank, regs@.skip(i as int), values@.skip(i as int)) == control_ops(
                    bank,
                    regs@,
                    values@,
                ),
            decreases n - i,
        {
            let ghost rr = regs@.skip(i as int);
            let ghost vr = values@.skip(i as int);
            assert(rr[0] == regs@[i as int]);
            assert(vr[0] == values@[i as int]);
            assert(rr.drop_first() =~= regs@.skip(i + 1));
            assert(vr.drop_first() =~= values@.skip(i + 1));
            let ghost before = ops@;
            ops.push(RegOp::SelectBank { bank });
            ops.push(RegOp::Write { reg: regs[i], value: values[i] });
            assert(ops@ =~= before + in_bank_ops(bank, regs@[i as int], values@[i as int]));
            assert(before + control_ops(bank, rr, vr) =~= ops@ + control_ops(
                bank,
                regs@.skip(i + 1),
                values@.skip(i + 1),
            ));
            assert forall|k: int| 0 <= k < ops@.len() implies (#[trigger] ops@[k] matches RegOp::Update {
                offset,
                ..
            } ==> offset < 8) by {
                if k < before.len() {
                    assert(ops@[k] == before[k]);
                }
            }
            i = i + 1;
        }
        assert(control_ops(bank, regs@.skip(i as int), values@.skip(i as int)) =~= seq![]);
        assert(ops@ + seq![] =~= ops@);
        ops
    }

    /// `detect`: select the sensor bank and read the product id and
    /// version; the run's first two reads are the detected sensor.
    pub fn detect(&self) -> (ops: Vec<RegOp>)
        ensures
            ops@ == detect_ops(),
            ops_valid(ops@),
    {
        let r = vec![
            RegOp::SelectBank { bank: BANK_SENSOR },
            RegOp::Read { reg: REG_PID },
            RegOp::Read { reg: REG_VER },
        ];
        assert(r@ =~= detect_ops());
        r
    }

    /// `verify_id`: detect, then stop unless the sensor is an OV2640.
    pub fn verify_id(&self) -> (ops: Vec<RegOp>)
        ensures
            ops@ == verify_id_ops(),
            ops_valid(ops@),
    {
        let mut r = self.detect();
        r.push(RegOp::CheckId);
        r
    }

    /// `reset`: software reset through `COM7`, then a 10 ms wait; the
    /// selected bank is unknown afterwards.
    pub fn reset(&self) -> (ops: Vec<RegOp>)
        ensures
            ops@ == reset_ops(),
            ops_valid(ops@),
    {
        let mut r = self.write_reg_in_bank(BANK_SENSOR, COM7, COM7_SRST);
        r.push(RegOp::Delay { ms: 10 });
        r.push(RegOp::ForgetBank);
        assert(r@ =~= reset_ops());
        r
    }

    /// `configure_output`: the register sequence of one of the supported
    /// output configurations.
    pub fn configure_output(&self, config: OutputConfig, tables: &RegisterTables) -> (ops: Vec<
        RegOp,
    >)
        requires
            supported_output(config),
        ensures
            ops@ == output_ops(config, *tables),
            ops@ == table_ops(tables.dsp_bypass_on@) + table_ops(
                timing_table(config.resolution, *tables),
            ) + table_ops(window_table(config.resolution, *tables)) + table_ops(
                clock_table(config, *tables),
            ) + table_ops(format_table(config.format, *tables)) + format_tuning_ops(config),
            ops_valid(ops@),
    {
        proof {
            lemma_output_program_stages(config, *tables);
        }
        let front = self.write_regs(tables.dsp_bypass_on.as_slice());
        match (config.resolution, config.format) {
            (Resolution::Qvga320x240, ImageFormat::Yuv422) => {
                let r = join(front, self.write_regs(tables.settings_to_cif.as_slice()));
                let r = join(r, self.write_regs(tables.qvga_window.as_slice()));
                let r = join(r, self.write_regs(tables.qvga_yuv422_clocks.as_slice()));
                join(r, self.write_regs(tables.settings_yuv422.as_slice()))
            },
            (Resolution::Qvga320x240, ImageFormat::Rgb565) => {
                let r = join(front, self.write_regs(tables.settings_to_cif.as_slice()));
                let r = join(r, self.write_regs(tables.qvga_window.as_slice()));
                let r = join(r, self.write_regs(tables.qvga_yuv422_clocks.as_slice()));
                join(r, self.write_regs(tables.settings_rgb565.as_slice()))
            },
            (Resolution::Qvga320x240, ImageFormat::Jpeg) => {
                let r = join(front, self.write_regs(tables.settings_to_cif.as_slice()));
                let r = join(r, self.write_regs(tables.qvga_window.as_slice()));
                let r = join(r, self.write_regs(tables.qvga_jpeg_clocks.as_slice()));
                let r = join(r, self.write_regs(tables.settings_jpeg.as_slice()));
                join(r, self.jpeg_tuning(config.jpeg))
            },
            (Resolution::Vga640x480, _) => {
                let r = join(front, self.write_regs(tables.settings_to_svga.as_slice()));
                let r = join(r, self.write_regs(tables.vga_window.as_slice()));
                let r = join(r, self.write_regs(tables.vga_jpeg_clocks.as_slice()));
                let r = join(r, self.write_regs(tables.settings_jpeg.as_slice()));
                join(r, self.jpeg_tuning(config.jpeg))
            },
        }
    }

    fn jpeg_tuning(&self, jpeg: JpegConfig) -> (ops: Vec<RegOp>)
        ensures
            ops@ == jpeg_tuning_ops(jpeg),
            ops_valid(ops@),
    {
        let r = vec![
            RegOp::SelectBank { bank: BANK_DSP },
            RegOp::Write { reg: R_DVP_SP, value: jpeg.r_dvp_sp },
            RegOp::Write { reg: QS, value: jpeg.qs },
        ];
        assert(r@ =~= jpeg_tuning_ops(jpeg));
        r
    }

    /// `init`: check the identification, reset, write the common
    /// initialization table, configure the output, and wait 100 ms. The
    /// run's first two reads are the detected sensor.
    pub fn init(&self, config: OutputConfig, tables: &RegisterTables) -> (ops: Vec<RegOp>)
        requires
            supported_output(config),
        ensures
            ops@ == init_ops(config, *tables),
            ops_valid(ops@),
    {
        let r = join(self.verify_id(), self.reset());
        let r = join(r, self.write_regs(tables.settings_cif.as_slice()));
        let r = join(r, self.configure_output(config, tables));
        join(r, single(RegOp::Delay { ms: 100 }))
    }

    pub fn init_qvga_yuv422(&self, tables: &RegisterTables) -> (ops: Vec<RegOp>)
        ensures
            ops@ == init_ops(
                OutputConfig {
                    resolution: Resolution::Qvga320x240,
                    format: ImageFormat::Yuv422,
                    pixel_clock: PixelClock::QvgaParallel,
                    jpeg: JpegConfig { qs: 0x0c, r_dvp_sp: 0x08 },
                },
                *tables,
            ),
            ops_valid(ops@),
    {
        self.init(OutputConfig::qvga_yuv422(), tables)
    }

    pub fn init_qvga_rgb565(&self, tables: &RegisterTables) -> (ops: Vec<RegOp>)
        ensures
            ops@ == init_ops(
                OutputConfig {
                    resolution: Resolution::Qvga320x240,
                    format: ImageFormat::Rgb565,
                    pixel_clock: PixelClock::QvgaParallel,
                    jpeg: JpegConfig { qs: 0x0c, r_dvp_sp: 0x08 },
                },
                *tables,
            ),
            ops_valid(ops@),
    {
        self.init(OutputConfig::qvga_rgb565(), tables)
    }

    pub fn init_qvga_jpeg(&self, jpeg: JpegConfig, tables: &RegisterTables) -> (ops: Vec<RegOp>)
        ensures
            ops@ == init_ops(
                OutputConfig {
                    resolution: Resolution::Qvga320x240,
                    format: ImageFormat::Jpeg,
                    pixel_clock: PixelClock::QvgaJpeg,
                    jpeg,
                },
                *tables,
            ),
            ops_valid(ops@),
    {
        self.init(OutputConfig::qvga_jpeg(jpeg), tables)
    }

    pub fn init_vga_jpeg(&self, jpeg: JpegConfig, tables: &RegisterTables) -> (ops: Vec<RegOp>)
        ensures
            ops@ == init_ops(
                OutputConfig {
                    resolution: Resolution::Vga640x480,
                    format: ImageFormat::Jpeg,
                    pixel_clock: PixelClock::QvgaJpeg,
                    jpeg,
                },
                *tables,
            ),
            ops_valid(ops@),
    {
        self.init(OutputConfig::vga_jpeg(jpeg), tables)
    }

    /// Brightness, DSP bank, from the five-level brightness table.
    pub fn set_brightness(&self, level: ControlLevel, tables: &RegisterTables) -> (ops: Vec<RegOp>)
        requires
            control_level_row(level) < tables.brightness@.len(),
        ensures
            ops@ == row_ops(BANK_DSP, tables.brightness@, control_level_row(level) as int),
            ops_valid(ops@),
    {
        self.write_control_regs(BANK_DSP, &tables.brightness, level.table_row())
    }

    /// Contrast, DSP bank, from the five-level contrast table.
    pub fn set_contrast(&self, level: ControlLevel, tables: &RegisterTables) -> (ops: Vec<RegOp>)
        requires
            control_level_row(level) < tables.contrast@.len(),
        ensures
            ops@ == row_ops(BANK_DSP, tables.contrast@, control_level_row(level) as int),
            ops_valid(ops@),
    {
        self.write_control_regs(BANK_DSP, &tables.contrast, level.table_row())
    }

    /// Colour saturation, DSP bank, from the five-level saturation table.
    pub fn set_saturation(&self, level: ControlLevel, tables: &RegisterTables) -> (ops: Vec<RegOp>)
        requires
            control_level_row(level) < tables.saturation@.len(),
        ensures
            ops@ == row_ops(BANK_DSP, tables.saturation@, control_level_row(level) as int),
            ops_valid(ops@),
    {
        self.write_control_regs(BANK_DSP, &tables.saturation, level.table_row())
    }

    /// One of the special colour effects, DSP bank.
    pub fn set_special_effect(&self, effect: SpecialEffect, tables: &RegisterTables) -> (ops: Vec<
        RegOp,
    >)
        requires
            special_effect_row(effect) < tables.special_effect@.len(),
        ensures
            ops@ == row_ops(BANK_DSP, tables.special_effect@, special_effect_row(effect) as int),
            ops_valid(ops@),
    {
        self.write_control_regs(BANK_DSP, &tables.special_effect, effect.table_row())
    }

    /// Automatic white balance, or a preset: bit 6 of `AWB_MODE` enables the
    /// preset, whose gains follow.
    pub fn set_white_balance_mode(&self, mode: WhiteBalanceMode, tables: &RegisterTables) -> (ops:
        Vec<RegOp>)
        requires
            white_balance_row(mode) matches Some(row) ==> row < tables.white_balance_mode@.len(),
        ensures
            ops@ == white_balance_ops(mode, *tables),
            ops_valid(ops@),
    {
        let row = mode.table_row();
        let enable: u8 = if row.is_some() {
            1
        } else {
            0
        };
        let r = self.set_reg_bits(BANK_DSP, AWB_MODE, 6, 1, enable);
        match row {
            Some(row) => join(r, self.write_control_regs(BANK_DSP, &tables.white_balance_mode, row)),
            None => {
                assert(r@ + seq![] =~= r@);
                r
            },
        }
    }

    /// DSP automatic white balance block: `CTRL1` bit 3.
    pub fn set_auto_white_balance(&self, enable: bool) -> (ops: Vec<RegOp>)
        ensures
            ops@ == bits_ops(BANK_DSP, CTRL1, 3, 1, enable as u8),
            ops_valid(ops@),
    {
        self.set_reg_bits(BANK_DSP, CTRL1, 3, 1, enable as u8)
    }

    /// Automatic white balance gain: `CTRL1` bit 2.
    pub fn set_awb_gain(&self, enable: bool) -> (ops: Vec<RegOp>)
        ensures
            ops@ == bits_ops(BANK_DSP, CTRL1, 2, 1, enable as u8),
            ops_valid(ops@),
    {
        self.set_reg_bits(BANK_DSP, CTRL1, 2, 1, enable as u8)
    }

    /// DSP raw gamma block: `CTRL1` bit 5.
    pub fn set_raw_gamma(&self, enable: bool) -> (ops: Vec<RegOp>)
        ensures
            ops@ == bits_ops(BANK_DSP, CTRL1, 5, 1, enable as u8),
            ops_valid(ops@),
    {
        self.set_reg_bits(BANK_DSP, CTRL1, 5, 1, enable as u8)
    }

    /// DSP lens correction: `CTRL1` bit 1.
    pub fn set_lens_correction(&self, enable: bool) -> (ops: Vec<RegOp>)
        ensures
            ops@ == bits_ops(BANK_DSP, CTRL1, 1, 1, enable as u8),
            ops_valid(ops@),
    {
        self.set_reg_bits(BANK_DSP, CTRL1, 1, 1, enable as u8)
    }

    /// DSP downsize/crop/window block: `CTRL2` bit 5.
    pub fn set_downsize_crop_window(&self, enable: bool) -> (ops: Vec<RegOp>)
        ensures
            ops@ == bits_ops(BANK_DSP, CTRL2, 5, 1, enable as u8),
            ops_valid(ops@),
    {
        self.set_reg_bits(BANK_DSP, CTRL2, 5, 1, enable as u8)
    }

    /// DSP bad-pixel correction: `CTRL3` bit 7.
    pub fn set_bad_pixel_correction(&self, enable: bool) -> (ops: Vec<RegOp>)
        ensures
            ops@ == bits_ops(BANK_DSP, CTRL3, 7, 1, enable as u8),
            ops_valid(ops@),
    {
        self.set_reg_bits(BANK_DSP, CTRL3, 7, 1, enable as u8)
    }

    /// DSP white-pixel correction: `CTRL3` bit 6.
    pub fn set_white_pixel_correction(&self, enable: bool) -> (ops: Vec<RegOp>)
        ensures
            ops@ == bits_ops(BANK_DSP, CTRL3, 6, 1, enable as u8),
            ops_valid(ops@),
    {
        self.set_reg_bits(BANK_DSP, CTRL3, 6, 1, enable as u8)
    }

    /// Automatic gain control: `COM8_AGC_EN` of `COM8`.
    pub fn set_auto_gain(&self, enable: bool) -> (ops: Vec<RegOp>)
        ensures
            ops@ == flag_ops(BANK_SENSOR, COM8, COM8_AGC_EN, enable),
            ops_valid(ops@),
    {
        self.write_reg_flag(BANK_SENSOR, COM8, COM8_AGC_EN, enable)
    }

    /// Automatic exposure control: `COM8_AEC_EN` of `COM8`.
    pub fn set_auto_exposure(&self, enable: bool) -> (ops: Vec<RegOp>)
        ensures
            ops@ == flag_ops(BANK_SENSOR, COM8, COM8_AEC_EN, enable),
            ops_valid(ops@),
    {
        self.write_reg_flag(BANK_SENSOR, COM8, COM8_AEC_EN, enable)
    }

    /// DSP AEC2 path: `CTRL0` bit 6, written inverted as Espressif's driver
    /// does.
    pub fn set_aec2(&self, enable: bool) -> (ops: Vec<RegOp>)
        ensures
            ops@ == bits_ops(BANK_DSP, CTRL0, 6, 1, (!enable) as u8),
            ops_valid(ops@),
    {
        self.set_reg_bits(BANK_DSP, CTRL0, 6, 1, (!enable) as u8)
    }

    /// Automatic exposure bias, sensor bank, from the five-level table.
    pub fn set_exposure_level(&self, level: ControlLevel, tables: &RegisterTables) -> (ops: Vec<
        RegOp,
    >)
        requires
            control_level_row(level) < tables.ae_level@.len(),
        ensures
            ops@ == row_ops(BANK_SENSOR, tables.ae_level@, control_level_row(level) as int),
            ops_valid(ops@),
    {
        self.write_control_regs(BANK_SENSOR, &tables.ae_level, level.table_row())
    }

    /// Manual exposure value, clamped to 1200 as Espressif's driver does.
    pub fn set_exposure_value(&self, value: u16) -> (ops: Vec<RegOp>)
        ensures
            ops@ == exposure_ops(value),
            ops_valid(ops@),
    {
        let value = value.min(1200);
        let r = self.set_reg_bits(BANK_SENSOR, REG04, 0, 0x03, (value & 0x03) as u8);
        let r = join(r, self.write_reg_in_bank(BANK_SENSOR, AEC, ((value >> 2) & 0xff) as u8));
        join(r, self.set_reg_bits(BANK_SENSOR, REG45, 0, 0x3f, (value >> 10) as u8))
    }

    /// Manual AGC gain: the gain table's value for index `gain`, clamped to
    /// 30 as Espressif's driver does.
    pub fn set_agc_gain(&self, gain: u8, tables: &RegisterTables) -> (ops: Vec<RegOp>)
        requires
            (if gain > 30 {
                30
            } else {
                gain
            }) < tables.agc_gain@.len(),
        ensures
            ops@ == in_bank_ops(
                BANK_SENSOR,
                GAIN,
                tables.agc_gain@[(if gain > 30 {
                    30
                } else {
                    gain
                }) as int],
            ),
            ops_valid(ops@),
    {
        let gain = gain.min(30) as usize;
        self.write_reg_in_bank(BANK_SENSOR, GAIN, tables.agc_gain[gain])
    }

    /// Automatic gain ceiling: bits [7:5] of `COM9`.
    pub fn set_gain_ceiling(&self, ceiling: GainCeiling) -> (ops: Vec<RegOp>)
        ensures
            ops@ == bits_ops(BANK_SENSOR, COM9, 5, 0x07, gain_ceiling_bits(ceiling)),
            ops_valid(ops@),
    {
        self.set_reg_bits(BANK_SENSOR, COM9, 5, 0x07, ceiling.bits())
    }

    /// Colour-bar test pattern: `COM7_COLOR_BAR` of `COM7`.
    pub fn set_color_bar(&self, enable: bool) -> (ops: Vec<RegOp>)
        ensures
            ops@ == flag_ops(BANK_SENSOR, COM7, COM7_COLOR_BAR, enable),
            ops_valid(ops@),
    {
        self.write_reg_flag(BANK_SENSOR, COM7, COM7_COLOR_BAR, enable)
    }

    /// Horizontal mirror: `REG04_HFLIP_IMG` of `REG04`.
    pub fn set_horizontal_mirror(&self, enable: bool) -> (ops: Vec<RegOp>)
        ensures
            ops@ == flag_ops(BANK_SENSOR, REG04, REG04_HFLIP_IMG, enable),
            ops_valid(ops@),
    {
        self.write_reg_flag(BANK_SENSOR, REG04, REG04_HFLIP_IMG, enable)
    }

    /// Vertical flip: `REG04_VREF_EN`, then `REG04_VFLIP_IMG`, of `REG04`.
    pub fn set_vertical_flip(&self, enable: bool) -> (ops: Vec<RegOp>)
        ensures
            ops@ == flag_ops(BANK_SENSOR, REG04, REG04_VREF_EN, enable) + flag_ops(
                BANK_SENSOR,
                REG04,
                REG04_VFLIP_IMG,
                enable,
            ),
            ops_valid(ops@),
    {
        let r = self.write_reg_flag(BANK_SENSOR, REG04, REG04_VREF_EN, enable);
        join(r, self.write_reg_flag(BANK_SENSOR, REG04, REG04_VFLIP_IMG, enable))
    }

    /// JPEG quantization scale, clamped to the OV2640 range 0 to 63.
    pub fn set_jpeg_quality(&self, qs: u8) -> (ops: Vec<RegOp>)
        ensures
            ops@ == in_bank_ops(
                BANK_DSP,
                QS,
                if qs > 63 {
                    63
                } else {
                    qs
                },
            ),
            ops_valid(ops@),
    {
        self.write_reg_in_bank(BANK_DSP, QS, qs.min(63))
    }

    /// The register program of a typed control.
    pub fn set_control(&self, control: SensorControl, tables: &RegisterTables) -> (ops: Vec<RegOp>)
        requires
            control_tables_cover(control, *tables),
        ensures
            ops@ == control_program(control, *tables),
            ops_valid(ops@),
    {
        match control {
            SensorControl::Brightness(level) => self.set_brightness(level, tables),
            SensorControl::Contrast(level) => self.set_contrast(level, tables),
            SensorControl::Saturation(level) => self.set_saturation(level, tables),
            SensorControl::SpecialEffect(effect) => self.set_special_effect(effect, tables),
            SensorControl::WhiteBalanceMode(mode) => self.set_white_balance_mode(mode, tables),
            SensorControl::AutoWhiteBalance(enable) => self.set_auto_white_balance(enable),
            SensorControl::AwbGain(enable) => self.set_awb_gain(enable),
            SensorControl::AutoExposure(enable) => self.set_auto_exposure(enable),
            SensorControl::Aec2(enable) => self.set_aec2(enable),
            SensorControl::ExposureLevel(level) => self.set_exposure_level(level, tables),
            SensorControl::ExposureValue(value) => self.set_exposure_value(value),
            SensorControl::AutoGain(enable) => self.set_auto_gain(enable),
            SensorControl::AgcGain(gain) => self.set_agc_gain(gain, tables),
            SensorControl::GainCeiling(ceiling) => self.set_gain_ceiling(ceiling),
            SensorControl::RawGamma(enable) => self.set_raw_gamma(enable),
            SensorControl::LensCorrection(enable) => self.set_lens_correction(enable),
            SensorControl::DownsizeCropWindow(enable) => self.set_downsize_crop_window(enable),
            SensorControl::BadPixelCorrection(enable) => self.set_bad_pixel_correction(enable),
            SensorControl::WhitePixelCorrection(enable) => self.set_white_pixel_correction(enable),
            SensorControl::HorizontalMirror(enable) => self.set_horizontal_mirror(enable),
            SensorControl::VerticalFlip(enable) => self.set_vertical_flip(enable),
            SensorControl::ColorBar(enable) => self.set_color_bar(enable),
            SensorControl::JpegQuality(qs) => self.set_jpeg_quality(qs),
        }
    }
}

} // verus!

verus! {

/// A read-modify-write changes only the bits of its field: the bits outside
/// `mask << offset` keep their value, and the field holds `(value & mask)
/// << offset`.
pub proof fn lemma_field_update_only_changes_field(current: u8, offset: u8, mask: u8, value: u8)
    requires
        offset < 8,
    ensures
        field_update(current, offset, mask, value) & !(mask << offset) == current & !(mask
            << offset),
        field_update(current, offset, mask, value) & (mask << offset) == (value & mask) << offset,
{
    assert(((current & !(mask << offset)) | ((value & mask) << offset)) & !(mask << offset)
        == current & !(mask << offset)) by (bit_vector)
        requires
            offset < 8,
    ;
    assert(((current & !(mask << offset)) | ((value & mask) << offset)) & (mask << offset) == (
    value & mask) << offset) by (bit_vector)
        requires
            offset < 8,
    ;
}

/// Writing a flag sets the bits of `mask` when enabled and clears them
/// otherwise, keeping every other bit.
pub proof fn lemma_flag_sets_or_clears(current: u8, mask: u8, enable: bool)
    ensures
        field_update(
            current,
            0,
            mask,
            if enable {
                mask
            } else {
                0
            },
        ) == if enable {
            current | mask
        } else {
            current & !mask
        },
{
    assert((current & !(mask << 0u8)) | ((mask & mask) << 0u8) == current | mask) by (bit_vector);
    assert((current & !(mask << 0u8)) | ((0u8 & mask) << 0u8) == current & !mask) by (bit_vector);
}

/// The manual exposure is `value` clamped to 1200, split over AEC[1:0]
/// (`REG04` bits 1..0), AEC[9:2] (`AEC`) and AEC[15:10] (`REG45` bits
/// 5..0): the three fields put back together give the clamped value.
pub proof fn lemma_exposure_fields_reassemble(value: u16)
    ensures
        ((((exposure_high(value) & 0x3f) as u16) << 10u16) | ((exposure_mid(value) as u16) << 2u16)
            | ((exposure_low(value) & 0x03) as u16)) == exposure_clamped(value),
        exposure_clamped(value) <= 1200,
{
    let v = exposure_clamped(value);
    let lo = exposure_low(value);
    let mid = exposure_mid(value);
    let hi = exposure_high(value);
    assert(((((hi & 0x3f) as u16) << 10u16) | ((mid as u16) << 2u16) | ((lo & 0x03) as u16)) == v)
        by (bit_vector)
        requires
            lo == (v & 0x03) as u8,
            mid == ((v >> 2u16) & 0xff) as u8,
            hi == (v >> 10u16) as u8,
    ;
}

/// A typed control does what its setter does: for each variant, the
/// program of `set_control` is the program that the matching `set_*`
/// method states (for the table-driven controls, given tables that hold the
/// control's row).
pub proof fn lemma_set_control_matches_setters(
    t: RegisterTables,
    l: ControlLevel,
    e: SpecialEffect,
    m: WhiteBalanceMode,
    b: bool,
    v: u16,
    g: u8,
    c: GainCeiling,
)
    ensures
        control_program(SensorControl::Brightness(l), t) == row_ops(
            BANK_DSP,
            t.brightness@,
            control_level_row(l) as int,
        ),
        control_program(SensorControl::Contrast(l), t) == row_ops(
            BANK_DSP,
            t.contrast@,
            control_level_row(l) as int,
        ),
        control_program(SensorControl::Saturation(l), t) == row_ops(
            BANK_DSP,
            t.saturation@,
            control_level_row(l) as int,
        ),
        control_program(SensorControl::SpecialEffect(e), t) == row_ops(
            BANK_DSP,
            t.special_effect@,
            special_effect_row(e) as int,
        ),
        control_program(SensorControl::WhiteBalanceMode(m), t) == white_balance_ops(m, t),
        control_program(SensorControl::AutoWhiteBalance(b), t) == bits_ops(BANK_DSP, CTRL1, 3, 1, b as u8),
        control_program(SensorControl::AwbGain(b), t) == bits_ops(BANK_DSP, CTRL1, 2, 1, b as u8),
        control_program(SensorControl::AutoExposure(b), t) == flag_ops(
            BANK_SENSOR,
            COM8,
            COM8_AEC_EN,
            b,
        ),
        control_program(SensorControl::Aec2(b), t) == bits_ops(BANK_DSP, CTRL0, 6, 1, (!b) as u8),
        control_program(SensorControl::ExposureLevel(l), t) == row_ops(
            BANK_SENSOR,
            t.ae_level@,
            control_level_row(l) as int,
        ),
        control_program(SensorControl::ExposureValue(v), t) == exposure_ops(v),
        control_program(SensorControl::AutoGain(b), t) == flag_ops(BANK_SENSOR, COM8, COM8_AGC_EN, b),
        control_program(SensorControl::AgcGain(g), t) == in_bank_ops(
            BANK_SENSOR,
            GAIN,
            t.agc_gain@[(if g > 30 {
                30
            } else {
                g
            }) as int],
        ),
        control_program(SensorControl::GainCeiling(c), t) == bits_ops(
            BANK_SENSOR,
            COM9,
            5,
            0x07,
            gain_ceiling_bits(c),
        ),
        control_program(SensorControl::RawGamma(b), t) == bits_ops(BANK_DSP, CTRL1, 5, 1, b as u8),
        control_program(SensorControl::LensCorrection(b), t) == bits_ops(BANK_DSP, CTRL1, 1, 1, b as u8),
        control_program(SensorControl::DownsizeCropWindow(b), t) == bits_ops(
            BANK_DSP,
            CTRL2,
            5,
            1,
            b as u8,
        ),
        control_program(SensorControl::BadPixelCorrection(b), t) == bits_ops(
            BANK_DSP,
            CTRL3,
            7,
            1,
            b as u8,
        ),
        control_program(SensorControl::WhitePixelCorrection(b), t) == bits_ops(
            BANK_DSP,
            CTRL3,
            6,
            1,
            b as u8,
        ),
        control_program(SensorControl::HorizontalMirror(b), t) == flag_ops(
            BANK_SENSOR,
            REG04,
            REG04_HFLIP_IMG,
            b,
        ),
        control_program(SensorControl::VerticalFlip(b), t) == flag_ops(
            BANK_SENSOR,
            REG04,
            REG04_VREF_EN,
            b,
        ) + flag_ops(BANK_SENSOR, REG04, REG04_VFLIP_IMG, b),
        control_program(SensorControl::ColorBar(b), t) == flag_ops(BANK_SENSOR, COM7, COM7_COLOR_BAR, b),
        control_program(SensorControl::JpegQuality(g), t) == in_bank_ops(
            BANK_DSP,
            QS,
            if g > 63 {
                63
            } else {
                g
            },
        ),
{
}

} // verus!
