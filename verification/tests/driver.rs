use esp32_cam_ov2640::registers::{
    AEC, BANK_DSP, BANK_SEL, BANK_SENSOR, COM7, COM7_COLOR_BAR, COM7_SRST, COM8, COM8_AEC_EN,
    COM8_AGC_EN, COM9, CTRL0, CTRL1, GAIN, QS, REG04, REG04_HFLIP_IMG, REG04_VFLIP_IMG,
    REG04_VREF_EN, REG45, REG_PID, REG_VER, R_DVP_SP,
};
use esp32_cam_ov2640::{
    BusAction, ControlLevel, DetectedSensor, GainCeiling, ImageFormat, JpegConfig, OutputConfig,
    Ov2640, PixelClock, RegOp, RegisterRun, RegisterTables, Resolution, SensorControl,
    SpecialEffect, WhiteBalanceMode,
};

/// A register file standing in for the sensor on the bus.
struct FakeSensor {
    regs: [[u8; 256]; 2],
    bank: usize,
    actions: Vec<BusAction>,
}

impl FakeSensor {
    fn new() -> Self {
        let mut regs = [[0u8; 256]; 2];
        regs[1][REG_PID as usize] = 0x26;
        regs[1][REG_VER as usize] = 0x42;
        FakeSensor { regs, bank: 0, actions: Vec::new() }
    }
}

/// Drives `ops` to the end against `bus`; returns the run and the final action.
fn run<I>(sensor: &mut Ov2640<I>, bus: &mut FakeSensor, ops: Vec<RegOp>) -> (RegisterRun, BusAction) {
    let mut run = RegisterRun::new(ops);
    let mut reply = 0u8;
    loop {
        let action = sensor.advance(&mut run, reply);
        bus.actions.push(action);
        match action {
            BusAction::Write { reg, value, .. } => {
                if reg == BANK_SEL {
                    bus.bank = value as usize;
                } else {
                    bus.regs[bus.bank][reg as usize] = value;
                }
                reply = 0;
            }
            BusAction::Read { reg, .. } => {
                reply = bus.regs[bus.bank][reg as usize];
            }
            BusAction::Delay { .. } => reply = 0,
            BusAction::Done | BusAction::WrongId { .. } => return (run, action),
        }
    }
}

fn tables() -> RegisterTables {
    let levels = |base: u8| -> Vec<Vec<u8>> {
        let mut t = vec![vec![0x7c, 0x7d, 0x7d]];
        for row in 1..=5u8 {
            t.push(vec![base, row, row * 2]);
        }
        t
    };
    RegisterTables {
        settings_cif: vec![(BANK_SEL, BANK_SENSOR), (0x3c, 0x32), (BANK_SEL, BANK_DSP), (0x2c, 0xff), (0x00, 0x00), (0x2e, 0x01)],
        dsp_bypass_on: vec![(BANK_SEL, BANK_DSP), (0x05, 0x01)],
        settings_to_cif: vec![(BANK_SEL, BANK_SENSOR), (0x12, 0x20)],
        settings_to_svga: vec![(BANK_SEL, BANK_SENSOR), (0x12, 0x00)],
        qvga_window: vec![(BANK_SEL, BANK_DSP), (0x5a, 0x50)],
        vga_window: vec![(BANK_SEL, BANK_DSP), (0x5a, 0xa0)],
        qvga_yuv422_clocks: vec![(BANK_SEL, BANK_DSP), (0xd3, 0x04)],
        qvga_jpeg_clocks: vec![(BANK_SEL, BANK_DSP), (0xd3, 0x08)],
        vga_jpeg_clocks: vec![(BANK_SEL, BANK_DSP), (0xd3, 0x10)],
        settings_yuv422: vec![(BANK_SEL, BANK_DSP), (0xda, 0x00)],
        settings_rgb565: vec![(BANK_SEL, BANK_DSP), (0xda, 0x08)],
        settings_jpeg: vec![(BANK_SEL, BANK_DSP), (0xda, 0x10)],
        brightness: levels(0x10),
        contrast: levels(0x20),
        saturation: levels(0x30),
        special_effect: {
            let mut t = vec![vec![0x7c, 0x7d]];
            for row in 1..=7u8 {
                t.push(vec![0x40, row]);
            }
            t
        },
        white_balance_mode: {
            let mut t = vec![vec![0xcc, 0xcd, 0xce]];
            for row in 1..=4u8 {
                t.push(vec![row, row + 1, row + 2]);
            }
            t
        },
        ae_level: levels(0x50),
        agc_gain: (0..31u8).map(|i| i * 3).collect(),
    }
}

#[test]
fn handle_address_and_free() {
    let s = Ov2640::new(7u32);
    assert_eq!(s.address(), 0x30);
    assert_eq!(s.free(), 7);
    let s = Ov2640::with_address((), 0x21);
    assert_eq!(s.address(), 0x21);
}

#[test]
fn bank_select_is_skipped_when_known() {
    let mut s = Ov2640::new(());
    let mut bus = FakeSensor::new();
    let ops = s.write_reg_in_bank(BANK_SENSOR, COM8, 0x05);
    run(&mut s, &mut bus, ops);
    let ops = s.write_reg_in_bank(BANK_SENSOR, COM9, 0x06);
    run(&mut s, &mut bus, ops);
    let writes_of_bank_sel = bus
        .actions
        .iter()
        .filter(|a| matches!(a, BusAction::Write { reg, .. } if *reg == BANK_SEL))
        .count();
    assert_eq!(writes_of_bank_sel, 1);
    assert_eq!(bus.regs[1][COM8 as usize], 0x05);
    assert_eq!(bus.regs[1][COM9 as usize], 0x06);
    let ops = s.select_bank(BANK_DSP);
    run(&mut s, &mut bus, ops);
    assert_eq!(bus.bank, 0);
}

#[test]
fn raw_write_of_bank_sel_is_remembered() {
    let mut s = Ov2640::new(());
    let mut bus = FakeSensor::new();
    let ops = s.write_reg(BANK_SEL, BANK_SENSOR);
    run(&mut s, &mut bus, ops);
    bus.actions.clear();
    let ops = s.read_reg_in_bank(BANK_SENSOR, REG_PID);
    let (r, _) = run(&mut s, &mut bus, ops);
    assert_eq!(bus.actions, vec![BusAction::Read { address: 0x30, reg: REG_PID }, BusAction::Done]);
    assert_eq!(r.reads(), &vec![0x26]);
}

#[test]
fn read_reg_reads_selected_bank() {
    let mut s = Ov2640::new(());
    let mut bus = FakeSensor::new();
    bus.bank = 1;
    let ops = s.read_reg(REG_VER);
    let (r, a) = run(&mut s, &mut bus, ops);
    assert_eq!(a, BusAction::Done);
    assert_eq!(r.reads(), &vec![0x42]);
}

#[test]
fn set_reg_bits_replaces_only_the_field() {
    let mut s = Ov2640::new(());
    let mut bus = FakeSensor::new();
    bus.regs[1][COM9 as usize] = 0b1011_0101;
    let ops = s.set_reg_bits(BANK_SENSOR, COM9, 5, 0x07, 0b010);
    run(&mut s, &mut bus, ops);
    assert_eq!(bus.regs[1][COM9 as usize], 0b0101_0101);
}

#[test]
fn write_reg_flag_sets_and_clears() {
    let mut s = Ov2640::new(());
    let mut bus = FakeSensor::new();
    bus.regs[1][REG04 as usize] = 0x0f;
    let ops = s.write_reg_flag(BANK_SENSOR, REG04, REG04_HFLIP_IMG, true);
    run(&mut s, &mut bus, ops);
    assert_eq!(bus.regs[1][REG04 as usize], 0x8f);
    let ops = s.write_reg_flag(BANK_SENSOR, REG04, 0x01, false);
    run(&mut s, &mut bus, ops);
    assert_eq!(bus.regs[1][REG04 as usize], 0x8e);
}

#[test]
fn write_regs_stops_at_end_marker_and_counts_writes() {
    let mut s = Ov2640::new(());
    let mut bus = FakeSensor::new();
    let table = [(BANK_SEL, BANK_DSP), (0x10, 0x01), (BANK_SEL, BANK_DSP), (0x11, 0x02), (0x00, 0x00), (0x12, 0x03)];
    let ops = s.write_regs(&table);
    assert_eq!(ops.len(), 4);
    let (r, _) = run(&mut s, &mut bus, ops);
    assert_eq!(r.writes(), 3);
    assert_eq!(bus.regs[0][0x10], 0x01);
    assert_eq!(bus.regs[0][0x11], 0x02);
    assert_eq!(bus.regs[0][0x12], 0x00);
}

#[test]
fn detect_and_verify_id() {
    let mut s = Ov2640::new(());
    let mut bus = FakeSensor::new();
    let ops = s.detect();
    let (r, a) = run(&mut s, &mut bus, ops);
    assert_eq!(a, BusAction::Done);
    assert_eq!(r.detected(), Some(DetectedSensor { pid: 0x26, ver: 0x42 }));
    let ops = s.verify_id();
    let (_, a) = run(&mut s, &mut bus, ops);
    assert_eq!(a, BusAction::Done);
    bus.regs[1][REG_VER as usize] = 0x41;
    let ops = s.verify_id();
    let (r, a) = run(&mut s, &mut bus, ops);
    assert_eq!(a, BusAction::WrongId { pid: 0x26, ver: 0x41 });
    assert_eq!(r.detected(), Some(DetectedSensor { pid: 0x26, ver: 0x41 }));
    assert_eq!(RegisterRun::new(Vec::new()).detected(), None);
}

#[test]
fn reset_writes_srst_and_forgets_bank() {
    let mut s = Ov2640::new(());
    let mut bus = FakeSensor::new();
    let ops = s.reset();
    run(&mut s, &mut bus, ops);
    assert_eq!(bus.regs[1][COM7 as usize], COM7_SRST);
    assert!(bus.actions.contains(&BusAction::Delay { ms: 10 }));
    bus.actions.clear();
    let ops = s.select_bank(BANK_SENSOR);
    run(&mut s, &mut bus, ops);
    assert_eq!(bus.actions[0], BusAction::Write { address: 0x30, reg: BANK_SEL, value: BANK_SENSOR });
}

#[test]
fn init_refuses_wrong_sensor_before_reset() {
    let mut s = Ov2640::new(());
    let mut bus = FakeSensor::new();
    bus.regs[1][REG_PID as usize] = 0x56;
    let t = tables();
    let ops = s.init_qvga_yuv422(&t);
    let (_, a) = run(&mut s, &mut bus, ops);
    assert_eq!(a, BusAction::WrongId { pid: 0x56, ver: 0x42 });
    assert_eq!(bus.regs[1][COM7 as usize], 0);
}

#[test]
fn init_qvga_jpeg_writes_tuning() {
    let mut s = Ov2640::new(());
    let mut bus = FakeSensor::new();
    let t = tables();
    let ops = s.init_qvga_jpeg(JpegConfig::new(0x0c, 0x08), &t);
    let (r, a) = run(&mut s, &mut bus, ops);
    assert_eq!(a, BusAction::Done);
    assert_eq!(r.detected(), Some(DetectedSensor { pid: 0x26, ver: 0x42 }));
    assert_eq!(bus.regs[1][COM7 as usize], 0x20);
    assert_eq!(bus.regs[0][R_DVP_SP as usize], 0x08);
    assert_eq!(bus.regs[0][QS as usize], 0x0c);
    assert_eq!(bus.regs[0][0x5a], 0x50);
    assert_eq!(bus.regs[0][0xda], 0x10);
    assert_eq!(bus.regs[0][0x2c], 0xff);
    assert_eq!(bus.regs[0][0x2e], 0x00);
    assert_eq!(bus.actions.iter().rev().nth(1), Some(&BusAction::Delay { ms: 100 }));
}

#[test]
fn configure_output_selects_tables() {
    let s = Ov2640::new(());
    let t = tables();
    let yuv = s.configure_output(OutputConfig::qvga_yuv422(), &t);
    assert_eq!(yuv.len(), 10);
    assert_eq!(yuv[7], RegOp::Write { reg: 0xd3, value: 0x04 });
    assert_eq!(yuv[9], RegOp::Write { reg: 0xda, value: 0x00 });
    let rgb = s.configure_output(OutputConfig::qvga_rgb565(), &t);
    assert_eq!(rgb[9], RegOp::Write { reg: 0xda, value: 0x08 });
    let vga = s.configure_output(OutputConfig::vga_jpeg(JpegConfig { qs: 0x10, r_dvp_sp: 0x02 }), &t);
    assert_eq!(vga.len(), 13);
    assert_eq!(vga[3], RegOp::Write { reg: 0x12, value: 0x00 });
    assert_eq!(vga[5], RegOp::Write { reg: 0x5a, value: 0xa0 });
    assert_eq!(vga[11], RegOp::Write { reg: R_DVP_SP, value: 0x02 });
    assert_eq!(vga[12], RegOp::Write { reg: QS, value: 0x10 });
}

#[test]
fn output_config_constructors() {
    let c = OutputConfig::qvga_jpeg(JpegConfig::default());
    assert_eq!(c.resolution, Resolution::Qvga320x240);
    assert_eq!(c.format, ImageFormat::Jpeg);
    assert_eq!(c.pixel_clock, PixelClock::QvgaJpeg);
    assert_eq!(c.jpeg, JpegConfig { qs: 0x0c, r_dvp_sp: 0x08 });
    assert_eq!(OutputConfig::qvga_yuv422().pixel_clock, PixelClock::QvgaParallel);
    assert_eq!(OutputConfig::qvga_rgb565().format, ImageFormat::Rgb565);
    assert_eq!(OutputConfig::vga_jpeg(JpegConfig::default()).resolution, Resolution::Vga640x480);
}

#[test]
fn table_rows_and_bits() {
    assert_eq!(ControlLevel::Minus2.table_row(), 1);
    assert_eq!(ControlLevel::Plus2.table_row(), 5);
    assert_eq!(SpecialEffect::NoEffect.table_row(), 1);
    assert_eq!(SpecialEffect::Retro.table_row(), 7);
    assert_eq!(WhiteBalanceMode::Auto.table_row(), None);
    assert_eq!(WhiteBalanceMode::Home.table_row(), Some(4));
    assert_eq!(GainCeiling::X2.bits(), 0);
    assert_eq!(GainCeiling::X128.bits(), 6);
}

#[test]
fn brightness_writes_table_row() {
    let mut s = Ov2640::new(());
    let mut bus = FakeSensor::new();
    let t = tables();
    let ops = s.set_brightness(ControlLevel::Plus1, &t);
    assert_eq!(ops.len(), 6);
    run(&mut s, &mut bus, ops);
    assert_eq!(bus.regs[0][0x7c], 0x10);
    assert_eq!(bus.regs[0][0x7d], 8);
    let writes = bus.actions.iter().filter(|a| matches!(a, BusAction::Write { reg: 0x7d, .. })).count();
    assert_eq!(writes, 2);
}

#[test]
fn other_level_controls() {
    let mut s = Ov2640::new(());
    let mut bus = FakeSensor::new();
    let t = tables();
    let ops = s.set_contrast(ControlLevel::Minus2, &t);
    run(&mut s, &mut bus, ops);
    assert_eq!(bus.regs[0][0x7c], 0x20);
    let ops = s.set_saturation(ControlLevel::Zero, &t);
    run(&mut s, &mut bus, ops);
    assert_eq!(bus.regs[0][0x7c], 0x30);
    let ops = s.set_special_effect(SpecialEffect::Grayscale, &t);
    run(&mut s, &mut bus, ops);
    assert_eq!(bus.regs[0][0x7d], 3);
    let ops = s.set_exposure_level(ControlLevel::Minus1, &t);
    run(&mut s, &mut bus, ops);
    assert_eq!(bus.regs[1][0x7c], 0x50);
    assert_eq!(bus.regs[1][0x7d], 4);
}

#[test]
fn white_balance_mode_preset_and_auto() {
    let mut s = Ov2640::new(());
    let mut bus = FakeSensor::new();
    let t = tables();
    let ops = s.set_white_balance_mode(WhiteBalanceMode::Cloudy, &t);
    run(&mut s, &mut bus, ops);
    assert_eq!(bus.regs[0][0xc7], 0x40);
    assert_eq!(bus.regs[0][0xcc], 2);
    assert_eq!(bus.regs[0][0xce], 4);
    let ops = s.set_white_balance_mode(WhiteBalanceMode::Auto, &t);
    assert_eq!(ops.len(), 2);
    run(&mut s, &mut bus, ops);
    assert_eq!(bus.regs[0][0xc7], 0x00);
}

#[test]
fn dsp_toggles() {
    let mut s = Ov2640::new(());
    let mut bus = FakeSensor::new();
    for ops in [
        s.set_auto_white_balance(true),
        s.set_awb_gain(true),
        s.set_raw_gamma(true),
        s.set_lens_correction(true),
    ] {
        run(&mut s, &mut bus, ops);
    }
    assert_eq!(bus.regs[0][CTRL1 as usize], 0b0010_1110);
    let ops = s.set_awb_gain(false);
    run(&mut s, &mut bus, ops);
    assert_eq!(bus.regs[0][CTRL1 as usize], 0b0010_1010);
    for ops in [s.set_downsize_crop_window(true), s.set_bad_pixel_correction(true), s.set_white_pixel_correction(true)] {
        run(&mut s, &mut bus, ops);
    }
    assert_eq!(bus.regs[0][0x86], 0x20);
    assert_eq!(bus.regs[0][0x87], 0xc0);
    let ops = s.set_aec2(false);
    run(&mut s, &mut bus, ops);
    assert_eq!(bus.regs[0][CTRL0 as usize], 0x40);
    let ops = s.set_aec2(true);
    run(&mut s, &mut bus, ops);
    assert_eq!(bus.regs[0][CTRL0 as usize], 0x00);
}

#[test]
fn sensor_toggles() {
    let mut s = Ov2640::new(());
    let mut bus = FakeSensor::new();
    for ops in [s.set_auto_gain(true), s.set_auto_exposure(true), s.set_color_bar(true), s.set_horizontal_mirror(true), s.set_vertical_flip(true)] {
        run(&mut s, &mut bus, ops);
    }
    assert_eq!(bus.regs[1][COM8 as usize], COM8_AGC_EN | COM8_AEC_EN);
    assert_eq!(bus.regs[1][COM7 as usize], COM7_COLOR_BAR);
    assert_eq!(bus.regs[1][REG04 as usize], REG04_HFLIP_IMG | REG04_VFLIP_IMG | REG04_VREF_EN);
    let ops = s.set_vertical_flip(false);
    run(&mut s, &mut bus, ops);
    assert_eq!(bus.regs[1][REG04 as usize], REG04_HFLIP_IMG);
    let ops = s.set_gain_ceiling(GainCeiling::X16);
    run(&mut s, &mut bus, ops);
    assert_eq!(bus.regs[1][COM9 as usize], 3 << 5);
}

#[test]
fn exposure_value_is_clamped_and_split() {
    let mut s = Ov2640::new(());
    let mut bus = FakeSensor::new();
    bus.regs[1][REG04 as usize] = 0xfc;
    bus.regs[1][REG45 as usize] = 0xc0;
    let ops = s.set_exposure_value(5000);
    run(&mut s, &mut bus, ops);
    let low = (bus.regs[1][REG04 as usize] & 0x03) as u16;
    let mid = bus.regs[1][AEC as usize] as u16;
    let high = (bus.regs[1][REG45 as usize] & 0x3f) as u16;
    assert_eq!((high << 10) | (mid << 2) | low, 1200);
    assert_eq!(bus.regs[1][REG04 as usize] & 0xfc, 0xfc);
    assert_eq!(bus.regs[1][REG45 as usize] & 0xc0, 0xc0);
    let ops = s.set_exposure_value(1023);
    run(&mut s, &mut bus, ops);
    assert_eq!(bus.regs[1][AEC as usize], 0xff);
    assert_eq!(bus.regs[1][REG04 as usize] & 0x03, 0x03);
}

#[test]
fn agc_gain_and_jpeg_quality_clamp() {
    let mut s = Ov2640::new(());
    let mut bus = FakeSensor::new();
    let t = tables();
    let ops = s.set_agc_gain(200, &t);
    run(&mut s, &mut bus, ops);
    assert_eq!(bus.regs[1][GAIN as usize], 90);
    let ops = s.set_agc_gain(4, &t);
    run(&mut s, &mut bus, ops);
    assert_eq!(bus.regs[1][GAIN as usize], 12);
    let ops = s.set_jpeg_quality(200);
    run(&mut s, &mut bus, ops);
    assert_eq!(bus.regs[0][QS as usize], 63);
    let ops = s.set_jpeg_quality(12);
    run(&mut s, &mut bus, ops);
    assert_eq!(bus.regs[0][QS as usize], 12);
}

#[test]
fn set_control_dispatches() {
    let s = Ov2640::new(());
    let t = tables();
    assert_eq!(s.set_control(SensorControl::Brightness(ControlLevel::Zero), &t), s.set_brightness(ControlLevel::Zero, &t));
    assert_eq!(s.set_control(SensorControl::AgcGain(7), &t), s.set_agc_gain(7, &t));
    assert_eq!(s.set_control(SensorControl::VerticalFlip(true), &t), s.set_vertical_flip(true));
    assert_eq!(s.set_control(SensorControl::ExposureValue(77), &t), s.set_exposure_value(77));
    assert_eq!(s.set_control(SensorControl::JpegQuality(70), &t), s.set_jpeg_quality(70));
    assert_eq!(
        s.set_control(SensorControl::WhiteBalanceMode(WhiteBalanceMode::Sunny), &t),
        s.set_white_balance_mode(WhiteBalanceMode::Sunny, &t)
    );
    assert_eq!(s.set_control(SensorControl::ColorBar(false), &t), s.set_color_bar(false));
}

#[test]
fn register_addresses() {
    assert_eq!(BANK_SEL, 0xff);
    assert_eq!(BANK_DSP, 0x00);
    assert_eq!(BANK_SENSOR, 0x01);
    assert_eq!(COM7, 0x12);
}
