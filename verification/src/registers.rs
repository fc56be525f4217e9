//! OV2640 register addresses and bit masks named by the driver.
//!
//! Values follow the OV2640 register map: register `0xff` selects between
//! the DSP bank (`0x00`) and the sensor bank (`0x01`).

use vstd::prelude::*;

verus! {

/// Bank-select register, present in both banks.
pub const BANK_SEL: u8 = 0xff;
/// Value of `BANK_SEL` that selects the DSP register bank.
pub const BANK_DSP: u8 = 0x00;
/// Value of `BANK_SEL` that selects the sensor register bank.
pub const BANK_SENSOR: u8 = 0x01;

/// Sensor bank: AGC gain control.
pub const GAIN: u8 = 0x00;
/// Sensor bank: register 04, flip/mirror and AEC[1:0].
pub const REG04: u8 = 0x04;
/// `REG04` bit: horizontal mirror.
pub const REG04_HFLIP_IMG: u8 = 0x80;
/// `REG04` bit: vertical flip.
pub const REG04_VFLIP_IMG: u8 = 0x40;
/// `REG04` bit: VREF enable, written together with vertical flip.
pub const REG04_VREF_EN: u8 = 0x10;
/// Sensor bank: product id, most significant byte.
pub const REG_PID: u8 = 0x0a;
/// Sensor bank: product version.
pub const REG_VER: u8 = 0x0b;
/// Sensor bank: AEC[9:2].
pub const AEC: u8 = 0x10;
/// Sensor bank: common control 7.
pub const COM7: u8 = 0x12;
/// `COM7` bit: software reset.
pub const COM7_SRST: u8 = 0x80;
/// `COM7` bit: colour-bar test pattern.
pub const COM7_COLOR_BAR: u8 = 0x02;
/// Sensor bank: common control 8.
pub const COM8: u8 = 0x13;
/// `COM8` bit: automatic gain control enable.
pub const COM8_AGC_EN: u8 = 0x04;
/// `COM8` bit: automatic exposure control enable.
pub const COM8_AEC_EN: u8 = 0x01;
/// Sensor bank: common control 9, AGC gain ceiling in bits [7:5].
pub const COM9: u8 = 0x14;
/// Sensor bank: AEC[15:10] in bits [5:0].
pub const REG45: u8 = 0x45;

/// DSP bank: JPEG quantization scale.
pub const QS: u8 = 0x44;
/// DSP bank: module enable control 2.
pub const CTRL2: u8 = 0x86;
/// DSP bank: module enable control 3.
pub const CTRL3: u8 = 0x87;
/// DSP bank: module enable control 0.
pub const CTRL0: u8 = 0xc2;
/// DSP bank: module enable control 1.
pub const CTRL1: u8 = 0xc3;
/// DSP bank: white-balance preset enable, bit 6.
pub const AWB_MODE: u8 = 0xc7;
/// DSP bank: DVP output speed control.
pub const R_DVP_SP: u8 = 0xd3;

/// Register address of the end marker of a register table.
pub const END_REG: u8 = 0x00;
/// Value of the end marker of a register table.
pub const END_VALUE: u8 = 0x00;

} // verus!
