//! Register tables that the driver writes: initialization sequences,
//! output-mode sequences and the per-level values of table-driven controls.
//!
//! The table contents are register data of the OV2640 and its board; the
//! driver takes them as values so that they can be maintained apart from
//! the register protocol.

use vstd::prelude::*;

verus! {

/// The register tables of a sensor setup.
///
/// Sequence tables are lists of `(register, value)` pairs that end at the
/// first `(END_REG, END_VALUE)` pair or at the end of the list; a pair whose
/// register is `BANK_SEL` selects a bank. Control tables hold register
/// addresses in row 0 and the values of one level or mode in each further
/// row.
pub struct RegisterTables {
    /// Common initialization after reset.
    pub settings_cif: Vec<(u8, u8)>,
    /// DSP bypass before an output mode change.
    pub dsp_bypass_on: Vec<(u8, u8)>,
    /// Sensor timing for CIF-based outputs (QVGA).
    pub settings_to_cif: Vec<(u8, u8)>,
    /// Sensor timing for SVGA-based outputs (VGA).
    pub settings_to_svga: Vec<(u8, u8)>,
    /// Output window for 320x240.
    pub qvga_window: Vec<(u8, u8)>,
    /// Output window for 640x480.
    pub vga_window: Vec<(u8, u8)>,
    /// Pixel clock for QVGA YUV422/RGB565.
    pub qvga_yuv422_clocks: Vec<(u8, u8)>,
    /// Pixel clock for QVGA JPEG.
    pub qvga_jpeg_clocks: Vec<(u8, u8)>,
    /// Pixel clock for VGA JPEG.
    pub vga_jpeg_clocks: Vec<(u8, u8)>,
    /// YUV422 output format.
    pub settings_yuv422: Vec<(u8, u8)>,
    /// RGB565 output format.
    pub settings_rgb565: Vec<(u8, u8)>,
    /// JPEG output format.
    pub settings_jpeg: Vec<(u8, u8)>,
    /// Brightness, DSP bank: addresses and five levels.
    pub brightness: Vec<Vec<u8>>,
    /// Contrast, DSP bank: addresses and five levels.
    pub contrast: Vec<Vec<u8>>,
    /// Saturation, DSP bank: addresses and five levels.
    pub saturation: Vec<Vec<u8>>,
    /// Special effects, DSP bank: addresses and seven effects.
    pub special_effect: Vec<Vec<u8>>,
    /// White-balance presets, DSP bank: addresses and four presets.
    pub white_balance_mode: Vec<Vec<u8>>,
    /// Automatic exposure levels, sensor bank: addresses and five levels.
    pub ae_level: Vec<Vec<u8>>,
    /// Manual AGC gain register values for gain indices 0 to 30.
    pub agc_gain: Vec<u8>,
}

} // verus!
