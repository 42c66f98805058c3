//! Register addresses, block lengths, fixed command bytes and timing
//! constants of the sensor's register map.

use vstd::prelude::*;

verus! {

/// Chip-identity register.
pub const ADDR_CHIP_ID: u8 = 0xD0;

/// Value the chip-identity register must report.
pub const CHIP_ID: u8 = 0x61;

/// Variant-identity register; tells the two supported chips apart.
pub const ADDR_VARIANT_ID: u8 = 0xF0;

/// Soft-reset register and the command byte written to it.
pub const ADDR_SOFT_RESET: u8 = 0xE0;

pub const CMD_SOFT_RESET: u8 = 0xB6;

/// First calibration coefficient block.
pub const ADDR_REG_COEFF1: u8 = 0x8A;

pub const LEN_COEFF1: usize = 23;

/// Second calibration coefficient block.
pub const ADDR_REG_COEFF2: u8 = 0xE1;

pub const LEN_COEFF2: usize = 14;

/// Third calibration coefficient block.
pub const ADDR_REG_COEFF3: u8 = 0x00;

pub const LEN_COEFF3: usize = 5;

/// Total length of the three coefficient blocks laid end to end.
pub const LEN_COEFF_ALL: usize = 42;

/// First of the configuration registers mirrored in [`crate::bitfields::RawConfig`].
pub const ADDR_CONFIG: u8 = 0x71;

/// Number of mirrored configuration registers.
pub const LEN_CONFIG: usize = 5;

/// Control register holding the operating mode and the temperature and
/// pressure oversampling selectors.
pub const ADDR_CONTROL_MODE: u8 = 0x74;

/// Heater wait-time register of profile zero.
pub const ADDR_GAS_WAIT_0: u8 = 0x64;

/// Heater target-resistance register of profile zero.
pub const ADDR_RES_HEAT_0: u8 = 0x5A;

/// Start of the 15-byte measurement result block.
pub const ADDR_SENSOR_RESULT: u8 = 0x1D;

/// Length of the measurement result block.
pub const LEN_SENSOR_RESULT: usize = 15;

/// Settle delay in microseconds, waited after a soft reset and after each
/// sleep write while draining the device to sleep.
pub const SETTLE_DELAY_US: u32 = 10_000;

/// Cost in microseconds of one oversampling cycle.
pub const CYCLE_DURATION: u32 = 1963;

/// Fixed cost in microseconds of switching between the temperature,
/// pressure and humidity channels.
pub const TPH_SWITCHING_DURATION: u32 = 1908;

/// Fixed cost in microseconds of the gas measurement.
pub const GAS_MEAS_DURATION: u32 = 2385;

/// Fixed cost in microseconds of waking the device from sleep.
pub const WAKEUP_DURATION: u32 = 1000;

/// Number of times a measurement is polled for before giving up.
pub const MAX_POLL_ATTEMPTS: u8 = 5;

} // verus!
