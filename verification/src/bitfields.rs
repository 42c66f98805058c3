//! Register layouts: the mirrored configuration block, the control
//! register, and the measurement result block.
//!
//! Every field is described arithmetically — a field of `n` bits starting
//! at bit `k` of byte `b` reads as `(b / 2^k) % 2^n` — so the contracts
//! stay in plain integer terms.

use vstd::prelude::*;

verus! {

use crate::config::{Configuration, Oversampling, SensorMode, spec_filter_bits,
    spec_oversampling_bits, spec_oversampling_from_bits};

/// In-memory mirror of the five configuration registers, in register-map
/// order starting at [`crate::constants::ADDR_CONFIG`]: gas control,
/// humidity control, status, measurement control, filter.
#[derive(Debug, Clone, Copy, PartialEq, Eq)]
pub struct RawConfig(pub [u8; 5]);

/// The gas-control byte after a configuration is applied: a present heater
/// profile selects profile zero and switches the gas conversion on.
pub open spec fn spec_cfg_gas_byte(b: int, conf: Configuration) -> int {
    if conf.gas_config is Some {
        (b / 32) * 32 + 16
    } else {
        b
    }
}

/// The humidity-control byte after a configuration is applied.
pub open spec fn spec_cfg_hum_byte(b: int, conf: Configuration) -> int {
    match conf.humidity_oversampling {
        Some(o) => (b / 8) * 8 + spec_oversampling_bits(o),
        None => b,
    }
}

/// The measurement-control byte after a configuration is applied:
/// temperature oversampling in the top three bits, pressure oversampling
/// in the three below, the mode bits untouched.
pub open spec fn spec_cfg_meas_byte(b: int, conf: Configuration) -> int {
    let bt = match conf.temperature_oversampling {
        Some(o) => spec_oversampling_bits(o) * 32 + b % 32,
        None => b,
    };
    match conf.pressure_oversampling {
        Some(o) => (bt / 32) * 32 + spec_oversampling_bits(o) * 4 + bt % 4,
        None => bt,
    }
}

/// The filter byte after a configuration is applied.
pub open spec fn spec_cfg_filter_byte(b: int, conf: Configuration) -> int {
    match conf.filter {
        Some(f) => (b / 32) * 32 + spec_filter_bits(f) * 4 + b % 4,
        None => b,
    }
}

impl RawConfig {
    /// The humidity oversampling level the mirror encodes.
    pub fn humidity_oversampling(&self) -> (r: Oversampling)
        ensures
            r == spec_oversampling_from_bits(self.0@[1] as int % 8),
    {
        Oversampling::from_bits(self.0[1] % 8)
    }

    /// The temperature oversampling level the mirror encodes.
    pub fn temperature_oversampling(&self) -> (r: Oversampling)
        ensures
            r == spec_oversampling_from_bits(self.0@[3] as int / 32),
    {
        Oversampling::from_bits(self.0[3] / 32)
    }

    /// The pressure oversampling level the mirror encodes.
    pub fn pressure_oversampling(&self) -> (r: Oversampling)
        ensures
            r == spec_oversampling_from_bits((self.0@[3] as int / 4) % 8),
    {
        Oversampling::from_bits((self.0[3] / 4) % 8)
    }

    /// Merges every present value of the given configuration onto the
    /// mirror; absent values leave their registers as they are.
    pub fn apply_config(&mut self, conf: &Configuration)
        ensures
            final(self).0@[0] == spec_cfg_gas_byte(old(self).0@[0] as int, *conf),
            final(self).0@[1] == spec_cfg_hum_byte(old(self).0@[1] as int, *conf),
            final(self).0@[2] == old(self).0@[2],
            final(self).0@[3] == spec_cfg_meas_byte(old(self).0@[3] as int, *conf),
            final(self).0@[4] == spec_cfg_filter_byte(old(self).0@[4] as int, *conf),
    {
        let b0: u8 = match conf.gas_config {
            Some(_) => (self.0[0] / 32) * 32 + 16,
            None => self.0[0],
        };
        let b1: u8 = match conf.humidity_oversampling {
            Some(o) => (self.0[1] / 8) * 8 + o.bits(),
            None => self.0[1],
        };
        let bt: u8 = match conf.temperature_oversampling {
            Some(o) => o.bits() * 32 + self.0[3] % 32,
            None => self.0[3],
        };
        let b3: u8 = match conf.pressure_oversampling {
            Some(o) => (bt / 32) * 32 + o.bits() * 4 + bt % 4,
            None => bt,
        };
        let b4: u8 = match conf.filter {
            Some(f) => (self.0[4] / 32) * 32 + f.bits() * 4 + self.0[4] % 4,
            None => self.0[4],
        };
        self.0 = [b0, b1, self.0[2], b3, b4];
    }
}

/// The operating mode a control-register byte reports: the low two bits,
/// zero meaning sleep. The driver treats every armed value as forced.
pub open spec fn spec_mode_of(b: int) -> SensorMode {
    if b % 4 == 0 {
        SensorMode::Sleep
    } else {
        SensorMode::Forced
    }
}

/// A control-register byte with its mode bits replaced and everything
/// else kept.
pub open spec fn spec_with_mode(b: int, mode: SensorMode) -> int {
    (b / 4) * 4 + (match mode {
        SensorMode::Sleep => 0int,
        SensorMode::Forced => 1int,
    })
}

/// The measurement-control register, read before every mode transition
/// because the device, not a cached value, is the source of truth.
#[derive(Debug, Clone, Copy, PartialEq, Eq, Structural)]
pub struct CtrlMeasurement(pub u8);

impl CtrlMeasurement {
    /// The operating mode the byte reports.
    pub fn mode(&self) -> (r: SensorMode)
        ensures
            r == spec_mode_of(self.0 as int),
    {
        if self.0 % 4 == 0 {
            SensorMode::Sleep
        } else {
            SensorMode::Forced
        }
    }

    /// Replaces the mode bits, keeping the oversampling selectors.
    pub fn set_mode(&mut self, mode: SensorMode)
        ensures
            final(self).0 as int == spec_with_mode(old(self).0 as int, mode),
    {
        let bits: u8 = match mode {
            SensorMode::Sleep => 0,
            SensorMode::Forced => 1,
        };
        self.0 = (self.0 / 4) * 4 + bits;
    }
}

/// One 15-byte measurement result block.
#[derive(Debug, Clone, Copy, PartialEq, Eq)]
pub struct RawData(pub [u8; 15]);

/// Whether the device reports a measurement still in progress.
pub open spec fn spec_raw_measuring(s: Seq<u8>) -> bool {
    (s[0] / 32) % 2 == 1
}

/// Whether the device reports fresh, unread data.
pub open spec fn spec_raw_new_data(s: Seq<u8>) -> bool {
    s[0] / 128 == 1
}

/// Whether the gas conversion is still running.
pub open spec fn spec_raw_gas_measuring(s: Seq<u8>) -> bool {
    (s[0] / 64) % 2 == 1
}

/// Whether the gas conversion produced a valid result.
pub open spec fn spec_raw_gas_valid(s: Seq<u8>) -> bool {
    (s[14] / 32) % 2 == 1
}

/// The 20-bit temperature ADC count.
pub open spec fn spec_raw_temperature_adc(s: Seq<u8>) -> int {
    s[5] * 4096 + s[6] * 16 + s[7] / 16
}

/// The 20-bit pressure ADC count.
pub open spec fn spec_raw_pressure_adc(s: Seq<u8>) -> int {
    s[2] * 4096 + s[3] * 16 + s[4] / 16
}

/// The 16-bit humidity ADC count.
pub open spec fn spec_raw_humidity_adc(s: Seq<u8>) -> int {
    s[8] * 256 + s[9]
}

/// The 10-bit gas ADC count.
pub open spec fn spec_raw_gas_adc(s: Seq<u8>) -> int {
    s[13] * 4 + s[14] / 64
}

/// The gas range index.
pub open spec fn spec_raw_gas_range(s: Seq<u8>) -> int {
    s[14] as int % 16
}

impl RawData {
    pub fn measuring(&self) -> (r: bool)
        ensures
            r == spec_raw_measuring(self.0@),
    {
        (self.0[0] / 32) % 2 == 1
    }

    pub fn new_data(&self) -> (r: bool)
        ensures
            r == spec_raw_new_data(self.0@),
    {
        self.0[0] / 128 == 1
    }

    pub fn gas_measuring(&self) -> (r: bool)
        ensures
            r == spec_raw_gas_measuring(self.0@),
    {
        (self.0[0] / 64) % 2 == 1
    }

    pub fn gas_valid(&self) -> (r: bool)
        ensures
            r == spec_raw_gas_valid(self.0@),
    {
        (self.0[14] / 32) % 2 == 1
    }

    pub fn temperature_adc(&self) -> (r: u32)
        ensures
            r as int == spec_raw_temperature_adc(self.0@),
            r < 0x10_0000,
    {
        (self.0[5] as u32) * 4096 + (self.0[6] as u32) * 16 + (self.0[7] as u32) / 16
    }

    pub fn pressure_adc(&self) -> (r: u32)
        ensures
            r as int == spec_raw_pressure_adc(self.0@),
            r < 0x10_0000,
    {
        (self.0[2] as u32) * 4096 + (self.0[3] as u32) * 16 + (self.0[4] as u32) / 16
    }

    pub fn humidity_adc(&self) -> (r: u16)
        ensures
            r as int == spec_raw_humidity_adc(self.0@),
    {
        (self.0[8] as u16) * 256 + (self.0[9] as u16)
    }

    pub fn gas_adc(&self) -> (r: u16)
        ensures
            r as int == spec_raw_gas_adc(self.0@),
            r < 0x400,
    {
        (self.0[13] as u16) * 4 + (self.0[14] as u16) / 64
    }

    pub fn gas_range(&self) -> (r: u8)
        ensures
            r as int == spec_raw_gas_range(self.0@),
            r < 16,
    {
        self.0[14] % 16
    }
}

} // verus!
