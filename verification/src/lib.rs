//! Driver core for the BME680/BME688 family of environmental sensors.
//!
//! The sensor is reached over a register-oriented serial bus. This crate
//! holds everything that can be stated and checked as plain logic: decoding
//! the factory calibration block, the sleep/forced mode rules, the
//! measurement trigger-and-poll protocol, and the integer compensation
//! formulas that turn raw ADC counts into temperature, pressure, humidity
//! and gas resistance. The bus itself and the timer are collaborators the
//! embedding supplies; the protocol modules describe each bus exchange as
//! data, so the sequencing decisions are checked here while the transfers
//! happen outside.

use vstd::prelude::*;

pub mod bitfields;
pub mod config;
pub mod constants;
pub mod data;
pub mod error;
pub mod i2c_helper;
pub mod laws;
pub mod math;
pub mod protocol;

pub use bitfields::{RawConfig, RawData};
pub use config::{Configuration, DeviceAddress, GasConfig, IIRFilter, Oversampling, Variant};
pub use data::{CalibrationData, MeasurementData};
pub use error::BmeError;
pub use i2c_helper::{I2CHelper, extract_calibration_data};

verus! {

use crate::config::{spec_cycles, spec_oversampling_from_bits};
use crate::constants::{CYCLE_DURATION, GAS_MEAS_DURATION, TPH_SWITCHING_DURATION,
    WAKEUP_DURATION};
use crate::math::tdiv;

/// The measurement delay in microseconds a register image asks for: the
/// per-channel oversampling cycle counts times the cycle cost, plus the
/// fixed channel-switching, gas and wake-up costs.
pub open spec fn spec_delay_period_us(
    t: config::Oversampling,
    h: config::Oversampling,
    p: config::Oversampling,
) -> int {
    (spec_cycles(t) + spec_cycles(h) + spec_cycles(p)) * CYCLE_DURATION + TPH_SWITCHING_DURATION
        + GAS_MEAS_DURATION + WAKEUP_DURATION
}

/// The driver: the owned collaborators plus the state a measurement needs —
/// the calibration record, the mirrored register image the delay is
/// computed from, and the chip variant that selects the gas formula.
///
/// The bus exchanges happen in the embedding, which runs the machines of
/// [`protocol`] against the device and feeds their outcomes to this type.
pub struct Bme680<I2C, D> {
    pub i2c: I2CHelper<I2C, D>,
    pub calibration_data: CalibrationData,
    pub sensor_config: RawConfig,
    pub variant: Variant,
}

impl<I2C, D> Bme680<I2C, D> {
    /// Assembles a driver from what the construction protocol produced:
    /// the transport holder, the decoded calibration record, the applied
    /// register image and the variant identity.
    pub fn from_parts(
        i2c: I2CHelper<I2C, D>,
        calibration_data: CalibrationData,
        sensor_config: RawConfig,
        variant: Variant,
    ) -> (r: Self)
        ensures
            r.i2c == i2c,
            r.calibration_data == calibration_data,
            r.sensor_config == sensor_config,
            r.variant == variant,
    {
        Bme680 { i2c, calibration_data, sensor_config, variant }
    }

    /// Releases the wrapped bus capability.
    pub fn into_inner(self) -> (r: I2C)
        ensures
            r == self.i2c.i2c_interface,
    {
        self.i2c.into_inner()
    }

    /// The calibration record read at construction.
    pub fn get_calibration_data(&self) -> (r: &CalibrationData)
        ensures
            *r == self.calibration_data,
    {
        &self.calibration_data
    }

    /// Replaces the mirrored register image after a configuration was
    /// applied, so the next measurement delay is derived from it.
    pub fn adopt_config(&mut self, image: RawConfig)
        ensures
            final(self).sensor_config == image,
            final(self).i2c == old(self).i2c,
            final(self).calibration_data == old(self).calibration_data,
            final(self).variant == old(self).variant,
    {
        self.sensor_config = image;
    }

    /// The expected completion delay of a measurement under the current
    /// register image, in microseconds.
    pub fn calculate_delay_period_us(&self) -> (r: u32)
        ensures
            r as int == spec_delay_period_us(
                spec_oversampling_from_bits(self.sensor_config.0@[3] as int / 32),
                spec_oversampling_from_bits(self.sensor_config.0@[1] as int % 8),
                spec_oversampling_from_bits((self.sensor_config.0@[3] as int / 4) % 8),
            ),
    {
        let mut measurement_cycles: u32 = 0;
        measurement_cycles += self.sensor_config.temperature_oversampling().cycles();
        measurement_cycles += self.sensor_config.humidity_oversampling().cycles();
        measurement_cycles += self.sensor_config.pressure_oversampling().cycles();

        let mut measurement_duration = measurement_cycles * CYCLE_DURATION;
        measurement_duration += TPH_SWITCHING_DURATION;
        measurement_duration += GAS_MEAS_DURATION;

        measurement_duration += WAKEUP_DURATION;

        measurement_duration
    }

    /// Turns a qualifying result block into a measurement.
    ///
    /// Temperature comes first and its fine-resolution intermediate feeds
    /// the pressure and humidity formulas of the same cycle. The gas
    /// resistance is present exactly when the block reports the gas
    /// conversion valid and not still running; its absence is not a
    /// failure, and temperature, pressure and humidity never depend on
    /// it. The ambient temperature follows the computed temperature, in
    /// whole degrees, for the next heater derivation.
    pub fn complete_measurement(&mut self, raw: &RawData) -> (r: MeasurementData)
        ensures
            r.temperature as int == data::spec_temperature(
                bitfields::spec_raw_temperature_adc(raw.0@),
                old(self).calibration_data,
            ),
            r.pressure as int == data::spec_pressure(
                bitfields::spec_raw_pressure_adc(raw.0@),
                old(self).calibration_data,
                data::spec_t_fine(
                    bitfields::spec_raw_temperature_adc(raw.0@),
                    old(self).calibration_data,
                ),
            ),
            r.humidity as int == data::spec_humidity(
                bitfields::spec_raw_humidity_adc(raw.0@),
                old(self).calibration_data,
                data::spec_t_fine(
                    bitfields::spec_raw_temperature_adc(raw.0@),
                    old(self).calibration_data,
                ),
            ),
            (r.gas_resistance is Some) <==> (bitfields::spec_raw_gas_valid(raw.0@)
                && !bitfields::spec_raw_gas_measuring(raw.0@)),
            r.gas_resistance matches Some(g) ==> g as int == data::spec_gas_resistance(
                old(self).variant,
                bitfields::spec_raw_gas_adc(raw.0@),
                old(self).calibration_data.range_sw_err as int,
                bitfields::spec_raw_gas_range(raw.0@),
            ),
            final(self).i2c.ambient_temperature as int == tdiv(
                data::spec_temperature(
                    bitfields::spec_raw_temperature_adc(raw.0@),
                    old(self).calibration_data,
                ),
                100,
            ),
            final(self).i2c.i2c_interface == old(self).i2c.i2c_interface,
            final(self).i2c.address == old(self).i2c.address,
            final(self).i2c.delayer == old(self).i2c.delayer,
            final(self).calibration_data == old(self).calibration_data,
            final(self).sensor_config == old(self).sensor_config,
            final(self).variant == old(self).variant,
    {
        let (temperature, t_fine) = data::calculate_temperature(
            raw.temperature_adc(),
            &self.calibration_data,
        );
        // The ambient temperature, in whole degrees, feeds the next
        // heater target derivation.
        self.i2c.ambient_temperature = (temperature as i32) / 100;
        let pressure = data::calculate_pressure(raw.pressure_adc(), &self.calibration_data, t_fine);
        let humidity = data::calculate_humidity(raw.humidity_adc(), &self.calibration_data, t_fine);
        let gas_resistance = if raw.gas_valid() && !raw.gas_measuring() {
            Some(
                self.variant.calc_gas_resistance(
                    raw.gas_adc(),
                    self.calibration_data.range_sw_err,
                    raw.gas_range() as usize,
                ),
            )
        } else {
            None
        };
        MeasurementData { temperature, gas_resistance, humidity, pressure }
    }
}

} // verus!
