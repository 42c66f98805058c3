//! User-facing configuration values: bus address, operating mode, chip
//! variant, oversampling levels, filter setting and the heater profile,
//! together with the heater register formulas.

use vstd::prelude::*;

verus! {

use vstd::arithmetic::div_mod::{lemma_div_denominator, lemma_fundamental_div_mod};

use crate::data::CalibrationData;
use crate::math::{mul_ww, tdiv, tdiv64, umod_u8, wrap32, wrap_i32};

/// The two bus addresses the sensor can be strapped to.
#[derive(Debug, Clone, Copy, PartialEq, Eq, Structural)]
pub enum DeviceAddress {
    /// Address pin pulled low.
    Primary,
    /// Address pin pulled high.
    Secondary,
}

impl DeviceAddress {
    /// The seven-bit bus address.
    pub fn value(&self) -> (r: u8)
        ensures
            *self == DeviceAddress::Primary ==> r == 0x76,
            *self == DeviceAddress::Secondary ==> r == 0x77,
    {
        match self {
            DeviceAddress::Primary => 0x76,
            DeviceAddress::Secondary => 0x77,
        }
    }
}

/// The operating modes the driver uses. The device also knows parallel and
/// sequential modes on some variants; this driver only ever arms single
/// forced cycles.
#[derive(Debug, Clone, Copy, PartialEq, Eq, Structural)]
pub enum SensorMode {
    /// Idle; the only mode in which configuration may be changed.
    Sleep,
    /// Runs one measurement cycle, then falls back to sleep on its own.
    Forced,
}

/// The two recognized chip identities. They differ only in the gas
/// resistance formula and its lookup constants.
#[derive(Debug, Clone, Copy, PartialEq, Eq, Structural)]
pub enum Variant {
    Bme680,
    Bme688,
}

impl Variant {
    /// Interprets the variant-identity register. The newer chip reports 1;
    /// anything else is treated as the older one.
    pub fn from_id(id: u8) -> (r: Variant)
        ensures
            r == (if id == 1 {
                Variant::Bme688
            } else {
                Variant::Bme680
            }),
    {
        if id == 1 {
            Variant::Bme688
        } else {
            Variant::Bme680
        }
    }
}

/// Oversampling level of one measurement channel: how many internal
/// sample-and-accumulate cycles the device runs for it.
#[derive(Debug, Clone, Copy, PartialEq, Eq, Structural)]
pub enum Oversampling {
    Skipped,
    By1,
    By2,
    By4,
    By8,
    By16,
}

/// Number of measurement cycles an oversampling level costs.
pub open spec fn spec_cycles(o: Oversampling) -> u32 {
    match o {
        Oversampling::Skipped => 0,
        Oversampling::By1 => 1,
        Oversampling::By2 => 2,
        Oversampling::By4 => 4,
        Oversampling::By8 => 8,
        Oversampling::By16 => 16,
    }
}

/// Register encoding of an oversampling level.
pub open spec fn spec_oversampling_bits(o: Oversampling) -> u8 {
    match o {
        Oversampling::Skipped => 0,
        Oversampling::By1 => 1,
        Oversampling::By2 => 2,
        Oversampling::By4 => 3,
        Oversampling::By8 => 4,
        Oversampling::By16 => 5,
    }
}

/// The oversampling level a three-bit register field encodes. The device
/// treats every value above 5 as the highest level.
pub open spec fn spec_oversampling_from_bits(b: int) -> Oversampling {
    if b == 0 {
        Oversampling::Skipped
    } else if b == 1 {
        Oversampling::By1
    } else if b == 2 {
        Oversampling::By2
    } else if b == 3 {
        Oversampling::By4
    } else if b == 4 {
        Oversampling::By8
    } else {
        Oversampling::By16
    }
}

impl Oversampling {
    pub fn cycles(&self) -> (r: u32)
        ensures
            r == spec_cycles(*self),
    {
        match self {
            Oversampling::Skipped => 0,
            Oversampling::By1 => 1,
            Oversampling::By2 => 2,
            Oversampling::By4 => 4,
            Oversampling::By8 => 8,
            Oversampling::By16 => 16,
        }
    }

    pub fn bits(&self) -> (r: u8)
        ensures
            r == spec_oversampling_bits(*self),
    {
        match self {
            Oversampling::Skipped => 0,
            Oversampling::By1 => 1,
            Oversampling::By2 => 2,
            Oversampling::By4 => 3,
            Oversampling::By8 => 4,
            Oversampling::By16 => 5,
        }
    }

    pub fn from_bits(b: u8) -> (r: Oversampling)
        ensures
            r == spec_oversampling_from_bits(b as int),
    {
        if b == 0 {
            Oversampling::Skipped
        } else if b == 1 {
            Oversampling::By1
        } else if b == 2 {
            Oversampling::By2
        } else if b == 3 {
            Oversampling::By4
        } else if b == 4 {
            Oversampling::By8
        } else {
            Oversampling::By16
        }
    }
}

/// Coefficient of the low-pass filter applied to temperature and pressure.
#[derive(Debug, Clone, Copy, PartialEq, Eq, Structural)]
pub enum IIRFilter {
    Coeff0,
    Coeff1,
    Coeff3,
    Coeff7,
    Coeff15,
    Coeff31,
    Coeff63,
    Coeff127,
}

/// Register encoding of a filter coefficient.
pub open spec fn spec_filter_bits(f: IIRFilter) -> u8 {
    match f {
        IIRFilter::Coeff0 => 0,
        IIRFilter::Coeff1 => 1,
        IIRFilter::Coeff3 => 2,
        IIRFilter::Coeff7 => 3,
        IIRFilter::Coeff15 => 4,
        IIRFilter::Coeff31 => 5,
        IIRFilter::Coeff63 => 6,
        IIRFilter::Coeff127 => 7,
    }
}

impl IIRFilter {
    pub fn bits(&self) -> (r: u8)
        ensures
            r == spec_filter_bits(*self),
    {
        match self {
            IIRFilter::Coeff0 => 0,
            IIRFilter::Coeff1 => 1,
            IIRFilter::Coeff3 => 2,
            IIRFilter::Coeff7 => 3,
            IIRFilter::Coeff15 => 4,
            IIRFilter::Coeff31 => 5,
            IIRFilter::Coeff63 => 6,
            IIRFilter::Coeff127 => 7,
        }
    }
}

/// Heater profile of the gas measurement: the plate target temperature and
/// how long the plate is heated before the gas conversion.
#[derive(Debug, Clone, Copy, PartialEq, Eq, Structural)]
pub struct GasConfig {
    /// Target plate temperature in degrees Celsius; the device cannot go
    /// beyond 400.
    pub heater_target_temperature: u16,
    /// Heating time in milliseconds.
    pub heater_duration: u16,
}

/// Encoding of a heating time into the wait-time register: a six-bit
/// mantissa and a two-bit multiplier-of-four exponent; times at or above
/// the largest encodable value saturate to 0xFF.
pub open spec fn spec_gas_wait_fold(dur: int, factor: int) -> int
    decreases dur,
{
    if dur > 0x3F {
        spec_gas_wait_fold(dur / 4, factor + 1)
    } else {
        dur + factor * 64
    }
}

pub open spec fn spec_gas_wait(dur: int) -> int {
    if dur >= 0xFC0 {
        0xFF
    } else {
        spec_gas_wait_fold(dur, 0)
    }
}

/// The heater target-resistance register formula from the reference
/// compensation algorithm. The target temperature is capped at 400 degrees;
/// divisions truncate toward zero as in the reference; the one product that
/// can exceed 32 bits wraps as a 32-bit intermediate does there.
pub open spec fn spec_res_heat(calib: CalibrationData, ambient: int, target: int) -> int {
    let temp = if target > 400 {
        400int
    } else {
        target
    };
    let var1 = tdiv(wrap32(ambient * calib.par_gh3), 1000) * 256;
    let var2 = (calib.par_gh1 + 784) * tdiv(
        tdiv((calib.par_gh2 + 154009) * temp * 5, 100) + 3276800,
        10,
    );
    let var3 = var1 + tdiv(var2, 2);
    let var4 = tdiv(var3, calib.res_heat_range + 4);
    let var5 = 131 * calib.res_heat_val + 65536;
    let x100 = (tdiv(var4, var5) - 250) * 34;
    tdiv(x100 + 50, 100) % 0x100
}

impl GasConfig {
    /// Encodes the heating time for the wait-time register.
    pub fn calc_gas_wait(&self) -> (r: u8)
        ensures
            r as int == spec_gas_wait(self.heater_duration as int),
    {
        let dur: u16 = self.heater_duration;
        if dur >= 0xFC0 {
            return 0xFF;
        }
        proof {
            let d = dur as int;
            lemma_fundamental_div_mod(d, 4);
            lemma_fundamental_div_mod(d, 16);
            lemma_fundamental_div_mod(d, 64);
            lemma_div_denominator(d, 4, 4);
            lemma_div_denominator(d, 16, 4);
            lemma_fundamental_div_mod(d / 4, 4);
            lemma_fundamental_div_mod(d / 16, 4);
            if d <= 0x3F {
                assert(spec_gas_wait_fold(d, 0) == d);
            } else if d <= 0xFF {
                assert(spec_gas_wait_fold(d, 0) == spec_gas_wait_fold(d / 4, 1));
                assert(spec_gas_wait_fold(d / 4, 1) == d / 4 + 64);
            } else if d <= 0x3FF {
                assert(spec_gas_wait_fold(d, 0) == spec_gas_wait_fold(d / 4, 1));
                assert(spec_gas_wait_fold(d / 4, 1) == spec_gas_wait_fold(d / 4 / 4, 2));
                assert(spec_gas_wait_fold(d / 16, 2) == d / 16 + 128);
            } else {
                assert(spec_gas_wait_fold(d, 0) == spec_gas_wait_fold(d / 4, 1));
                assert(spec_gas_wait_fold(d / 4, 1) == spec_gas_wait_fold(d / 4 / 4, 2));
                assert(spec_gas_wait_fold(d / 16, 2) == spec_gas_wait_fold(d / 16 / 4, 3));
                assert(spec_gas_wait_fold(d / 64, 3) == d / 64 + 192);
            }
        }
        if dur <= 0x3F {
            dur as u8
        } else if dur <= 0xFF {
            (dur / 4) as u8 + 64
        } else if dur <= 0x3FF {
            (dur / 16) as u8 + 128
        } else {
            (dur / 64) as u8 + 192
        }
    }

    /// Derives the target-resistance register value from the calibration
    /// record and the current ambient temperature.
    pub fn calc_res_heat(&self, calib: &CalibrationData, ambient: i32) -> (r: u8)
        ensures
            r as int == spec_res_heat(*calib, ambient as int, self.heater_target_temperature as int),
    {
        let temp: i64 = if self.heater_target_temperature > 400 {
            400
        } else {
            self.heater_target_temperature as i64
        };
        let gh1: i64 = calib.par_gh1 as i64;
        let gh2: i64 = calib.par_gh2 as i64;
        let gh3: i64 = calib.par_gh3 as i64;
        let var1: i64 = tdiv64(wrap_i32(mul_ww(ambient as i64, gh3)) as i64, 1000) * 256;
        let prod: i64 = mul_ww(gh2 + 154009, temp);
        proof {
            assert(0 <= (gh2 + 154009) * temp <= 0x4735_1C80) by (nonlinear_arith)
                requires
                    121241 <= gh2 + 154009 <= 186777,
                    0 <= temp <= 400,
            ;
        }
        let inner: i64 = tdiv64(tdiv64(prod * 5, 100) + 3276800, 10);
        let var2: i64 = mul_ww(gh1 + 784, inner);
        proof {
            assert(-0x60_0000_0000 <= (gh1 + 784) * inner <= 0x60_0000_0000) by (nonlinear_arith)
                requires
                    656 <= gh1 + 784 <= 911,
                    0 <= inner <= 0x1680_0000,
            ;
        }
        let var3: i64 = var1 + tdiv64(var2, 2);
        let var4: i64 = tdiv64(var3, calib.res_heat_range as i64 + 4);
        let var5: i64 = 131 * (calib.res_heat_val as i64) + 65536;
        let x100: i64 = (tdiv64(var4, var5) - 250) * 34;
        umod_u8(tdiv64(x100 + 50, 100))
    }
}

/// A partial configuration: every present value is applied onto the live
/// register image, every absent one leaves the device's current setting as
/// it is. A present heater profile also switches the gas measurement on and
/// has the heater registers derived and written.
#[derive(Debug, Clone, Copy, PartialEq, Eq, Structural)]
pub struct Configuration {
    pub temperature_oversampling: Option<Oversampling>,
    pub pressure_oversampling: Option<Oversampling>,
    pub humidity_oversampling: Option<Oversampling>,
    pub filter: Option<IIRFilter>,
    pub gas_config: Option<GasConfig>,
}

impl Default for Configuration {
    /// A configuration that changes nothing.
    fn default() -> (r: Configuration)
        ensures
            r.temperature_oversampling is None,
            r.pressure_oversampling is None,
            r.humidity_oversampling is None,
            r.filter is None,
            r.gas_config is None,
    {
        Configuration {
            temperature_oversampling: None,
            pressure_oversampling: None,
            humidity_oversampling: None,
            filter: None,
            gas_config: None,
        }
    }
}

} // verus!
