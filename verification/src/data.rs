//! The calibration record, the measurement result, and the compensation
//! engine: integer formulas from the chip's reference compensation
//! algorithm that turn raw ADC counts into physical values.
//!
//! Each formula is stated as a spec function over unbounded integers, with
//! C's truncating division written [`tdiv`], its arithmetic right shifts
//! written as Euclidean division by a power of two, and assignments to
//! 32-bit intermediates wrapped with [`wrap32`]. The executable functions
//! compute over `i64` and are proved to return exactly the specified
//! values for every input.

use vstd::prelude::*;

verus! {

use vstd::arithmetic::div_mod::lemma_fundamental_div_mod;

use crate::config::Variant;
use crate::math::{mul_ww, mul_wn, sar, tdiv, tdiv64, tdiv_any, umod_u32, wrap16, wrap32, wrap_i16,
    wrap_i32};

/// The factory calibration block, decoded. Read once from the device at
/// construction and immutable afterward.
#[derive(Debug, Clone, Copy, PartialEq, Eq, Structural)]
pub struct CalibrationData {
    pub par_t1: u16,
    pub par_t2: i16,
    pub par_t3: i8,
    pub par_p1: u16,
    pub par_p2: i16,
    pub par_p3: i8,
    pub par_p4: i16,
    pub par_p5: i16,
    pub par_p6: i8,
    pub par_p7: i8,
    pub par_p8: i16,
    pub par_p9: i16,
    pub par_p10: u8,
    pub par_h1: u16,
    pub par_h2: u16,
    pub par_h3: i8,
    pub par_h4: i8,
    pub par_h5: i8,
    pub par_h6: u8,
    pub par_h7: i8,
    pub par_gh1: i8,
    pub par_gh2: i16,
    pub par_gh3: i8,
    pub res_heat_range: u8,
    pub res_heat_val: i8,
    pub range_sw_err: i8,
}

/// One finished measurement.
///
/// Temperature is in hundredths of a degree Celsius, pressure in Pascal,
/// humidity in thousandths of a percent relative humidity, gas resistance
/// in Ohm. The gas value is absent whenever the gas sub-measurement was
/// invalid or still running when the result block was read.
#[derive(Debug, Clone, Copy, PartialEq, Eq, Structural)]
pub struct MeasurementData {
    pub temperature: i16,
    pub pressure: u32,
    pub humidity: u32,
    pub gas_resistance: Option<u32>,
}

/// The fine-resolution temperature intermediate that the pressure and
/// humidity formulas take as input.
pub open spec fn spec_t_fine(temp_adc: int, c: CalibrationData) -> int {
    let var1 = temp_adc / 8 - c.par_t1 * 2;
    let var2 = (var1 * c.par_t2) / 2048;
    let var3 = (((var1 / 2) * (var1 / 2)) / 4096) * (c.par_t3 * 16) / 16384;
    wrap32(var2 + var3)
}

/// Compensated temperature in hundredths of a degree Celsius.
pub open spec fn spec_temperature(temp_adc: int, c: CalibrationData) -> int {
    wrap16((spec_t_fine(temp_adc, c) * 5 + 128) / 256)
}

/// Computes the compensated temperature and the `t_fine` intermediate from
/// the raw 20-bit temperature ADC count. Temperature must always be
/// computed first in a cycle: the other formulas consume its `t_fine`.
pub fn calculate_temperature(temp_adc: u32, calib: &CalibrationData) -> (r: (i16, i32))
    requires
        temp_adc < 0x10_0000,
    ensures
        r.0 as int == spec_temperature(temp_adc as int, *calib),
        r.1 as int == spec_t_fine(temp_adc as int, *calib),
{
    let adc8: i64 = sar(temp_adc as i64, 8);
    let var1: i64 = adc8 - (calib.par_t1 as i64) * 2;
    let var2: i64 = sar(mul_ww(var1, calib.par_t2 as i64), 2048);
    let half1: i64 = sar(var1, 2);
    let m2: i64 = mul_ww(half1, half1);
    proof {
        assert(0 <= half1 * half1 <= 0x4_0000_0000) by (nonlinear_arith)
            requires
                -0x2_0000 <= half1 <= 0x2_0000,
        ;
    }
    let var3: i64 = sar(mul_ww(sar(m2, 4096), (calib.par_t3 as i64) * 16), 16384);
    let t_fine: i32 = wrap_i32(var2 + var3);
    let temp: i16 = wrap_i16(sar((t_fine as i64) * 5 + 128, 256));
    (temp, t_fine)
}

/// Compensated pressure in Pascal, as the reference formula computes it.
///
/// The scale factor derived from `par_p1` can degenerate to zero for a
/// calibration record the formula was never meant for; the reference
/// algorithm divides by it unconditionally, this definition returns zero
/// for that divisor instead of dividing by it.
pub open spec fn spec_pressure(pres_adc: int, c: CalibrationData, t_fine: int) -> int {
    let s1 = t_fine / 2 - 64000;
    let a1 = s1 / 4;
    let v2a = ((wrap32(a1 * a1) / 2048) * c.par_p6) / 4;
    let v2b = wrap32(v2a + wrap32(wrap32(s1 * c.par_p5) * 2));
    let v2c = wrap32(v2b / 4 + c.par_p4 * 65536);
    let v1a = wrap32(((wrap32(a1 * a1) / 8192) * (c.par_p3 * 32)) / 8 + wrap32(c.par_p2 * s1) / 2);
    let v1b = v1a / 262144;
    let v1c = wrap32((32768 + v1b) * c.par_p1) / 32768;
    if v1c == 0 {
        0
    } else {
        let pa = 1048576 - pres_adc;
        let pc0 = wrap32((pa - v2c / 4096) * 3125);
        let pc1 = if pc0 >= 0x4000_0000 {
            wrap32(tdiv(pc0, v1c) * 2)
        } else {
            tdiv(wrap32(pc0 * 2), v1c)
        };
        let v1d = wrap32(c.par_p9 * (wrap32((pc1 / 8) * (pc1 / 8)) / 8192)) / 4096;
        let v2d = (wrap32((pc1 / 4) * c.par_p8)) / 8192;
        let b1 = pc1 / 256;
        let v3a = wrap32(wrap32(wrap32(b1 * b1) * b1) * c.par_p10) / 131072;
        let s2 = v1d + v2d + v3a + c.par_p7 * 128;
        wrap32(pc1 + s2 / 16) % 0x1_0000_0000
    }
}

/// Computes the compensated pressure in Pascal from the raw 20-bit
/// pressure ADC count and the `t_fine` of the same cycle.
pub fn calculate_pressure(pres_adc: u32, calib: &CalibrationData, t_fine: i32) -> (r: u32)
    requires
        pres_adc < 0x10_0000,
    ensures
        r as int == spec_pressure(pres_adc as int, *calib, t_fine as int),
{
    let s1: i64 = sar(t_fine as i64, 2) - 64000;
    let a1: i64 = sar(s1, 4);
    let sq1: i64 = wrap_i32(mul_ww(a1, a1)) as i64;
    let v2a: i64 = sar(mul_ww(sar(sq1, 2048), calib.par_p6 as i64), 4);
    let v2b: i64 = wrap_i32(
        v2a + (wrap_i32((wrap_i32(mul_ww(s1, calib.par_p5 as i64)) as i64) * 2) as i64),
    ) as i64;
    let v2c: i64 = wrap_i32(sar(v2b, 4) + (calib.par_p4 as i64) * 65536) as i64;
    let v1a: i64 = wrap_i32(
        sar(mul_ww(sar(sq1, 8192), (calib.par_p3 as i64) * 32), 8) + sar(
            wrap_i32(mul_ww(calib.par_p2 as i64, s1)) as i64,
            2,
        ),
    ) as i64;
    let v1b: i64 = sar(v1a, 262144);
    let v1c: i64 = sar(wrap_i32(mul_ww(32768 + v1b, calib.par_p1 as i64)) as i64, 32768);
    if v1c == 0 {
        return 0;
    }
    let pa: i64 = 1048576 - (pres_adc as i64);
    let pc0: i64 = wrap_i32(mul_ww(pa - sar(v2c, 4096), 3125)) as i64;
    let pc1: i64 = if pc0 >= 0x4000_0000 {
        wrap_i32(tdiv_any(pc0, v1c) * 2) as i64
    } else {
        tdiv_any(wrap_i32(pc0 * 2) as i64, v1c)
    };
    let p8th: i64 = sar(pc1, 8);
    let v1d: i64 = sar(
        wrap_i32(
            mul_ww(calib.par_p9 as i64, sar(wrap_i32(mul_ww(p8th, p8th)) as i64, 8192)),
        ) as i64,
        4096,
    );
    let v2d: i64 = sar(wrap_i32(mul_ww(sar(pc1, 4), calib.par_p8 as i64)) as i64, 8192);
    let b1: i64 = sar(pc1, 256);
    let v3a: i64 = sar(
        wrap_i32(
            mul_ww(
                wrap_i32(mul_ww(wrap_i32(mul_ww(b1, b1)) as i64, b1)) as i64,
                calib.par_p10 as i64,
            ),
        ) as i64,
        131072,
    );
    let s2: i64 = v1d + v2d + v3a + (calib.par_p7 as i64) * 128;
    umod_u32(wrap_i32(pc1 + sar(s2, 16)) as i64)
}

/// Compensated humidity in thousandths of a percent relative humidity,
/// clamped to the physical range, as the reference formula computes it.
pub open spec fn spec_humidity(hum_adc: int, c: CalibrationData, t_fine: int) -> int {
    let ts = wrap32(wrap32(t_fine * 5) + 128) / 256;
    let v1 = hum_adc - c.par_h1 * 16 - tdiv(ts * c.par_h3, 100) / 2;
    let inner = tdiv(wrap32(ts * tdiv(ts * c.par_h5, 100)) / 64, 100);
    let v2 = wrap32(c.par_h2 * (tdiv(ts * c.par_h4, 100) + inner + 16384)) / 1024;
    let v3 = wrap32(v1 * v2);
    let v4 = (c.par_h6 * 128 + tdiv(ts * c.par_h7, 100)) / 16;
    let v5 = wrap32((v3 / 16384) * (v3 / 16384)) / 1024;
    let v6 = wrap32(v4 * v5) / 2;
    let ch = ((wrap32(v3 + v6) / 1024) * 1000) / 4096;
    if ch > 100000 {
        100000
    } else if ch < 0 {
        0
    } else {
        ch
    }
}

/// Computes the compensated humidity from the raw 16-bit humidity ADC
/// count and the `t_fine` of the same cycle.
pub fn calculate_humidity(hum_adc: u16, calib: &CalibrationData, t_fine: i32) -> (r: u32)
    ensures
        r as int == spec_humidity(hum_adc as int, *calib, t_fine as int),
{
    let ts: i64 = sar(wrap_i32((wrap_i32((t_fine as i64) * 5) as i64) + 128) as i64, 256);
    proof {
        assert(-0x4000_0000 <= ts * (calib.par_h3 as i64) <= 0x4000_0000) by (nonlinear_arith)
            requires
                -0x80_0000 <= ts <= 0x80_0000,
                -0x80 <= calib.par_h3 as i64 <= 0x80,
        ;
        assert(-0x4000_0000 <= ts * (calib.par_h4 as i64) <= 0x4000_0000) by (nonlinear_arith)
            requires
                -0x80_0000 <= ts <= 0x80_0000,
                -0x80 <= calib.par_h4 as i64 <= 0x80,
        ;
        assert(-0x4000_0000 <= ts * (calib.par_h5 as i64) <= 0x4000_0000) by (nonlinear_arith)
            requires
                -0x80_0000 <= ts <= 0x80_0000,
                -0x80 <= calib.par_h5 as i64 <= 0x80,
        ;
        assert(-0x4000_0000 <= ts * (calib.par_h7 as i64) <= 0x4000_0000) by (nonlinear_arith)
            requires
                -0x80_0000 <= ts <= 0x80_0000,
                -0x80 <= calib.par_h7 as i64 <= 0x80,
        ;
    }
    let th3: i64 = tdiv64(mul_ww(ts, calib.par_h3 as i64), 100);
    let v1: i64 = (hum_adc as i64) - (calib.par_h1 as i64) * 16 - sar(th3, 2);
    let th5: i64 = tdiv64(mul_ww(ts, calib.par_h5 as i64), 100);
    let inner: i64 = tdiv64(sar(wrap_i32(mul_ww(ts, th5)) as i64, 64), 100);
    let th4: i64 = tdiv64(mul_ww(ts, calib.par_h4 as i64), 100);
    let v2: i64 = sar(wrap_i32(mul_ww(calib.par_h2 as i64, th4 + inner + 16384)) as i64, 1024);
    let v3: i64 = wrap_i32(mul_ww(v1, v2)) as i64;
    let th7: i64 = tdiv64(mul_ww(ts, calib.par_h7 as i64), 100);
    let v4: i64 = sar((calib.par_h6 as i64) * 128 + th7, 16);
    let v3s: i64 = sar(v3, 16384);
    let v5: i64 = sar(wrap_i32(mul_ww(v3s, v3s)) as i64, 1024);
    let v6: i64 = sar(wrap_i32(mul_ww(v4, v5)) as i64, 2);
    let ch: i64 = sar(sar(wrap_i32(v3 + v6) as i64, 1024) * 1000, 4096);
    if ch > 100000 {
        100000
    } else if ch < 0 {
        0
    } else {
        ch as u32
    }
}

/// First lookup constant of the older chip's gas resistance formula.
pub open spec fn spec_lookup1(i: int) -> int {
    if i == 5 || i == 13 {
        2126008810
    } else if i == 7 {
        2130303777
    } else if i == 10 {
        2143188679
    } else if i == 11 {
        2136746228
    } else {
        2147483647
    }
}

/// Second lookup constant of the older chip's gas resistance formula.
pub open spec fn spec_lookup2(i: int) -> int {
    if i == 0 {
        4096000000
    } else if i == 1 {
        2048000000
    } else if i == 2 {
        1024000000
    } else if i == 3 {
        512000000
    } else if i == 4 {
        255744255
    } else if i == 5 {
        127110228
    } else if i == 6 {
        64000000
    } else if i == 7 {
        32258064
    } else if i == 8 {
        16016016
    } else if i == 9 {
        8000000
    } else if i == 10 {
        4000000
    } else if i == 11 {
        2000000
    } else if i == 12 {
        1000000
    } else if i == 13 {
        500000
    } else if i == 14 {
        250000
    } else {
        125000
    }
}

fn lookup1(i: usize) -> (r: u32)
    requires
        i < 16,
    ensures
        r as int == spec_lookup1(i as int),
        2126008810 <= r <= 2147483647,
{
    if i == 5 || i == 13 {
        2126008810
    } else if i == 7 {
        2130303777
    } else if i == 10 {
        2143188679
    } else if i == 11 {
        2136746228
    } else {
        2147483647
    }
}

fn lookup2(i: usize) -> (r: u32)
    requires
        i < 16,
    ensures
        r as int == spec_lookup2(i as int),
        125000 <= r <= 4096000000,
{
    if i == 0 {
        4096000000
    } else if i == 1 {
        2048000000
    } else if i == 2 {
        1024000000
    } else if i == 3 {
        512000000
    } else if i == 4 {
        255744255
    } else if i == 5 {
        127110228
    } else if i == 6 {
        64000000
    } else if i == 7 {
        32258064
    } else if i == 8 {
        16016016
    } else if i == 9 {
        8000000
    } else if i == 10 {
        4000000
    } else if i == 11 {
        2000000
    } else if i == 12 {
        1000000
    } else if i == 13 {
        500000
    } else if i == 14 {
        250000
    } else {
        125000
    }
}

/// Gas resistance in Ohm for the older chip: a 64-bit formula over the gas
/// ADC count, the range index and the software error-range correction.
pub open spec fn spec_gas_resistance_low(gas_adc: int, range_sw_err: int, range: int) -> int {
    let var1 = ((1340 + 5 * range_sw_err) * spec_lookup1(range)) / 65536;
    let var2 = gas_adc * 32768 - 16777216 + var1;
    let var3 = (spec_lookup2(range) * var1) / 512;
    ((var3 + var2 / 2) / var2) % 0x1_0000_0000
}

/// Gas resistance in Ohm for the newer chip.
pub open spec fn spec_gas_resistance_high(gas_adc: int, range: int) -> int {
    let var1 = 262144int / spec_pow2(range);
    let var2 = (gas_adc - 512) * 3 + 4096;
    ((10000 * var1) / var2) * 100
}

/// Powers of two for the range shift of the newer chip's formula.
pub open spec fn spec_pow2(i: int) -> int
    decreases i,
{
    if i <= 0 {
        1
    } else {
        2 * spec_pow2(i - 1)
    }
}

fn shift_262144(i: usize) -> (r: u32)
    requires
        i < 16,
    ensures
        r as int == 262144int / spec_pow2(i as int),
        8 <= r <= 262144,
{
    proof {
        assert(spec_pow2(0) == 1);
        assert(spec_pow2(1) == 2);
        assert(spec_pow2(2) == 4);
        assert(spec_pow2(3) == 8);
        assert(spec_pow2(4) == 16);
        assert(spec_pow2(5) == 32);
        assert(spec_pow2(6) == 64);
        assert(spec_pow2(7) == 128);
        assert(spec_pow2(8) == 256);
        assert(spec_pow2(9) == 512);
        assert(spec_pow2(10) == 1024);
        assert(spec_pow2(11) == 2048);
        assert(spec_pow2(12) == 4096);
        assert(spec_pow2(13) == 8192);
        assert(spec_pow2(14) == 16384);
        assert(spec_pow2(15) == 32768);
    }
    if i == 0 {
        262144
    } else if i == 1 {
        131072
    } else if i == 2 {
        65536
    } else if i == 3 {
        32768
    } else if i == 4 {
        16384
    } else if i == 5 {
        8192
    } else if i == 6 {
        4096
    } else if i == 7 {
        2048
    } else if i == 8 {
        1024
    } else if i == 9 {
        512
    } else if i == 10 {
        256
    } else if i == 11 {
        128
    } else if i == 12 {
        64
    } else if i == 13 {
        32
    } else if i == 14 {
        16
    } else {
        8
    }
}

/// Dispatches between the two chips' gas resistance formulas.
pub open spec fn spec_gas_resistance(
    v: Variant,
    gas_adc: int,
    range_sw_err: int,
    range: int,
) -> int {
    match v {
        Variant::Bme680 => spec_gas_resistance_low(gas_adc, range_sw_err, range),
        Variant::Bme688 => spec_gas_resistance_high(gas_adc, range),
    }
}

impl Variant {
    /// Converts a raw gas ADC count into a resistance in Ohm, using the
    /// lookup constants and formula of this chip variant.
    pub fn calc_gas_resistance(&self, gas_adc: u16, range_sw_err: i8, gas_range: usize) -> (r: u32)
        requires
            gas_adc < 0x400,
            gas_range < 16,
        ensures
            r as int == spec_gas_resistance(*self, gas_adc as int, range_sw_err as int,
                gas_range as int),
    {
        match self {
            Variant::Bme680 => {
                let k: i64 = 1340 + 5 * (range_sw_err as i64);
                let l1: i64 = lookup1(gas_range) as i64;
                let m: i64 = mul_wn(l1, k);
                proof {
                    assert(m == k * l1) by (nonlinear_arith)
                        requires
                            m == l1 * k,
                    ;
                    assert(700 * 2126008810 <= k * l1 <= 1975 * 2147483647) by (nonlinear_arith)
                        requires
                            700 <= k <= 1975,
                            2126008810 <= l1 <= 2147483647,
                    ;
                }
                let var1: i64 = sar(m, 65536);
                let var2: i64 = (gas_adc as i64) * 32768 - 16777216 + var1;
                let l2: i64 = lookup2(gas_range) as i64;
                proof {
                    assert(0 <= l2 * var1 <= 0x4000_0000_0000_0000) by (nonlinear_arith)
                        requires
                            0 <= l2 <= 4096000000,
                            0 <= var1 <= 0x400_0000,
                    ;
                }
                let var3: i64 = sar(l2 * var1, 512);
                let q: i64 = tdiv_any(var3 + sar(var2, 2), var2);
                umod_u32(q)
            },
            Variant::Bme688 => {
                let var1: u32 = shift_262144(gas_range);
                let var2: u32 = 3 * (gas_adc as u32) + 2560;
                proof {
                    assert((gas_adc as int - 512) * 3 + 4096 == var2 as int);
                    lemma_fundamental_div_mod(10000 * (var1 as int), var2 as int);
                }
                let q: u32 = (10000 * var1) / var2;
                proof {
                    assert((var2 as int) * (q as int) >= 2560 * (q as int)) by (nonlinear_arith)
                        requires
                            var2 as int >= 2560,
                            q as int >= 0,
                    ;
                }
                q * 100
            },
        }
    }
}

} // verus!
