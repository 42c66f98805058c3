//! The transport holder and the calibration decoder.
//!
//! The bus itself is a capability the embedding supplies; this module only
//! owns it, together with the device address, the timer and the ambient
//! temperature that the heater formula feeds on. The decoder is the pure
//! transform from the 42-byte coefficient block to the typed record.

use vstd::prelude::*;

verus! {

use crate::config::DeviceAddress;
use crate::data::CalibrationData;
use crate::math::{as_signed16, as_signed8};

/// Owns the bus capability, the device address, the timer and the running
/// ambient temperature. The bus exchanges themselves are performed by the
/// embedding, directed by the protocol machines.
pub struct I2CHelper<I2C, D> {
    pub i2c_interface: I2C,
    pub address: u8,
    pub delayer: D,
    /// Degrees Celsius; feeds the heater target formula. Starts at the
    /// user-supplied value and follows every successful measurement.
    pub ambient_temperature: i32,
}

impl<I2C, D> I2CHelper<I2C, D> {
    /// Gathers the collaborators. The bus is not touched here: the
    /// embedding runs the construction protocol against the device.
    pub fn from_parts(
        i2c_interface: I2C,
        device_address: DeviceAddress,
        delayer: D,
        ambient_temperature: i32,
    ) -> (r: Self)
        ensures
            r.i2c_interface == i2c_interface,
            r.delayer == delayer,
            r.address == (if device_address == DeviceAddress::Primary {
                0x76u8
            } else {
                0x77u8
            }),
            r.ambient_temperature == ambient_temperature,
    {
        let address = device_address.value();
        I2CHelper { i2c_interface, address, delayer, ambient_temperature }
    }

    /// Releases the wrapped bus capability.
    pub fn into_inner(self) -> (r: I2C)
        ensures
            r == self.i2c_interface,
    {
        self.i2c_interface
    }
}

/// A signed byte of the coefficient block.
fn s8(b: u8) -> (r: i8)
    ensures
        r as int == as_signed8(b as int),
{
    if b >= 128 {
        ((b as i32) - 256) as i8
    } else {
        b as i8
    }
}

/// A signed 16-bit coefficient stored low byte first.
fn le_i16(lo: u8, hi: u8) -> (r: i16)
    ensures
        r as int == as_signed16(hi as int * 256 + lo as int),
{
    let w: i32 = (hi as i32) * 256 + (lo as i32);
    if w >= 32768 {
        (w - 65536) as i16
    } else {
        w as i16
    }
}

/// An unsigned 16-bit coefficient stored low byte first.
fn le_u16(lo: u8, hi: u8) -> (r: u16)
    ensures
        r as int == hi as int * 256 + lo as int,
{
    (hi as u16) * 256 + (lo as u16)
}

/// The calibration record a 42-byte coefficient block decodes to.
///
/// The block is the three coefficient register ranges laid end to end.
/// Most 16-bit coefficients sit low byte first at fixed, partly
/// non-contiguous offsets; the first two humidity coefficients share a
/// byte across a nibble boundary; the two correction fields are cut out of
/// status bytes by mask and shift.
pub open spec fn spec_extract_calibration(s: Seq<u8>) -> CalibrationData {
    CalibrationData {
        par_t1: (s[32] * 256 + s[31]) as u16,
        par_t2: as_signed16(s[1] * 256 + s[0]) as i16,
        par_t3: as_signed8(s[2] as int) as i8,
        par_p1: (s[5] * 256 + s[4]) as u16,
        par_p2: as_signed16(s[7] * 256 + s[6]) as i16,
        par_p3: as_signed8(s[8] as int) as i8,
        par_p4: as_signed16(s[11] * 256 + s[10]) as i16,
        par_p5: as_signed16(s[13] * 256 + s[12]) as i16,
        par_p6: as_signed8(s[15] as int) as i8,
        par_p7: as_signed8(s[14] as int) as i8,
        par_p8: as_signed16(s[19] * 256 + s[18]) as i16,
        par_p9: as_signed16(s[21] * 256 + s[20]) as i16,
        par_p10: s[22],
        par_h1: (s[25] * 16 + s[24] as int % 16) as u16,
        par_h2: (s[23] * 16 + s[24] as int / 16) as u16,
        par_h3: as_signed8(s[26] as int) as i8,
        par_h4: as_signed8(s[27] as int) as i8,
        par_h5: as_signed8(s[28] as int) as i8,
        par_h6: s[29],
        par_h7: as_signed8(s[30] as int) as i8,
        par_gh1: as_signed8(s[35] as int) as i8,
        par_gh2: as_signed16(s[34] * 256 + s[33]) as i16,
        par_gh3: as_signed8(s[36] as int) as i8,
        res_heat_range: ((s[39] as int % 64) / 16) as u8,
        res_heat_val: as_signed8(s[37] as int) as i8,
        range_sw_err: (if s[41] as int / 16 >= 8 {
            s[41] as int / 16 - 16
        } else {
            s[41] as int / 16
        }) as i8,
    }
}

/// Decodes the 42-byte coefficient block into the calibration record,
/// field for field as [`spec_extract_calibration`] lays it out.
pub fn extract_calibration_data(coeff_buffer: [u8; 42]) -> (r: CalibrationData)
    ensures
        r == spec_extract_calibration(coeff_buffer@),
{
    let par_t1 = le_u16(coeff_buffer[31], coeff_buffer[32]);
    let par_t2 = le_i16(coeff_buffer[0], coeff_buffer[1]);
    let par_t3 = s8(coeff_buffer[2]);

    let par_p1 = le_u16(coeff_buffer[4], coeff_buffer[5]);
    let par_p2 = le_i16(coeff_buffer[6], coeff_buffer[7]);
    let par_p3 = s8(coeff_buffer[8]);
    let par_p4 = le_i16(coeff_buffer[10], coeff_buffer[11]);
    let par_p5 = le_i16(coeff_buffer[12], coeff_buffer[13]);

    // The reference coefficient map swaps these two relative to their
    // register order.
    let par_p6 = s8(coeff_buffer[15]);
    let par_p7 = s8(coeff_buffer[14]);

    let par_p8 = le_i16(coeff_buffer[18], coeff_buffer[19]);
    let par_p9 = le_i16(coeff_buffer[20], coeff_buffer[21]);
    let par_p10 = coeff_buffer[22];

    let par_h1: u16 = (coeff_buffer[25] as u16) * 16 + ((coeff_buffer[24] % 16) as u16);
    let par_h2: u16 = (coeff_buffer[23] as u16) * 16 + ((coeff_buffer[24] / 16) as u16);
    let par_h3 = s8(coeff_buffer[26]);
    let par_h4 = s8(coeff_buffer[27]);
    let par_h5 = s8(coeff_buffer[28]);
    let par_h6 = coeff_buffer[29];
    let par_h7 = s8(coeff_buffer[30]);

    let par_gh1 = s8(coeff_buffer[35]);
    let par_gh2 = le_i16(coeff_buffer[33], coeff_buffer[34]);
    let par_gh3 = s8(coeff_buffer[36]);

    let res_heat_range: u8 = (coeff_buffer[39] % 64) / 16;
    let res_heat_val = s8(coeff_buffer[37]);
    let high_nibble: u8 = coeff_buffer[41] / 16;
    let range_sw_err: i8 = if high_nibble >= 8 {
        ((high_nibble as i32) - 16) as i8
    } else {
        high_nibble as i8
    };

    CalibrationData {
        par_t1,
        par_t2,
        par_t3,
        par_p1,
        par_p2,
        par_p3,
        par_p4,
        par_p5,
        par_p6,
        par_p7,
        par_p8,
        par_p9,
        par_h1,
        par_h2,
        par_h3,
        par_h4,
        par_h5,
        par_h6,
        par_h7,
        par_p10,
        par_gh1,
        par_gh2,
        par_gh3,
        res_heat_range,
        res_heat_val,
        range_sw_err,
    }
}

} // verus!
