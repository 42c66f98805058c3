//! The driver type: delay derivation, measurement completion, ambient
//! feedback, and the error taxonomy.

use bosch_bme680::bitfields::{CtrlMeasurement, RawConfig, RawData};
use bosch_bme680::config::SensorMode;
use bosch_bme680::error::TransferKind;
use bosch_bme680::{Bme680, BmeError, CalibrationData, DeviceAddress, I2CHelper, Variant};

fn reference_calibration() -> CalibrationData {
    CalibrationData {
        par_t1: 26126,
        par_t2: 26339,
        par_t3: 3,
        par_p1: 36363,
        par_p2: -10437,
        par_p3: 88,
        par_p4: 7392,
        par_p5: -116,
        par_p6: 30,
        par_p7: 45,
        par_p8: -3090,
        par_p9: -2294,
        par_p10: 30,
        par_h1: 706,
        par_h2: 1021,
        par_h3: 0,
        par_h4: 45,
        par_h5: 20,
        par_h6: 120,
        par_h7: -100,
        par_gh1: -30,
        par_gh2: -5969,
        par_gh3: 18,
        res_heat_range: 1,
        res_heat_val: 46,
        range_sw_err: 0,
    }
}

fn driver(image: [u8; 5], variant: Variant) -> Bme680<(), ()> {
    let helper = I2CHelper::from_parts((), DeviceAddress::Primary, (), 20);
    Bme680::from_parts(helper, reference_calibration(), RawConfig(image), variant)
}

/// The reference result block: temperature count 499532, pressure count
/// 415149, humidity count 25012, gas count 650 at range 5, idle with
/// fresh and valid data.
fn reference_block() -> [u8; 15] {
    let mut b = [0u8; 15];
    b[0] = 0x80; // new data, not measuring
    b[2] = 0x65;
    b[3] = 0x5A;
    b[4] = 0xD0;
    b[5] = 0x79;
    b[6] = 0xF4;
    b[7] = 0xC0;
    b[8] = 0x61;
    b[9] = 0xB4;
    b[13] = 0xA2;
    b[14] = 0xA5; // gas bits 0b10, gas valid, range 5
    b
}

#[test]
fn measurement_is_compensated_and_feeds_ambient_back() {
    let mut d = driver([0, 0, 0, 0, 0], Variant::Bme680);
    let m = d.complete_measurement(&RawData(reference_block()));
    assert_eq!(m.temperature, 2560);
    assert_eq!(m.pressure, 88537);
    assert_eq!(m.humidity, 78261);
    assert_eq!(m.gas_resistance, Some(224870));
    // The ambient temperature now reflects the measured 25.60 degrees.
    assert_eq!(d.i2c.ambient_temperature, 25);
}

#[test]
fn gas_resistance_is_absent_when_invalid_or_still_measuring() {
    // Both variants omit the gas value when the block flags it invalid,
    // and when the gas conversion is still running.
    for variant in [Variant::Bme680, Variant::Bme688] {
        let mut invalid = reference_block();
        invalid[14] = 0x85; // gas valid bit cleared
        let mut d = driver([0, 0, 0, 0, 0], variant);
        let m = d.complete_measurement(&RawData(invalid));
        assert_eq!(m.gas_resistance, None);
        assert_eq!(m.temperature, 2560);

        let mut running = reference_block();
        running[0] = 0xC0; // gas measuring bit set
        let m = d.complete_measurement(&RawData(running));
        assert_eq!(m.gas_resistance, None);

        let m = d.complete_measurement(&RawData(reference_block()));
        assert!(m.gas_resistance.is_some());
    }
}

#[test]
fn gas_resistance_value_follows_the_variant() {
    let mut low = driver([0, 0, 0, 0, 0], Variant::Bme680);
    let mut high = driver([0, 0, 0, 0, 0], Variant::Bme688);
    let block = RawData(reference_block());
    assert_eq!(low.complete_measurement(&block).gas_resistance, Some(224870));
    assert_eq!(high.complete_measurement(&block).gas_resistance, Some(1816400));
}

#[test]
fn delay_period_follows_the_register_image() {
    // Temperature by two, pressure by sixteen, humidity by one:
    // 19 cycles of 1963 microseconds plus the fixed costs.
    let d = driver([0, 0x01, 0, 0x54, 0], Variant::Bme680);
    assert_eq!(d.calculate_delay_period_us(), 42590);
    // Everything skipped leaves only the fixed costs.
    let d = driver([0, 0, 0, 0, 0], Variant::Bme680);
    assert_eq!(d.calculate_delay_period_us(), 5293);
}

#[test]
fn delay_period_never_decreases_with_oversampling_level() {
    // Raising one channel's oversampling level, the others held fixed,
    // never shortens the delay.
    let mut previous = 0;
    for bits in 0u8..6 {
        let d = driver([0, 0x01, 0, (bits << 5) | 0x14, 0], Variant::Bme680);
        let delay = d.calculate_delay_period_us();
        assert!(delay >= previous);
        previous = delay;
    }
    let mut previous = 0;
    for bits in 0u8..6 {
        let d = driver([0, bits, 0, 0x54, 0], Variant::Bme680);
        let delay = d.calculate_delay_period_us();
        assert!(delay >= previous);
        previous = delay;
    }
    let mut previous = 0;
    for bits in 0u8..6 {
        let d = driver([0, 0x01, 0, 0x40 | (bits << 2), 0], Variant::Bme680);
        let delay = d.calculate_delay_period_us();
        assert!(delay >= previous);
        previous = delay;
    }
}

#[test]
fn driver_releases_its_transport() {
    let d = driver([0, 0, 0, 0, 0], Variant::Bme680);
    assert_eq!(d.get_calibration_data().par_t1, 26126);
    d.into_inner();
}

#[test]
fn control_register_mode_bits_round_trip() {
    let mut ctrl = CtrlMeasurement(0x57);
    assert_eq!(ctrl.mode(), SensorMode::Forced);
    ctrl.set_mode(SensorMode::Sleep);
    assert_eq!(ctrl.0, 0x54);
    assert_eq!(ctrl.mode(), SensorMode::Sleep);
    ctrl.set_mode(SensorMode::Forced);
    assert_eq!(ctrl.0, 0x55);
}

#[test]
fn transport_failures_wrap_into_the_matching_variant() {
    let w: BmeError<&str> = BmeError::from_transport(TransferKind::Write, "bus fault");
    let r: BmeError<&str> = BmeError::from_transport(TransferKind::WriteRead, "bus fault");
    assert_eq!(w, BmeError::WriteError("bus fault"));
    assert_eq!(r, BmeError::WriteReadError("bus fault"));
    assert_ne!(w, r);
    assert_eq!(
        BmeError::<&str>::UnexpectedChipId(0x55),
        BmeError::<&str>::UnexpectedChipId(0x55)
    );
    assert_ne!(
        BmeError::<&str>::UnexpectedChipId(0x55),
        BmeError::<&str>::MeasuringTimeOut
    );
}
