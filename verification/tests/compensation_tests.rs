//! The compensation engine against worked examples of the reference
//! algorithm. All formulas are integer formulas, so the expected values
//! are exact: the tolerance is zero.

use bosch_bme680::data::{calculate_humidity, calculate_pressure, calculate_temperature};
use bosch_bme680::{CalibrationData, GasConfig, Variant};

fn reference_calibration() -> CalibrationData {
    CalibrationData {
        par_t1: 26126,
        par_t2: 26339,
        par_t3: 3,
        par_p1: 36363,
        par_p2: -10437,
        par_p3: 88,
        par_p4: 7392,
        par_p5: -116,
        par_p6: 30,
        par_p7: 45,
        par_p8: -3090,
        par_p9: -2294,
        par_p10: 30,
        par_h1: 706,
        par_h2: 1021,
        par_h3: 0,
        par_h4: 45,
        par_h5: 20,
        par_h6: 120,
        par_h7: -100,
        par_gh1: -30,
        par_gh2: -5969,
        par_gh3: 18,
        res_heat_range: 1,
        res_heat_val: 46,
        range_sw_err: 0,
    }
}

#[test]
fn temperature_matches_worked_example() {
    let calib = reference_calibration();
    // 25.60 degrees Celsius, in hundredths.
    let (temp, t_fine) = calculate_temperature(499532, &calib);
    assert_eq!(temp, 2560);
    assert_eq!(t_fine, 131057);
}

#[test]
fn temperature_of_zero_count_is_deeply_negative() {
    let calib = reference_calibration();
    let (temp, t_fine) = calculate_temperature(0, &calib);
    assert_eq!(temp, -13116);
    assert_eq!(t_fine, -671517);
}

#[test]
fn pressure_chains_from_the_same_t_fine() {
    let calib = reference_calibration();
    let (_, t_fine) = calculate_temperature(499532, &calib);
    // 885.37 hPa, in Pascal.
    assert_eq!(calculate_pressure(415149, &calib, t_fine), 88537);
}

#[test]
fn humidity_chains_from_the_same_t_fine() {
    let calib = reference_calibration();
    let (_, t_fine) = calculate_temperature(499532, &calib);
    // 78.261 percent relative humidity, in thousandths.
    assert_eq!(calculate_humidity(25012, &calib, t_fine), 78261);
}

#[test]
fn humidity_is_clamped_to_the_physical_range() {
    let calib = reference_calibration();
    let (_, t_fine) = calculate_temperature(499532, &calib);
    assert_eq!(calculate_humidity(0xFFFF, &calib, t_fine), 100000);
    assert_eq!(calculate_humidity(0, &calib, t_fine), 0);
}

#[test]
fn gas_resistance_of_the_older_chip_uses_the_lookup_tables() {
    assert_eq!(Variant::Bme680.calc_gas_resistance(650, 0, 5), 224870);
    assert_eq!(Variant::Bme680.calc_gas_resistance(300, -3, 1), 4761905);
}

#[test]
fn gas_resistance_of_the_newer_chip_uses_the_range_shift() {
    assert_eq!(Variant::Bme688.calc_gas_resistance(650, 0, 5), 1816400);
    assert_eq!(Variant::Bme688.calc_gas_resistance(300, -3, 1), 37882000);
}

#[test]
fn variant_identity_register_selects_the_formula() {
    assert_eq!(Variant::from_id(1), Variant::Bme688);
    assert_eq!(Variant::from_id(0), Variant::Bme680);
    assert_eq!(Variant::from_id(0x23), Variant::Bme680);
}

#[test]
fn heater_resistance_code_matches_worked_example() {
    let calib = reference_calibration();
    let gc = GasConfig { heater_target_temperature: 300, heater_duration: 150 };
    assert_eq!(gc.calc_res_heat(&calib, 25), 112);
}

#[test]
fn heater_target_is_capped_at_four_hundred_degrees() {
    let calib = reference_calibration();
    let over = GasConfig { heater_target_temperature: 500, heater_duration: 150 };
    let cap = GasConfig { heater_target_temperature: 400, heater_duration: 150 };
    assert_eq!(over.calc_res_heat(&calib, 20), 138);
    assert_eq!(over.calc_res_heat(&calib, 20), cap.calc_res_heat(&calib, 20));
}

#[test]
fn heater_wait_code_packs_mantissa_and_factor() {
    let short = GasConfig { heater_target_temperature: 300, heater_duration: 63 };
    let medium = GasConfig { heater_target_temperature: 300, heater_duration: 100 };
    let chosen = GasConfig { heater_target_temperature: 300, heater_duration: 150 };
    let long = GasConfig { heater_target_temperature: 300, heater_duration: 4031 };
    let saturated = GasConfig { heater_target_temperature: 300, heater_duration: 4032 };
    assert_eq!(short.calc_gas_wait(), 63);
    assert_eq!(medium.calc_gas_wait(), 89);
    assert_eq!(chosen.calc_gas_wait(), 101);
    assert_eq!(long.calc_gas_wait(), 254);
    assert_eq!(saturated.calc_gas_wait(), 0xFF);
}
