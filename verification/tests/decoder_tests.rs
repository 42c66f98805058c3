//! The calibration decoder against a fixed coefficient block.

use bosch_bme680::extract_calibration_data;

/// A coefficient block laid out as the device serves it: three register
/// ranges end to end, 16-bit values low byte first, the first two
/// humidity coefficients packed across a nibble boundary, the two
/// correction fields cut out of status bytes.
fn fixture_block() -> [u8; 42] {
    let mut b: [u8; 42] = [0xAA; 42];
    b[0] = 0xE3; // par_t2 low
    b[1] = 0x66; // par_t2 high
    b[2] = 3; // par_t3
    b[4] = 0x0B; // par_p1 low
    b[5] = 0x8E; // par_p1 high
    b[6] = 0x3B; // par_p2 low
    b[7] = 0xD7; // par_p2 high
    b[8] = 0x58; // par_p3
    b[10] = 0xE0; // par_p4 low
    b[11] = 0x1C; // par_p4 high
    b[12] = 0x8C; // par_p5 low
    b[13] = 0xFF; // par_p5 high
    b[14] = 45; // par_p7
    b[15] = 30; // par_p6
    b[18] = 0xEE; // par_p8 low
    b[19] = 0xF3; // par_p8 high
    b[20] = 0x0A; // par_p9 low
    b[21] = 0xF7; // par_p9 high
    b[22] = 30; // par_p10
    b[23] = 0x3F; // par_h2 high byte
    b[24] = 0xD2; // par_h2 high nibble, par_h1 low nibble
    b[25] = 0x2C; // par_h1 high byte
    b[26] = 0; // par_h3
    b[27] = 45; // par_h4
    b[28] = 20; // par_h5
    b[29] = 120; // par_h6
    b[30] = 156; // par_h7 (-100)
    b[31] = 0x0E; // par_t1 low
    b[32] = 0x66; // par_t1 high
    b[33] = 0xAF; // par_gh2 low
    b[34] = 0xE8; // par_gh2 high
    b[35] = 0xE2; // par_gh1 (-30)
    b[36] = 18; // par_gh3
    b[37] = 46; // res_heat_val
    b[39] = 0x12; // res_heat_range in bits 5:4
    b[41] = 0x04; // range_sw_err in the high nibble
    b
}

#[test]
fn decodes_reference_dump_field_for_field() {
    let c = extract_calibration_data(fixture_block());
    assert_eq!(c.par_t1, 26126);
    assert_eq!(c.par_t2, 26339);
    assert_eq!(c.par_t3, 3);
    assert_eq!(c.par_p1, 36363);
    assert_eq!(c.par_p2, -10437);
    assert_eq!(c.par_p3, 88);
    assert_eq!(c.par_p4, 7392);
    assert_eq!(c.par_p5, -116);
    assert_eq!(c.par_p6, 30);
    assert_eq!(c.par_p7, 45);
    assert_eq!(c.par_p8, -3090);
    assert_eq!(c.par_p9, -2294);
    assert_eq!(c.par_p10, 30);
    assert_eq!(c.par_h1, 706);
    assert_eq!(c.par_h2, 1021);
    assert_eq!(c.par_h3, 0);
    assert_eq!(c.par_h4, 45);
    assert_eq!(c.par_h5, 20);
    assert_eq!(c.par_h6, 120);
    assert_eq!(c.par_h7, -100);
    assert_eq!(c.par_gh1, -30);
    assert_eq!(c.par_gh2, -5969);
    assert_eq!(c.par_gh3, 18);
    assert_eq!(c.res_heat_range, 1);
    assert_eq!(c.res_heat_val, 46);
    assert_eq!(c.range_sw_err, 0);
}

#[test]
fn decoding_is_deterministic() {
    let a = extract_calibration_data(fixture_block());
    let b = extract_calibration_data(fixture_block());
    assert_eq!(a, b);
}

#[test]
fn nibble_packing_splits_the_shared_byte() {
    // par_h1 takes the low nibble of the shared byte, par_h2 its high
    // nibble; changing one nibble must move exactly one coefficient.
    let mut block = fixture_block();
    block[24] = 0x25;
    let c = extract_calibration_data(block);
    assert_eq!(c.par_h1, 44 * 16 + 5);
    assert_eq!(c.par_h2, 63 * 16 + 2);
}

#[test]
fn correction_fields_are_masked_and_shifted() {
    let mut block = fixture_block();
    block[39] = 0xFF; // bits 5:4 are 0b11
    block[41] = 0x9C; // high nibble 0x9, read as a signed nibble: -7
    let c = extract_calibration_data(block);
    assert_eq!(c.res_heat_range, 3);
    assert_eq!(c.range_sw_err, -7);
}
