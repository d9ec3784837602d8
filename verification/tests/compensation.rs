use esp_c3_nostd_examples::bme280::{compute_reading, unpack_samples, Bme280, Reading};
use esp_c3_nostd_examples::calibration::CalibData;
use esp_c3_nostd_examples::compensation::{
    try_compensate_humidity, try_compensate_pressure, try_compensate_temperature,
};

fn sample_calib() -> CalibData {
    CalibData {
        dig_t1: 27504,
        dig_t2: 26435,
        dig_t3: -1000,
        dig_p1: 36477,
        dig_p2: -10685,
        dig_p3: 3024,
        dig_p4: 2855,
        dig_p5: 140,
        dig_p6: -7,
        dig_p7: 15500,
        dig_p8: -14600,
        dig_p9: 6000,
        dig_h1: 75,
        dig_h2: 362,
        dig_h3: 0,
        dig_h4: 313,
        dig_h5: 50,
        dig_h6: 30,
    }
}

const DATA: [u8; 8] = [0x65, 0x5a, 0xc0, 0x7e, 0xed, 0x00, 0x75, 0x30];

#[test]
fn temperature_of_datasheet_sample() {
    let c = sample_calib();
    assert_eq!(try_compensate_temperature(&c, 519888), Some((128422, 2508)));
    assert_eq!(Bme280::<()>::compensate_temperature(&c, 519888), (128422, 2508));
}

#[test]
fn pressure_of_datasheet_sample_in_pascals() {
    let c = sample_calib();
    assert_eq!(try_compensate_pressure(&c, 128422, 415148), Some(100653));
    assert_eq!(Bme280::<()>::compensate_pressure(&c, 128422, 415148), 100653);
}

#[test]
fn humidity_of_samples() {
    let c = sample_calib();
    assert_eq!(try_compensate_humidity(&c, 128422, 30000), Some(5499));
    assert_eq!(try_compensate_humidity(&c, 128422, 28000), Some(4385));
    assert_eq!(Bme280::<()>::compensate_humidity(&c, 128422, 30000), 5499);
}

#[test]
fn humidity_is_clamped_to_full_scale() {
    let c = sample_calib();
    assert_eq!(try_compensate_humidity(&c, 128422, 65535), Some(10000));
}

#[test]
fn humidity_is_clamped_to_zero() {
    let c = sample_calib();
    assert_eq!(try_compensate_humidity(&c, 128422, 0), Some(0));
}

#[test]
fn pressure_is_zero_when_divisor_vanishes() {
    let mut c = sample_calib();
    c.dig_p1 = 0;
    assert_eq!(try_compensate_pressure(&c, 128422, 415148), Some(0));
}

#[test]
fn temperature_overflow_has_no_result() {
    let mut c = sample_calib();
    c.dig_t1 = 0;
    c.dig_t2 = 32767;
    assert_eq!(try_compensate_temperature(&c, 0xf_ffff), None);
}

#[test]
fn pressure_overflow_has_no_result() {
    let mut c = sample_calib();
    c.dig_p1 = 1;
    assert_eq!(try_compensate_pressure(&c, 128422, 415148), None);
}

#[test]
fn humidity_overflow_has_no_result() {
    let mut c = sample_calib();
    c.dig_h4 = -2048;
    assert_eq!(try_compensate_humidity(&c, 128422, 65535), None);
}

#[test]
fn data_registers_unpack_into_samples() {
    assert_eq!(unpack_samples(&DATA), (415148, 519888, 30000));
    assert_eq!(unpack_samples(&[0xff; 8]), (0xf_ffff, 0xf_ffff, 0xffff));
}

#[test]
fn data_registers_compensate_into_reading() {
    let c = sample_calib();
    assert_eq!(
        compute_reading(&c, &DATA),
        Some(Reading { temperature_cdeg: 2508, pressure_pa: 100653, humidity_pct: 5499 })
    );
}

#[test]
fn each_formula_reads_only_its_own_coefficients() {
    let c = sample_calib();
    let mut other = c;
    other.dig_h2 = -5;
    other.dig_p1 = 1;
    other.dig_p9 = 7;
    assert_eq!(try_compensate_temperature(&other, 519888), try_compensate_temperature(&c, 519888));
    let mut other = c;
    other.dig_t1 = 1;
    other.dig_h6 = -3;
    assert_eq!(
        try_compensate_pressure(&other, 128422, 415148),
        try_compensate_pressure(&c, 128422, 415148)
    );
    let mut other = c;
    other.dig_t2 = 9;
    other.dig_p4 = 0;
    assert_eq!(
        try_compensate_humidity(&other, 128422, 30000),
        try_compensate_humidity(&c, 128422, 30000)
    );
}
