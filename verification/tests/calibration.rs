use esp_c3_nostd_examples::calibration::CalibData;

const TP: [u8; 24] = [
    0x70, 0x6b, 0x43, 0x67, 0x18, 0xfc, 0x7d, 0x8e, 0x43, 0xd6, 0xd0, 0x0b, 0x27, 0x0b, 0x8c, 0x00,
    0xf9, 0xff, 0x8c, 0x3c, 0xf8, 0xc6, 0x70, 0x17,
];

#[test]
fn registers_decode_into_parameters() {
    let h = [0x6a, 0x01, 0x00, 0x13, 0x29, 0x03, 0x1e];
    let c = CalibData::from_registers(&TP, 75, &h);
    assert_eq!(
        c,
        CalibData {
            dig_t1: 27504,
            dig_t2: 26435,
            dig_t3: -1000,
            dig_p1: 36477,
            dig_p2: -10685,
            dig_p3: 3024,
            dig_p4: 2855,
            dig_p5: 140,
            dig_p6: -7,
            dig_p7: 15500,
            dig_p8: -14600,
            dig_p9: 6000,
            dig_h1: 75,
            dig_h2: 362,
            dig_h3: 0,
            dig_h4: 313,
            dig_h5: 50,
            dig_h6: 30,
        }
    );
}

#[test]
fn packed_humidity_parameters_are_sign_extended() {
    let h = [0x00, 0x80, 0xc8, 0xff, 0xff, 0x80, 0xff];
    let c = CalibData::from_registers(&[0u8; 24], 0, &h);
    assert_eq!(c.dig_h2, -32768);
    assert_eq!(c.dig_h3, 0xc8);
    assert_eq!(c.dig_h4, -1);
    assert_eq!(c.dig_h5, -2033);
    assert_eq!(c.dig_h6, -1);
}

#[test]
fn packed_humidity_parameters_at_their_extremes() {
    let h = [0x00, 0x00, 0x00, 0x7f, 0x0f, 0x80, 0x7f];
    let c = CalibData::from_registers(&[0u8; 24], 0, &h);
    assert_eq!(c.dig_h4, 2047);
    assert_eq!(c.dig_h5, -2048);
    assert_eq!(c.dig_h6, 127);
}
