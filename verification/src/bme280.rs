//! The BME280 driver object, its registers, its readings and its errors.
//!
//! Datasheet sections: 5.3 memory map, 5.4 register descriptions, 4.2.2
//! trimming parameter readout, 4.2.3 compensation formulas, 6.2 I2C address.

use vstd::prelude::*;

use crate::bits::{lemma_adc16_packing, lemma_adc20_packing};
use crate::calibration::CalibData;
use crate::compensation::{
    humidity_spec,
    pressure_spec,
    temperature_spec,
    try_compensate_humidity,
    try_compensate_pressure,
    try_compensate_temperature,
    ADC_16_LIMIT,
    lemma_humidity_at_most_full_scale,
    ADC_20_LIMIT,
    T_FINE_BOUND,
};

verus! {

/// I2C address of the sensor (SDO tied to GND).
pub const BME280_ADDR: u8 = 0x76;

/// Register addresses.
pub const REG_CHIP_ID: u8 = 0xd0;

pub const REG_RESET: u8 = 0xe0;

pub const REG_CTRL_HUM: u8 = 0xf2;

pub const REG_STATUS: u8 = 0xf3;

pub const REG_CTRL_MEAS: u8 = 0xf4;

pub const REG_CONFIG: u8 = 0xf5;

/// First of the 8 data registers (pressure, temperature, humidity).
pub const REG_DATA_START: u8 = 0xf7;

/// Number of data registers read per measurement.
pub const DATA_LEN: usize = 8;

/// Calibration register blocks: T1..P9 (24 bytes), H1 (1 byte), H2..H6 (7 bytes).
pub const REG_CALIB_TP: u8 = 0x88;

pub const REG_CALIB_H1: u8 = 0xa1;

pub const REG_CALIB_H2: u8 = 0xe1;

/// Value of the chip id register of a BME280.
pub const CHIP_ID: u8 = 0x60;

/// `ctrl_meas` value that starts one forced measurement: temperature and
/// pressure oversampling x1, forced mode (0b001_001_01).
pub const CTRL_MEAS_FORCED: u8 = 0x25;

/// Bit of the status register that is set while a conversion runs.
pub const STATUS_MEASURING: u8 = 0x08;

/// Pause between two polls of the status register, in milliseconds.
pub const POLL_INTERVAL_MS: u64 = 10;

/// One compensated measurement.
#[derive(Clone, Copy, Debug, PartialEq, Eq)]
pub struct Reading {
    /// Centidegrees Celsius (2345 = 23.45 C).
    pub temperature_cdeg: i32,
    /// Pascals.
    pub pressure_pa: u32,
    /// Percent relative humidity times 100 (5432 = 54.32 %RH).
    pub humidity_pct: u32,
}

#[derive(Debug)]
pub enum Error<E> {
    /// The bus transfer failed.
    I2c(E),
    /// The chip id register did not hold the BME280 id; it held this value.
    BadChipId(u8),
    /// A measurement was requested before the calibration data was read.
    NotInitialized,
}

impl<E> From<E> for Error<E> {
    fn from(e: E) -> (r: Self) {
        Error::I2c(e)
    }
}

impl<E> vstd::std_specs::convert::FromSpecImpl<E> for Error<E> {
    open spec fn obeys_from_spec() -> bool {
        true
    }

    open spec fn from_spec(v: E) -> Self {
        Error::I2c(v)
    }
}

/// The driver: the bus it talks over and, once initialised, the sensor's
/// calibration data.
pub struct Bme280<I2C> {
    i2c: I2C,
    calib: CalibSlot,
}

/// Where the driver keeps its calibration data.
struct CalibSlot {
    value: Option<CalibData>,
}

impl CalibSlot {
    /// Calibration data held by a driver always comes from the registers.
    #[verifier::type_invariant]
    spec fn inv(&self) -> bool {
        self.value matches Some(c) ==> c.wf()
    }
}

impl<I2C> View for Bme280<I2C> {
    /// The calibration data the driver holds, if any.
    type V = Option<CalibData>;

    closed spec fn view(&self) -> Option<CalibData> {
        self.calib.value
    }
}

impl<I2C> Bme280<I2C> {

    /// The bus the driver talks over.
    pub closed spec fn bus_spec(&self) -> I2C {
        self.i2c
    }

    /// A driver that has not read the calibration data yet.
    pub fn new(i2c: I2C) -> (s: Self)
        ensures
            s@ is None,
            s.bus_spec() == i2c,
    {
        Self { i2c, calib: CalibSlot { value: None } }
    }

    /// The bus, for performing the transfers the driver asks for.
    pub fn bus(&mut self) -> (b: &mut I2C)
        ensures
            *b == old(self).bus_spec(),
            final(self).bus_spec() == *final(b),
            final(self)@ == old(self)@,
    {
        &mut self.i2c
    }

    /// The calibration data the driver holds, if any.
    pub fn calibration(&self) -> (c: Option<CalibData>)
        ensures
            c == self@,
            c matches Some(d) ==> d.wf(),
    {
        proof {
            use_type_invariant(&self.calib);
        }
        self.calib.value
    }

    /// Stores calibration data read from the sensor.
    pub(crate) fn set_calibration(&mut self, c: CalibData)
        requires
            c.wf(),
        ensures
            final(self)@ == Some(c),
            final(self).bus_spec() == old(self).bus_spec(),
    {
        self.calib = CalibSlot { value: Some(c) };
    }

    /// Temperature compensation: `(t_fine, centidegrees)`.
    pub fn compensate_temperature(calib: &CalibData, adc_t: i32) -> (r: (i32, i32))
        requires
            0 <= adc_t < ADC_20_LIMIT,
            temperature_spec(*calib, adc_t as int) is Some,
        ensures
            temperature_spec(*calib, adc_t as int) == Some(r),
            -T_FINE_BOUND <= r.0 <= T_FINE_BOUND,
    {
        try_compensate_temperature(calib, adc_t).unwrap()
    }

    /// Pressure compensation, in pascals.
    pub fn compensate_pressure(calib: &CalibData, t_fine: i32, adc_p: i32) -> (r: u32)
        requires
            -T_FINE_BOUND <= t_fine <= T_FINE_BOUND,
            0 <= adc_p < ADC_20_LIMIT,
            pressure_spec(*calib, t_fine as int, adc_p as int) is Some,
        ensures
            pressure_spec(*calib, t_fine as int, adc_p as int) == Some(r),
    {
        try_compensate_pressure(calib, t_fine, adc_p).unwrap()
    }

    /// Humidity compensation, in hundredths of a percent.
    pub fn compensate_humidity(calib: &CalibData, t_fine: i32, adc_h: i32) -> (r: u32)
        requires
            calib.wf(),
            -T_FINE_BOUND <= t_fine <= T_FINE_BOUND,
            0 <= adc_h < ADC_16_LIMIT,
            humidity_spec(*calib, t_fine as int, adc_h as int) is Some,
        ensures
            humidity_spec(*calib, t_fine as int, adc_h as int) == Some(r),
            r <= 10000,
    {
        try_compensate_humidity(calib, t_fine, adc_h).unwrap()
    }
}

/// A 20-bit sample stored as bits [19:12], [11:4] and, in the high nibble of
/// the third byte, [3:0].
pub open spec fn adc20(msb: u8, lsb: u8, xlsb: u8) -> int {
    msb * 4096 + lsb * 16 + xlsb / 16
}

/// A 16-bit big-endian sample.
pub open spec fn adc16(msb: u8, lsb: u8) -> int {
    msb * 256 + lsb
}

/// The raw samples `(adc_p, adc_t, adc_h)` in the 8 data registers.
pub open spec fn samples_spec(buf: Seq<u8>) -> (int, int, int) {
    (adc20(buf[0], buf[1], buf[2]), adc20(buf[3], buf[4], buf[5]), adc16(buf[6], buf[7]))
}

/// Splits the 8 data registers into the raw pressure, temperature and
/// humidity samples.
pub fn unpack_samples(buf: &[u8; 8]) -> (r: (i32, i32, i32))
    ensures
        (r.0 as int, r.1 as int, r.2 as int) == samples_spec(buf@),
        0 <= r.0 < ADC_20_LIMIT,
        0 <= r.1 < ADC_20_LIMIT,
        0 <= r.2 < ADC_16_LIMIT,
{
    let (b0, b1, b2, b3, b4, b5, b6, b7) = (
        buf[0],
        buf[1],
        buf[2],
        buf[3],
        buf[4],
        buf[5],
        buf[6],
        buf[7],
    );
    proof {
        lemma_adc20_packing(b0, b1, b2);
        lemma_adc20_packing(b3, b4, b5);
        lemma_adc16_packing(b6, b7);
    }
    let adc_p = ((b0 as i32) << 12) | ((b1 as i32) << 4) | ((b2 as i32) >> 4);
    let adc_t = ((b3 as i32) << 12) | ((b4 as i32) << 4) | ((b5 as i32) >> 4);
    let adc_h = ((b6 as i32) << 8) | (b7 as i32);
    (adc_p, adc_t, adc_h)
}

/// The reading that the data registers `buf` give with calibration `c`, or
/// `None` where one of the compensation formulas overflows.
pub open spec fn reading_spec(c: CalibData, buf: Seq<u8>) -> Option<Reading> {
    let (adc_p, adc_t, adc_h) = samples_spec(buf);
    match temperature_spec(c, adc_t) {
        Some((t_fine, temperature_cdeg)) => match (
            pressure_spec(c, t_fine as int, adc_p),
            humidity_spec(c, t_fine as int, adc_h),
        ) {
            (Some(pressure_pa), Some(humidity_pct)) => Some(
                Reading { temperature_cdeg, pressure_pa, humidity_pct },
            ),
            _ => None,
        },
        None => None,
    }
}

/// Compensates the 8 data registers into a reading.
pub fn compute_reading(calib: &CalibData, buf: &[u8; 8]) -> (r: Option<Reading>)
    requires
        calib.wf(),
    ensures
        r == reading_spec(*calib, buf@),
        r matches Some(reading) ==> reading.humidity_pct <= 10000,
{
    let (adc_p, adc_t, adc_h) = unpack_samples(buf);
    let (t_fine, temperature_cdeg) = match try_compensate_temperature(calib, adc_t) {
        Some(t) => t,
        None => return None,
    };
    let pressure_pa = match try_compensate_pressure(calib, t_fine, adc_p) {
        Some(p) => p,
        None => return None,
    };
    let humidity_pct = match try_compensate_humidity(calib, t_fine, adc_h) {
        Some(h) => h,
        None => return None,
    };
    Some(Reading { temperature_cdeg, pressure_pa, humidity_pct })
}

/// No reading reports more than 100.00 %RH.
pub proof fn lemma_reading_humidity_at_most_full_scale(c: CalibData, buf: Seq<u8>)
    ensures
        reading_spec(c, buf) matches Some(r) ==> r.humidity_pct <= 10000,
{
    let (adc_p, adc_t, adc_h) = samples_spec(buf);
    if let Some((t_fine, _)) = temperature_spec(c, adc_t) {
        lemma_humidity_at_most_full_scale(c, t_fine as int, adc_h);
    }
}

/// The data registers hold, in order, pressure (bytes 0..2), temperature
/// (bytes 3..5), each as bits [19:12], [11:4] and the high nibble [3:0], and
/// humidity (bytes 6..7) big-endian. Each sample is below its full scale, and
/// the low nibble of the third byte of a 20-bit sample is not part of it.
pub proof fn lemma_sample_layout(buf: Seq<u8>)
    requires
        buf.len() == 8,
    ensures
        samples_spec(buf).0 == buf[0] * 4096 + buf[1] * 16 + buf[2] / 16,
        samples_spec(buf).1 == buf[3] * 4096 + buf[4] * 16 + buf[5] / 16,
        samples_spec(buf).2 == buf[6] * 256 + buf[7],
        0 <= samples_spec(buf).0 < 0x10_0000,
        0 <= samples_spec(buf).1 < 0x10_0000,
        0 <= samples_spec(buf).2 < 0x1_0000,
        samples_spec(buf).0 / 16 == buf[0] * 256 + buf[1],
        samples_spec(buf).0 % 16 == buf[2] / 16,
{
}

/// A reading is the three compensations of the samples in the data
/// registers, pressure and humidity both at the `t_fine` of the temperature
/// compensation; there is a reading exactly when all three have a result.
pub proof fn lemma_reading_composition(c: CalibData, buf: Seq<u8>)
    requires
        buf.len() == 8,
    ensures
        ({
            let adc_p = buf[0] * 4096 + buf[1] * 16 + buf[2] / 16;
            let adc_t = buf[3] * 4096 + buf[4] * 16 + buf[5] / 16;
            let adc_h = buf[6] * 256 + buf[7];
            &&& reading_spec(c, buf) is Some <==> (temperature_spec(c, adc_t) matches Some(
                (t_fine, _),
            ) && pressure_spec(c, t_fine as int, adc_p) is Some && humidity_spec(
                c,
                t_fine as int,
                adc_h,
            ) is Some)
            &&& reading_spec(c, buf) matches Some(r) ==> {
                &&& temperature_spec(c, adc_t) matches Some((t_fine, cdeg))
                &&& r.temperature_cdeg == cdeg
                &&& pressure_spec(c, t_fine as int, adc_p) == Some(r.pressure_pa)
                &&& humidity_spec(c, t_fine as int, adc_h) == Some(r.humidity_pct)
            }
        }),
{
}

/// A bus error converts into the driver error that carries it.
pub proof fn lemma_bus_error_converts<E>(e: E)
    ensures
        <Error<E> as vstd::std_specs::convert::FromSpec<E>>::from_spec(e) == Error::I2c(e),
{
}

} // verus!
