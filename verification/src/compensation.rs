//! Fixed-point compensation formulas of the BME280 (datasheet 4.2.3).
//!
//! Each formula is stated over mathematical integers, with every right shift
//! read as floor division by a power of two and every left shift as
//! multiplication by one. The formulas are computed in `i32` (temperature,
//! humidity) or `i64` (pressure); where one of their additions, subtractions,
//! multiplications or divisions leaves that word, the computation has no
//! result (`None`): plain machine arithmetic would overflow there.

use vstd::prelude::*;

use crate::bits::{lemma_i32_shl, lemma_i32_shr, lemma_i64_shl, lemma_i64_shr, lemma_mul_magnitude, lemma_u64_shr_22};
use crate::calibration::CalibData;

verus! {

/// Raw 20-bit temperature and pressure samples lie in `0 .. ADC_20_LIMIT`.
pub const ADC_20_LIMIT: i32 = 0x10_0000;

/// Raw 16-bit humidity samples lie in `0 .. ADC_16_LIMIT`.
pub const ADC_16_LIMIT: i32 = 0x1_0000;

/// Bound on the magnitude of every `t_fine` that the temperature formula
/// produces.
pub const T_FINE_BOUND: i32 = 1179648;

pub open spec fn in_i32(x: int) -> bool {
    i32::MIN <= x <= i32::MAX
}

pub open spec fn in_i64(x: int) -> bool {
    i64::MIN <= x <= i64::MAX
}

/// Temperature compensation: `Some((t_fine, centidegrees))`, or `None` where
/// an intermediate value leaves `i32`.
pub open spec fn temperature_spec(c: CalibData, adc_t: int) -> Option<(i32, i32)> {
    let d1 = adc_t / 8 - 2 * c.dig_t1;
    let p1 = d1 * c.dig_t2;
    let d2 = adc_t / 16 - c.dig_t1;
    let sq = d2 * d2;
    let p2 = (sq / 4096) * c.dig_t3;
    let t_fine = p1 / 2048 + p2 / 16384;
    let t5 = t_fine * 5;
    let t5r = t5 + 128;
    if in_i32(d1) && in_i32(p1) && in_i32(d2) && in_i32(sq) && in_i32(p2) && in_i32(t_fine)
        && in_i32(t5) && in_i32(t5r) {
        Some((t_fine as i32, (t5r / 256) as i32))
    } else {
        None
    }
}

/// Computes `(t_fine, temperature in centidegrees)`, or `None` where the
/// fixed-point computation overflows.
pub fn try_compensate_temperature(calib: &CalibData, adc_t: i32) -> (r: Option<(i32, i32)>)
    requires
        0 <= adc_t < ADC_20_LIMIT,
    ensures
        r == temperature_spec(*calib, adc_t as int),
        r matches Some((t_fine, _)) ==> -T_FINE_BOUND <= t_fine <= T_FINE_BOUND,
{
    proof {
        lemma_i32_shr(adc_t);
        lemma_i32_shl((calib.dig_t1 as i32));
    }
    let d1 = match (adc_t >> 3).checked_sub((calib.dig_t1 as i32) << 1) {
        Some(v) => v,
        None => return None,
    };
    let p1 = match d1.checked_mul(calib.dig_t2 as i32) {
        Some(v) => v,
        None => return None,
    };
    let d2 = match (adc_t >> 4).checked_sub(calib.dig_t1 as i32) {
        Some(v) => v,
        None => return None,
    };
    let sq = match d2.checked_mul(d2) {
        Some(v) => v,
        None => return None,
    };
    proof {
        lemma_i32_shr(sq);
    }
    let p2 = match (sq >> 12).checked_mul(calib.dig_t3 as i32) {
        Some(v) => v,
        None => return None,
    };
    proof {
        lemma_i32_shr(p1);
        lemma_i32_shr(p2);
    }
    let var1 = p1 >> 11;
    let var2 = p2 >> 14;
    let t_fine = match var1.checked_add(var2) {
        Some(v) => v,
        None => return None,
    };
    let t5 = match t_fine.checked_mul(5) {
        Some(v) => v,
        None => return None,
    };
    let t5r = match t5.checked_add(128) {
        Some(v) => v,
        None => return None,
    };
    proof {
        lemma_i32_shr(t5r);
    }
    let temp_cdeg = t5r >> 8;
    Some((t_fine, temp_cdeg))
}

/// Integer division rounding toward zero, as `i64` division does.
pub open spec fn trunc_div(x: int, d: int) -> int {
    if x == 0 {
        0
    } else if x > 0 && d > 0 {
        x / d
    } else if x < 0 && d < 0 {
        (x * -1) / (d * -1)
    } else if x < 0 {
        ((x * -1) / d) * -1
    } else {
        (x / (d * -1)) * -1
    }
}

/// The divisor of the pressure formula (`var1` after its last step); the
/// formula yields 0 Pa where it is 0.
pub open spec fn pressure_divisor(c: CalibData, t_fine: int) -> int {
    let v1 = t_fine - 128000;
    let sq = v1 * v1;
    let e = sq * c.dig_p3;
    let f = v1 * c.dig_p2;
    let v1a = e / 256 + f * 4096;
    let g = 0x8000_0000_0000 + v1a;
    (g * c.dig_p1) / 0x2_0000_0000
}

/// Pressure compensation in pascals, or `None` where an intermediate value
/// leaves `i64`. The formula's last value `res` is pressure in Q24.8 fixed
/// point (256 units per pascal); the result is `res / 256`, rounded down, to
/// 32 bits.
pub open spec fn pressure_spec(c: CalibData, t_fine: int, adc_p: int) -> Option<u32> {
    let v1 = t_fine - 128000;
    let sq = v1 * v1;
    let a = sq * c.dig_p6;
    let b = v1 * c.dig_p5;
    let v2a = a + b * 0x2_0000;
    let v2 = v2a + c.dig_p4 * 0x8_0000_0000;
    let e = sq * c.dig_p3;
    let f = v1 * c.dig_p2;
    let v1a = e / 256 + f * 4096;
    let g = 0x8000_0000_0000 + v1a;
    let h = g * c.dig_p1;
    let v1b = h / 0x2_0000_0000;
    if !(in_i64(v1) && in_i64(sq) && in_i64(a) && in_i64(b) && in_i64(v2a) && in_i64(v2)
        && in_i64(e) && in_i64(f) && in_i64(v1a) && in_i64(g) && in_i64(h)) {
        None
    } else if v1b == 0 {
        Some(0)
    } else {
        let p0 = 0x10_0000 - adc_p;
        let n1 = p0 * 0x8000_0000 - v2;
        let n2 = n1 * 3125;
        let q = trunc_div(n2, v1b);
        let s = q / 8192;
        let m1 = c.dig_p9 * s;
        let m2 = m1 * s;
        let m3 = c.dig_p8 * q;
        let k1 = q + m2 / 0x200_0000;
        let k2 = k1 + m3 / 0x8_0000;
        let res = k2 / 256 + c.dig_p7 * 16;
        if in_i64(p0) && in_i64(n1) && in_i64(n2) && in_i64(q) && in_i64(m1) && in_i64(m2)
            && in_i64(m3) && in_i64(k1) && in_i64(k2) && in_i64(res) {
            Some((res / 256) as u32)
        } else {
            None
        }
    }
}

/// Computes the pressure in pascals, or `None` where the fixed-point
/// computation overflows.
pub fn try_compensate_pressure(calib: &CalibData, t_fine: i32, adc_p: i32) -> (r: Option<u32>)
    requires
        -T_FINE_BOUND <= t_fine <= T_FINE_BOUND,
        0 <= adc_p < ADC_20_LIMIT,
    ensures
        r == pressure_spec(*calib, t_fine as int, adc_p as int),
        r == Some(0u32) <== pressure_divisor(*calib, t_fine as int) == 0 && r is Some,
{
    let p1 = calib.dig_p1 as i64;
    let p2 = calib.dig_p2 as i64;
    let p3 = calib.dig_p3 as i64;
    let p4 = calib.dig_p4 as i64;
    let p5 = calib.dig_p5 as i64;
    let p6 = calib.dig_p6 as i64;
    let p7 = calib.dig_p7 as i64;
    let p8 = calib.dig_p8 as i64;
    let p9 = calib.dig_p9 as i64;
    let var1 = match (t_fine as i64).checked_sub(128000) {
        Some(v) => v,
        None => return None,
    };
    let sq = match var1.checked_mul(var1) {
        Some(v) => v,
        None => return None,
    };
    let a = match sq.checked_mul(p6) {
        Some(v) => v,
        None => return None,
    };
    let b = match var1.checked_mul(p5) {
        Some(v) => v,
        None => return None,
    };
    proof {
        lemma_mul_magnitude(var1 as int, p5 as int, 0x20_0000, 0x8000);
        lemma_i64_shl(b);
        lemma_i64_shl(p4);
        lemma_i64_shl(p7);
    }
    let v2a = match a.checked_add(b << 17) {
        Some(v) => v,
        None => return None,
    };
    let var2 = match v2a.checked_add(p4 << 35) {
        Some(v) => v,
        None => return None,
    };
    let e = match sq.checked_mul(p3) {
        Some(v) => v,
        None => return None,
    };
    let f = match var1.checked_mul(p2) {
        Some(v) => v,
        None => return None,
    };
    proof {
        lemma_mul_magnitude(var1 as int, p2 as int, 0x20_0000, 0x8000);
        lemma_i64_shl(f);
        lemma_i64_shr(e);
    }
    let v1a = match (e >> 8).checked_add(f << 12) {
        Some(v) => v,
        None => return None,
    };
    let g = match (1i64 << 47).checked_add(v1a) {
        Some(v) => v,
        None => return None,
    };
    let h = match g.checked_mul(p1) {
        Some(v) => v,
        None => return None,
    };
    proof {
        lemma_i64_shr(h);
    }
    let var1 = h >> 33;
    if var1 == 0 {
        return Some(0);
    }
    let p0 = match 1048576i64.checked_sub(adc_p as i64) {
        Some(v) => v,
        None => return None,
    };
    proof {
        lemma_i64_shl(p0);
    }
    let n1 = match (p0 << 31).checked_sub(var2) {
        Some(v) => v,
        None => return None,
    };
    let n2 = match n1.checked_mul(3125) {
        Some(v) => v,
        None => return None,
    };
    let p = match n2.checked_div(var1) {
        Some(v) => v,
        None => return None,
    };
    proof {
        lemma_i64_shr(p);
    }
    let s = p >> 13;
    let m1 = match p9.checked_mul(s) {
        Some(v) => v,
        None => return None,
    };
    let m2 = match m1.checked_mul(s) {
        Some(v) => v,
        None => return None,
    };
    let m3 = match p8.checked_mul(p) {
        Some(v) => v,
        None => return None,
    };
    proof {
        lemma_i64_shr(m2);
        lemma_i64_shr(m3);
    }
    let k1 = match p.checked_add(m2 >> 25) {
        Some(v) => v,
        None => return None,
    };
    let k2 = match k1.checked_add(m3 >> 19) {
        Some(v) => v,
        None => return None,
    };
    proof {
        lemma_i64_shr(k2);
    }
    let res = match (k2 >> 8).checked_add(p7 << 4) {
        Some(v) => v,
        None => return None,
    };
    proof {
        lemma_i64_shr(res);
    }
    Some((res >> 8) as u32)
}

/// Upper end of the humidity accumulator: 100 %RH in Q22.10 fixed point.
pub const HUMIDITY_ACC_MAX: i32 = 419430400;

/// Humidity compensation in hundredths of a percent, or `None` where an
/// intermediate value leaves `i32`. The accumulator is clamped to
/// `0 ..= HUMIDITY_ACC_MAX` before scaling.
pub open spec fn humidity_spec(c: CalibData, t_fine: int, adc_h: int) -> Option<u32> {
    let v = t_fine - 76800;
    let a = adc_h * 16384 - c.dig_h4 * 0x10_0000;
    let hv = c.dig_h5 * v;
    let b = a - hv;
    let b_r = b + 16384;
    let d = v * c.dig_h6;
    let f = v * c.dig_h3;
    let g = f / 2048 + 32768;
    let dg = (d / 1024) * g;
    let i = dg / 1024 + 2097152;
    let j = i * c.dig_h2;
    let k = j + 8192;
    let x = (b_r / 32768) * (k / 16384);
    let sq = (x / 32768) * (x / 32768);
    let u = (sq / 128) * c.dig_h1;
    let y = x - u / 16;
    let z = if y < 0 {
        0
    } else if y > HUMIDITY_ACC_MAX {
        HUMIDITY_ACC_MAX as int
    } else {
        y
    };
    if in_i32(v) && in_i32(a) && in_i32(hv) && in_i32(b) && in_i32(b_r) && in_i32(d) && in_i32(f)
        && in_i32(g) && in_i32(dg) && in_i32(i) && in_i32(j) && in_i32(k) && in_i32(x) && in_i32(
        sq,
    ) && in_i32(u) && in_i32(y) {
        Some(((z * 100) / 0x40_0000) as u32)
    } else {
        None
    }
}

/// Computes the relative humidity in hundredths of a percent, or `None` where
/// the fixed-point computation overflows. Every result is at most 10000
/// (100.00 %RH).
pub fn try_compensate_humidity(calib: &CalibData, t_fine: i32, adc_h: i32) -> (r: Option<u32>)
    requires
        calib.wf(),
        -T_FINE_BOUND <= t_fine <= T_FINE_BOUND,
        0 <= adc_h < ADC_16_LIMIT,
    ensures
        r == humidity_spec(*calib, t_fine as int, adc_h as int),
        r matches Some(h) ==> h <= 10000,
{
    let h1 = calib.dig_h1 as i32;
    let h2 = calib.dig_h2 as i32;
    let h3 = calib.dig_h3 as i32;
    let h4 = calib.dig_h4 as i32;
    let h5 = calib.dig_h5 as i32;
    let h6 = calib.dig_h6 as i32;
    let v = match t_fine.checked_sub(76800) {
        Some(v) => v,
        None => return None,
    };
    proof {
        lemma_i32_shl(adc_h);
        lemma_i32_shl(h4);
    }
    let a = match (adc_h << 14).checked_sub(h4 << 20) {
        Some(v) => v,
        None => return None,
    };
    let hv = match h5.checked_mul(v) {
        Some(v) => v,
        None => return None,
    };
    let b = match a.checked_sub(hv) {
        Some(v) => v,
        None => return None,
    };
    let b_r = match b.checked_add(16384) {
        Some(v) => v,
        None => return None,
    };
    let d = match v.checked_mul(h6) {
        Some(v) => v,
        None => return None,
    };
    let f = match v.checked_mul(h3) {
        Some(v) => v,
        None => return None,
    };
    proof {
        lemma_i32_shr(f);
        lemma_i32_shr(d);
    }
    let g = match (f >> 11).checked_add(32768) {
        Some(v) => v,
        None => return None,
    };
    let dg = match (d >> 10).checked_mul(g) {
        Some(v) => v,
        None => return None,
    };
    proof {
        lemma_i32_shr(dg);
    }
    let i = match (dg >> 10).checked_add(2097152) {
        Some(v) => v,
        None => return None,
    };
    let j = match i.checked_mul(h2) {
        Some(v) => v,
        None => return None,
    };
    let k = match j.checked_add(8192) {
        Some(v) => v,
        None => return None,
    };
    proof {
        lemma_i32_shr(b_r);
        lemma_i32_shr(k);
    }
    let x = match (b_r >> 15).checked_mul(k >> 14) {
        Some(v) => v,
        None => return None,
    };
    proof {
        lemma_i32_shr(x);
    }
    let sq = match (x >> 15).checked_mul(x >> 15) {
        Some(v) => v,
        None => return None,
    };
    proof {
        lemma_i32_shr(sq);
    }
    let u = match (sq >> 7).checked_mul(h1) {
        Some(v) => v,
        None => return None,
    };
    proof {
        lemma_i32_shr(u);
    }
    let y = match x.checked_sub(u >> 4) {
        Some(v) => v,
        None => return None,
    };
    let y = y.max(0);
    let y = y.min(HUMIDITY_ACC_MAX);
    let w = y as u64 * 100;
    proof {
        lemma_u64_shr_22(w);
    }
    Some((w >> 22) as u32)
}

/// Every `t_fine` that the temperature formula yields lies within
/// `T_FINE_BOUND` of zero, the domain of the pressure and humidity formulas.
pub proof fn lemma_t_fine_bounded(c: CalibData, adc_t: int)
    ensures
        temperature_spec(c, adc_t) matches Some((t_fine, _)) ==> -T_FINE_BOUND <= t_fine
            <= T_FINE_BOUND,
{
}

/// Relative humidity never exceeds 100.00 %RH.
pub proof fn lemma_humidity_at_most_full_scale(c: CalibData, t_fine: int, adc_h: int)
    ensures
        humidity_spec(c, t_fine, adc_h) matches Some(h) ==> h <= 10000,
{
}

/// The temperature formula reads only the temperature coefficients T1..T3.
pub proof fn lemma_temperature_reads_only_t_coefficients(c1: CalibData, c2: CalibData, adc_t: int)
    requires
        c1.dig_t1 == c2.dig_t1,
        c1.dig_t2 == c2.dig_t2,
        c1.dig_t3 == c2.dig_t3,
    ensures
        temperature_spec(c1, adc_t) == temperature_spec(c2, adc_t),
{
}

/// The pressure formula reads only the pressure coefficients P1..P9; the
/// temperature enters through `t_fine` alone.
pub proof fn lemma_pressure_reads_only_p_coefficients(
    c1: CalibData,
    c2: CalibData,
    t_fine: int,
    adc_p: int,
)
    requires
        c1.dig_p1 == c2.dig_p1,
        c1.dig_p2 == c2.dig_p2,
        c1.dig_p3 == c2.dig_p3,
        c1.dig_p4 == c2.dig_p4,
        c1.dig_p5 == c2.dig_p5,
        c1.dig_p6 == c2.dig_p6,
        c1.dig_p7 == c2.dig_p7,
        c1.dig_p8 == c2.dig_p8,
        c1.dig_p9 == c2.dig_p9,
    ensures
        pressure_spec(c1, t_fine, adc_p) == pressure_spec(c2, t_fine, adc_p),
        pressure_divisor(c1, t_fine) == pressure_divisor(c2, t_fine),
{
}

/// The humidity formula reads only the humidity coefficients H1..H6; the
/// temperature enters through `t_fine` alone.
pub proof fn lemma_humidity_reads_only_h_coefficients(
    c1: CalibData,
    c2: CalibData,
    t_fine: int,
    adc_h: int,
)
    requires
        c1.dig_h1 == c2.dig_h1,
        c1.dig_h2 == c2.dig_h2,
        c1.dig_h3 == c2.dig_h3,
        c1.dig_h4 == c2.dig_h4,
        c1.dig_h5 == c2.dig_h5,
        c1.dig_h6 == c2.dig_h6,
    ensures
        humidity_spec(c1, t_fine, adc_h) == humidity_spec(c2, t_fine, adc_h),
{
}

/// Centidegrees are `t_fine` scaled by 5/256, rounded half up to the nearest
/// integer below, with its sign: `256 * cdeg <= 5 * t_fine + 128 < 256 * cdeg
/// + 256`. So a temperature is negative exactly when `t_fine <= -26`, grows
/// with `t_fine`, and lies within +-230.40 C.
pub proof fn lemma_temperature_scale(c: CalibData, adc_t: int, t_fine: i32, cdeg: i32)
    requires
        temperature_spec(c, adc_t) == Some((t_fine, cdeg)),
    ensures
        256 * cdeg <= 5 * t_fine + 128 < 256 * cdeg + 256,
        cdeg < 0 <==> t_fine <= -26,
        -23040 <= cdeg <= 23040,
{
}

/// Raising `t_fine` never lowers the temperature.
pub proof fn lemma_temperature_monotone(
    c1: CalibData,
    adc1: int,
    c2: CalibData,
    adc2: int,
    t1: i32,
    d1: i32,
    t2: i32,
    d2: i32,
)
    requires
        temperature_spec(c1, adc1) == Some((t1, d1)),
        temperature_spec(c2, adc2) == Some((t2, d2)),
        t1 <= t2,
    ensures
        d1 <= d2,
{
}

/// The datasheet temperature formula: with `T1..T3` and the raw sample,
/// `var1 = floor((floor(adc/8) - 2*T1) * T2 / 2^11)`,
/// `var2 = floor(floor((floor(adc/16) - T1)^2 / 2^12) * T3 / 2^14)`,
/// `t_fine = var1 + var2`; it has a result exactly when the three products
/// fit in 32 bits.
pub proof fn lemma_temperature_formula(c: CalibData, adc_t: int)
    requires
        0 <= adc_t < ADC_20_LIMIT,
    ensures
        ({
            let x1 = (adc_t / 8 - 2 * c.dig_t1) * c.dig_t2;
            let dt = adc_t / 16 - c.dig_t1;
            let x2 = ((dt * dt) / 4096) * c.dig_t3;
            let t_fine = x1 / 2048 + x2 / 16384;
            &&& temperature_spec(c, adc_t) is Some <==> (in_i32(x1) && in_i32(dt * dt) && in_i32(x2))
            &&& temperature_spec(c, adc_t) matches Some((tf, _)) ==> tf == t_fine
        }),
{
}

/// `trunc_div` is division rounding toward zero: the quotient has the sign of
/// `x / d` (or is 0), and `|q * d| <= |x| < |q * d| + |d|`.
pub proof fn lemma_trunc_div(x: int, d: int)
    requires
        d != 0,
    ensures
        ({
            let q = trunc_div(x, d);
            let ax = if x < 0 { -x } else { x };
            let ad = if d < 0 { -d } else { d };
            let aqd = if q * d < 0 { -(q * d) } else { q * d };
            &&& q == 0 || ((q > 0) <==> ((x > 0) == (d > 0)))
            &&& q * d * x >= 0
            &&& aqd <= ax < aqd + ad
        }),
{
    let ax = if x < 0 { -x } else { x };
    let ad = if d < 0 { -d } else { d };
    let m = ax / ad;
    assert(ad * m <= ax < ad * m + ad) by (nonlinear_arith)
        requires
            ad > 0,
            ax >= 0,
            m == ax / ad,
    ;
    assert(m >= 0) by (nonlinear_arith)
        requires
            ad > 0,
            ax >= 0,
            m == ax / ad,
    ;
    let q = trunc_div(x, d);
    if x == 0 {
    } else if x > 0 && d > 0 {
        assert(q == m);
        assert(q * d == ad * m) by (nonlinear_arith)
            requires
                q == m,
                d == ad,
        ;
        assert(q * d * x >= 0) by (nonlinear_arith)
            requires
                q >= 0,
                d > 0,
                x > 0,
        ;
    } else if x < 0 && d < 0 {
        assert(q == m);
        assert(q * d == -(ad * m)) by (nonlinear_arith)
            requires
                q == m,
                d == -ad,
        ;
        assert(q * d * x >= 0) by (nonlinear_arith)
            requires
                q >= 0,
                d < 0,
                x < 0,
        ;
    } else if x < 0 {
        assert((x * -1) / d == m);
        assert(q == -m);
        assert(q * d == -(ad * m)) by (nonlinear_arith)
            requires
                q == -m,
                d == ad,
        ;
        assert(q * d * x >= 0) by (nonlinear_arith)
            requires
                q <= 0,
                d > 0,
                x < 0,
        ;
    } else {
        assert(x / (d * -1) == m);
        assert(q == -m);
        assert(q * d == ad * m) by (nonlinear_arith)
            requires
                q == -m,
                d == -ad,
        ;
        assert(q * d * x >= 0) by (nonlinear_arith)
            requires
                q <= 0,
                d < 0,
                x > 0,
        ;
    }
}

/// The datasheet pressure formula with the signed offset
/// `v1 = t_fine - 128000` (negative below about 25 C):
/// `var2 = v1^2*P6 + v1*P5*2^17 + P4*2^35`,
/// `var1 = floor((2^47 + floor(v1^2*P3 / 2^8) + v1*P2*2^12) * P1 / 2^33)`;
/// 0 Pa where `var1` is 0, otherwise with
/// `p = ((2^20 - adc)*2^31 - var2)*3125 / var1` rounded toward zero,
/// `floor((floor((p + floor(P9*floor(p/2^13)^2 / 2^25) + floor(P8*p / 2^19)) / 2^8)
/// + P7*2^4) / 2^8)` pascals. There is a result exactly when the products and
/// sums that can leave 64 bits on these inputs do not.
pub proof fn lemma_pressure_formula(c: CalibData, t_fine: int, adc_p: int)
    requires
        -T_FINE_BOUND <= t_fine <= T_FINE_BOUND,
        0 <= adc_p < ADC_20_LIMIT,
    ensures
        ({
            let v1 = t_fine - 128000;
            let var2 = v1 * v1 * c.dig_p6 + v1 * c.dig_p5 * 0x2_0000 + c.dig_p4 * 0x8_0000_0000;
            let g = 0x8000_0000_0000 + (v1 * v1 * c.dig_p3) / 256 + v1 * c.dig_p2 * 4096;
            let var1 = (g * c.dig_p1) / 0x2_0000_0000;
            let n = ((0x10_0000 - adc_p) * 0x8000_0000 - var2) * 3125;
            let p = trunc_div(n, var1);
            let w1 = (c.dig_p9 * (p / 8192) * (p / 8192)) / 0x200_0000;
            let w2 = (c.dig_p8 * p) / 0x8_0000;
            let q24_8 = (p + w1 + w2) / 256 + c.dig_p7 * 16;
            let fits = in_i64(g * c.dig_p1) && (var1 == 0 || (in_i64(n) && in_i64(p) && in_i64(
                c.dig_p9 * (p / 8192),
            ) && in_i64(c.dig_p9 * (p / 8192) * (p / 8192)) && in_i64(c.dig_p8 * p) && in_i64(
                p + w1,
            ) && in_i64(p + w1 + w2) && in_i64(q24_8)));
            &&& pressure_divisor(c, t_fine) == var1
            &&& pressure_spec(c, t_fine, adc_p) is Some <==> fits
            &&& pressure_spec(c, t_fine, adc_p) matches Some(r) ==> r == (if var1 == 0 {
                0
            } else {
                (q24_8 / 256) as u32
            })
        }),
{
    let v1 = t_fine - 128000;
    let sq = v1 * v1;
    lemma_mul_magnitude(v1, v1, 1307648, 1307648);
    lemma_mul_magnitude(sq, c.dig_p6 as int, 1709943291904int, 32768);
    lemma_mul_magnitude(sq, c.dig_p3 as int, 1709943291904int, 32768);
    lemma_mul_magnitude(v1, c.dig_p5 as int, 1307648, 32768);
    lemma_mul_magnitude(v1, c.dig_p2 as int, 1307648, 32768);
    assert(v1 * v1 * c.dig_p6 == sq * c.dig_p6);
    assert(v1 * v1 * c.dig_p3 == sq * c.dig_p3);
    assert(v1 * c.dig_p5 * 0x2_0000 == (v1 * c.dig_p5) * 0x2_0000);
    assert(v1 * c.dig_p2 * 4096 == (v1 * c.dig_p2) * 4096);
}

/// The datasheet humidity formula with the signed offset
/// `v = t_fine - 76800` (negative below about 15 C), every right shift a floor
/// division, also of negative values:
/// `x = floor((adc*2^14 - H4*2^20 - H5*v + 2^14) / 2^15)
///    * floor(((floor(floor(v*H6 / 2^10) * (floor(v*H3 / 2^11) + 2^15) / 2^10)
///    + 2^21) * H2 + 2^13) / 2^14)`,
/// `y = x - floor(floor(floor(x / 2^15)^2 / 2^7) * H1 / 2^4)`; the result is
/// `y` clamped to `0 ..= 100 %RH` (Q22.10 times 2^12) scaled to hundredths of
/// a percent, rounded down. There is a result exactly when the products and
/// sums that can leave 32 bits on these inputs do not.
pub proof fn lemma_humidity_formula(c: CalibData, t_fine: int, adc_h: int)
    requires
        c.wf(),
        -T_FINE_BOUND <= t_fine <= T_FINE_BOUND,
        0 <= adc_h < ADC_16_LIMIT,
    ensures
        ({
            let v = t_fine - 76800;
            let s1 = adc_h * 16384 - c.dig_h4 * 0x10_0000;
            let s2 = s1 - c.dig_h5 * v;
            let top = (s2 + 16384) / 32768;
            let tt = ((v * c.dig_h6) / 1024) * ((v * c.dig_h3) / 2048 + 32768);
            let s3 = (tt / 1024 + 2097152) * c.dig_h2;
            let x = top * ((s3 + 8192) / 16384);
            let corr = (((x / 32768) * (x / 32768)) / 128) * c.dig_h1;
            let y = x - corr / 16;
            let z = if y < 0 {
                0
            } else if y > 419430400 {
                419430400
            } else {
                y
            };
            let fits = in_i32(s1) && in_i32(c.dig_h5 * v) && in_i32(s2) && in_i32(s2 + 16384)
                && in_i32(tt) && in_i32(s3) && in_i32(s3 + 8192) && in_i32(x) && in_i32(
                (x / 32768) * (x / 32768),
            ) && in_i32(corr) && in_i32(y);
            &&& humidity_spec(c, t_fine, adc_h) is Some <==> fits
            &&& humidity_spec(c, t_fine, adc_h) matches Some(r) ==> r * 0x40_0000 <= z * 100 < (r
                + 1) * 0x40_0000
        }),
{
    let v = t_fine - 76800;
    lemma_mul_magnitude(v, c.dig_h6 as int, 1256448, 128);
    lemma_mul_magnitude(v, c.dig_h3 as int, 1256448, 255);
}

} // verus!
