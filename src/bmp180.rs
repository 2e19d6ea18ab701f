//! The BMP180 sensor: register map, response decoding and the fixed-point
//! temperature compensation.
use vstd::prelude::*;
use crate::plan::{Op, Record, SensorError};
use crate::registry::Registry;

verus! {

/// Seven-bit bus address of the sensor.
pub const DEVICE_ADDR: u8 = 0x77;
/// Most significant byte of calibration coefficient AC5.
pub const AC5_REG: u8 = 0xB2;
/// Most significant byte of calibration coefficient AC6.
pub const AC6_REG: u8 = 0xB4;
/// Most significant byte of calibration coefficient MC.
pub const MC_REG: u8 = 0xBC;
/// Most significant byte of calibration coefficient MD.
pub const MD_REG: u8 = 0xBE;
/// Measurement control register.
pub const CTRL_MEAS_REG: u8 = 0xF4;
/// Value written to the control register to start a temperature conversion.
pub const TEMP_COMMAND: u8 = 0x2E;
/// Most significant byte of the conversion result.
pub const OUT_MSB_REG: u8 = 0xF6;
/// Least significant byte of the conversion result.
pub const OUT_LSB_REG: u8 = 0xF7;
/// Time a temperature conversion needs, in milliseconds.
pub const CONVERSION_WAIT_MS: u32 = 5;

/// The factory calibration coefficients that temperature compensation uses.
#[derive(Clone, Copy, Debug, PartialEq, Eq, Structural)]
pub struct Coeffs {
    pub ac5: i16,
    pub ac6: i16,
    pub mc: i16,
    pub md: i16,
}

/// The signed 16-bit value whose big-endian two's-complement bytes are `hi`, `lo`.
pub open spec fn word_spec(hi: u8, lo: u8) -> int {
    let u = 256 * hi + lo;
    if u < 0x8000 {
        u
    } else {
        u - 0x10000
    }
}

/// Rust's integer division: the exact quotient rounded toward zero.
pub open spec fn div_toward_zero(a: int, b: int) -> int {
    let q = (if a < 0 { -a } else { a }) / (if b < 0 { -b } else { b });
    if (a < 0) == (b < 0) {
        q
    } else {
        -q
    }
}

/// `x1 = ((raw - ac6) * ac5) >> 15`, the shift rounding toward minus infinity.
pub open spec fn x1_spec(raw: i16, c: Coeffs) -> int {
    ((raw - c.ac6) * c.ac5) / 0x8000
}

/// The divisor `x1 + md` of the second compensation term.
pub open spec fn divisor_spec(raw: i16, c: Coeffs) -> int {
    x1_spec(raw, c) + c.md
}

/// Compensated temperature in tenths of a degree Celsius:
/// `x2 = (mc << 11) / (x1 + md)` rounding toward zero, then `(x1 + x2 + 8) >> 4`.
/// Undefined when the divisor is zero.
pub open spec fn compensate_spec(raw: i16, c: Coeffs) -> Option<int> {
    let x1 = x1_spec(raw, c);
    let d = divisor_spec(raw, c);
    if d == 0 {
        None
    } else {
        let x2 = div_toward_zero(c.mc * 0x800, d);
        Some((x1 + x2 + 8) / 16)
    }
}

/// Euclidean division by a negative divisor negates the division by its magnitude.
proof fn lemma_div_negative_divisor(a: int, b: int)
    requires
        b < 0,
    ensures
        a / b == -(a / (-b)),
{
    assert(a / b == -(a / (-b))) by (nonlinear_arith)
        requires
            b < 0,
    ;
}

/// Assembles a big-endian response into a signed word: `(hi << 8) | lo`.
pub fn word_from_bytes(hi: u8, lo: u8) -> (r: i16)
    ensures
        r as int == word_spec(hi, lo),
{
    let u: u16 = ((hi as u16) << 8u16) | (lo as u16);
    let r: i16 = #[verifier::truncate] (u as i16);
    assert(r as int == (if u < 0x8000 { u as int } else { u - 0x10000 })) by (bit_vector)
        requires
            r == u as i16,
    ;
    assert(u == 256 * hi + lo) by (bit_vector)
        requires
            u == ((hi as u16) << 8u16) | (lo as u16),
    ;
    r
}

/// Temperature in tenths of a degree Celsius from a raw conversion result,
/// by the sensor's fixed-point formula; `None` where its divisor is zero.
pub fn compensate(raw: i16, coeffs: Coeffs) -> (r: Option<i32>)
    ensures
        r.is_some() == compensate_spec(raw, coeffs).is_some(),
        r.is_some() ==> r.unwrap() as int == compensate_spec(raw, coeffs).unwrap(),
{
    let diff: i32 = raw as i32 - coeffs.ac6 as i32;
    let ac5: i32 = coeffs.ac5 as i32;
    assert(-0x8000_0000 < diff * ac5 < 0x8000_0000) by (nonlinear_arith)
        requires
            -0xFFFF <= diff <= 0xFFFF,
            -0x8000 <= ac5 < 0x8000,
    ;
    let prod: i32 = diff * ac5;
    let x1: i32 = prod >> 15u32;
    assert(x1 == prod / 0x8000) by (bit_vector)
        requires
            x1 == prod >> 15u32,
    ;
    assert(-0x10000 <= x1 <= 0x10000);
    let d: i32 = x1 + coeffs.md as i32;
    if d == 0 {
        return None;
    }
    let mc: i32 = coeffs.mc as i32;
    let num: i32 = mc << 11u32;
    assert(num == mc * 0x800) by (bit_vector)
        requires
            -0x8000 <= mc < 0x8000,
            num == mc << 11u32,
    ;
    let x2: i32 = num / d;
    proof {
        if d < 0 {
            lemma_div_negative_divisor(num as int, d as int);
            lemma_div_negative_divisor(-num, d as int);
        }
    }
    assert(x2 == div_toward_zero(num as int, d as int));
    let b: i32 = x1 + x2 + 8;
    let t: i32 = b >> 4u32;
    assert(t == b / 16) by (bit_vector)
        requires
            t == b >> 4u32,
    ;
    Some(t)
}

/// The bus operations that read the calibration: one register query per
/// coefficient, in the order AC5, AC6, MC, MD.
pub open spec fn calibration_plan_spec() -> Seq<Op> {
    seq![Op::QueryRegister(AC5_REG), Op::QueryRegister(AC6_REG), Op::QueryRegister(MC_REG), Op::QueryRegister(MD_REG)]
}

/// The signed word a recorded byte pair holds.
pub open spec fn pair_word(p: (u8, u8)) -> i16 {
    word_spec(p.0, p.1) as i16
}

/// The calibration given whether a bus is installed and the pairs read.
/// Without a bus every register reads as zero.
pub open spec fn calibration_spec(bus: bool, reads: Seq<(u8, u8)>) -> Result<Coeffs, SensorError> {
    if !bus {
        Ok(Coeffs { ac5: 0, ac6: 0, mc: 0, md: 0 })
    } else if reads.len() < 4 {
        Err(SensorError::MissingResponse)
    } else {
        Ok(
            Coeffs {
                ac5: pair_word(reads[0]),
                ac6: pair_word(reads[1]),
                mc: pair_word(reads[2]),
                md: pair_word(reads[3]),
            },
        )
    }
}

/// The bus operations of one temperature conversion: start it, wait for it,
/// then read the result's high byte and its low byte.
pub open spec fn temperature_plan_spec() -> Seq<Op> {
    seq![
        Op::WriteRegister(CTRL_MEAS_REG, TEMP_COMMAND),
        Op::WaitMs(CONVERSION_WAIT_MS),
        Op::SelectRegister(OUT_MSB_REG),
        Op::ReadPair,
        Op::SelectRegister(OUT_LSB_REG),
        Op::ReadPair,
    ]
}

/// The raw conversion result: the first byte of each of the two reads.
pub open spec fn raw_temperature_spec(reads: Seq<(u8, u8)>) -> i16 {
    word_spec(reads[0].0, reads[1].0) as i16
}

impl<D, L, T, E, B> Registry<D, L, T, E, B> {
    /// Everything a temperature reading needs is installed: the bus, the
    /// delay timer and the calibration.
    pub open spec fn temperature_ready(&self) -> bool {
        self.bus.is_some() && self.delay.is_some() && self.coeffs.is_some()
    }

    /// The operations that read the calibration; none without a bus.
    pub fn calibration_plan(&self) -> (r: Vec<Op>)
        ensures
            self.bus.is_some() ==> r@ == calibration_plan_spec(),
            self.bus.is_none() ==> r@.len() == 0,
    {
        let mut r: Vec<Op> = Vec::new();
        if self.bus.is_some() {
            r.push(Op::QueryRegister(AC5_REG));
            r.push(Op::QueryRegister(AC6_REG));
            r.push(Op::QueryRegister(MC_REG));
            r.push(Op::QueryRegister(MD_REG));
        }
        r
    }

    /// The calibration from what performing the calibration plan recorded.
    pub fn calibration_from(&self, rec: &Record) -> (r: Result<Coeffs, SensorError>)
        ensures
            r == calibration_spec(self.bus.is_some(), rec.reads@),
    {
        if self.bus.is_none() {
            return Ok(Coeffs { ac5: 0, ac6: 0, mc: 0, md: 0 });
        }
        if rec.reads.len() < 4 {
            return Err(SensorError::MissingResponse);
        }
        let ac5 = word_from_bytes(rec.reads[0].0, rec.reads[0].1);
        let ac6 = word_from_bytes(rec.reads[1].0, rec.reads[1].1);
        let mc = word_from_bytes(rec.reads[2].0, rec.reads[2].1);
        let md = word_from_bytes(rec.reads[3].0, rec.reads[3].1);
        Ok(Coeffs { ac5, ac6, mc, md })
    }

    /// The operations of one temperature reading; none unless the bus, the
    /// delay timer and the calibration are all installed.
    pub fn temperature_plan(&self) -> (r: Vec<Op>)
        ensures
            self.temperature_ready() ==> r@ == temperature_plan_spec(),
            !self.temperature_ready() ==> r@.len() == 0,
    {
        let mut r: Vec<Op> = Vec::new();
        if self.bus.is_some() && self.delay.is_some() && self.coeffs.is_some() {
            r.push(Op::WriteRegister(CTRL_MEAS_REG, TEMP_COMMAND));
            r.push(Op::WaitMs(CONVERSION_WAIT_MS));
            r.push(Op::SelectRegister(OUT_MSB_REG));
            r.push(Op::ReadPair);
            r.push(Op::SelectRegister(OUT_LSB_REG));
            r.push(Op::ReadPair);
        }
        r
    }

    /// The temperature, in tenths of a degree Celsius, from what performing
    /// the temperature plan recorded.
    pub fn temperature_from(&self, rec: &Record) -> (r: Result<i32, SensorError>)
        ensures
            !self.temperature_ready() ==> r == Err::<i32, SensorError>(SensorError::ResourceUnavailable),
            self.temperature_ready() && rec.reads@.len() < 2 ==> r == Err::<i32, SensorError>(
                SensorError::MissingResponse,
            ),
            self.temperature_ready() && rec.reads@.len() >= 2 ==> ({
                let t = compensate_spec(raw_temperature_spec(rec.reads@), self.coeffs.unwrap());
                &&& t is None ==> r == Err::<i32, SensorError>(SensorError::DegenerateCalibration)
                &&& t is Some ==> r is Ok && r->Ok_0 as int == t->Some_0
            }),
    {
        if !(self.bus.is_some() && self.delay.is_some()) {
            return Err(SensorError::ResourceUnavailable);
        }
        let coeffs = match self.coeffs {
            Some(c) => c,
            None => {
                return Err(SensorError::ResourceUnavailable);
            },
        };
        if rec.reads.len() < 2 {
            return Err(SensorError::MissingResponse);
        }
        let raw = word_from_bytes(rec.reads[0].0, rec.reads[1].0);
        match compensate(raw, coeffs) {
            Some(t) => Ok(t),
            None => Err(SensorError::DegenerateCalibration),
        }
    }
}

/// Reading the calibration is deterministic: two registries that agree on
/// whether a bus is installed plan the same reads, and the same responses give
/// the same coefficients.
pub proof fn calibration_is_deterministic<D, L, T, E, B>(
    a: Registry<D, L, T, E, B>,
    b: Registry<D, L, T, E, B>,
    reads_a: Seq<(u8, u8)>,
    reads_b: Seq<(u8, u8)>,
)
    requires
        a.bus.is_some() == b.bus.is_some(),
        reads_a == reads_b,
    ensures
        calibration_spec(a.bus.is_some(), reads_a) == calibration_spec(b.bus.is_some(), reads_b),
        a.bus.is_some() && reads_a.len() >= 4 ==> calibration_spec(a.bus.is_some(), reads_a) is Ok,
{
}

} // verus!
