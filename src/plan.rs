//! Hardware operations as plain values. The library decides which operations
//! a request needs and what their results mean; the caller that owns the
//! hardware performs them in order and records what came back.
use vstd::prelude::*;

verus! {

/// One step of hardware work.
#[derive(Clone, Copy, Debug, PartialEq, Eq, Structural)]
pub enum Op {
    /// Write `value` into sensor register `reg`: the bus write `[reg, value]`.
    WriteRegister(u8, u8),
    /// Point the sensor at register `reg`: the bus write `[reg]`.
    SelectRegister(u8),
    /// Read two bytes from the sensor and record them.
    ReadPair,
    /// Write register address `reg`, then read two bytes in the same
    /// transaction and record them.
    QueryRegister(u8),
    /// Block for the given number of milliseconds.
    WaitMs(u32),
    /// Drive the range finder's trigger line high (`true`) or low (`false`).
    SetTrigger(bool),
    /// Record the free-running timer's current tick count.
    SampleTimer,
    /// Poll the range finder's echo line until it reads high.
    AwaitEcho,
    /// Invert the indicator LED.
    ToggleIndicator,
}

/// What performing a plan handed back: the byte pairs of `ReadPair` and
/// `QueryRegister`, and the tick counts of `SampleTimer`, each in order.
pub struct Record {
    pub reads: Vec<(u8, u8)>,
    pub samples: Vec<u64>,
}

/// Why a request produced no reading.
#[derive(Clone, Copy, Debug, PartialEq, Eq, Structural)]
pub enum SensorError {
    /// A handle the request needs has not been installed.
    ResourceUnavailable,
    /// The record holds fewer results than the request's plan produces.
    MissingResponse,
    /// The calibration coefficients make the compensation divide by zero.
    DegenerateCalibration,
}

impl Record {
    /// A record with nothing in it yet.
    pub fn new() -> (r: Record)
        ensures
            r.reads@.len() == 0,
            r.samples@.len() == 0,
    {
        Record { reads: Vec::new(), samples: Vec::new() }
    }
}

} // verus!
