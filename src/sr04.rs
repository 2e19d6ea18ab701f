//! The SR04 ultrasonic range finder: trigger pulse, echo timing and the
//! conversion of echo delay into distance.
use vstd::prelude::*;
use crate::plan::{Op, Record, SensorError};
use crate::registry::Registry;

verus! {

/// Length of the trigger pulse, in milliseconds.
pub const TRIGGER_PULSE_MS: u32 = 10;
/// Speed of sound, in metres per second.
pub const SOUND_SPEED_M_PER_S: i128 = 340;
/// Ticks of the free-running timer per microsecond.
pub const TICKS_PER_US: i128 = 10;

/// The operations of one measurement: a trigger pulse, a timer sample right
/// after it, a wait for the echo, and a timer sample when the echo arrives.
pub open spec fn distance_plan_spec() -> Seq<Op> {
    seq![
        Op::SetTrigger(true),
        Op::WaitMs(TRIGGER_PULSE_MS),
        Op::SetTrigger(false),
        Op::SampleTimer,
        Op::AwaitEcho,
        Op::SampleTimer,
    ]
}

/// Distance to the obstacle in micrometres for an echo that arrived
/// `t1 - t0` timer ticks after the pulse: `speed * (t1 - t0) / (2 * ticks per µs)`,
/// since the sound travels there and back.
pub open spec fn distance_um_spec(t0: u64, t1: u64) -> int {
    SOUND_SPEED_M_PER_S * (t1 - t0) / (2 * TICKS_PER_US)
}

/// The distance from a pair of timer samples, in micrometres.
pub fn echo_distance_um(t0: u64, t1: u64) -> (r: i128)
    ensures
        r as int == distance_um_spec(t0, t1),
{
    let dt: i128 = t1 as i128 - t0 as i128;
    let num: i128 = SOUND_SPEED_M_PER_S * dt;
    let r: i128 = num / (2 * TICKS_PER_US);
    proof {
        let k = 2 * TICKS_PER_US;
        assert(num == k * (17 * dt));
        vstd::arithmetic::div_mod::lemma_div_multiples_vanish(17 * dt as int, k as int);
        vstd::arithmetic::div_mod::lemma_div_multiples_vanish(-17 * dt as int, k as int);
        assert(-num == k * (-17 * dt));
    }
    r
}

impl<D, L, T, E, B> Registry<D, L, T, E, B> {
    /// Everything a distance measurement needs is installed: the trigger and
    /// echo lines and the delay timer.
    pub open spec fn distance_ready(&self) -> bool {
        self.trigger.is_some() && self.echo.is_some() && self.delay.is_some()
    }

    /// The operations of one measurement; none unless the trigger and echo
    /// lines and the delay timer are all installed.
    pub fn distance_plan(&self) -> (r: Vec<Op>)
        ensures
            self.distance_ready() ==> r@ == distance_plan_spec(),
            !self.distance_ready() ==> r@.len() == 0,
    {
        let mut r: Vec<Op> = Vec::new();
        if self.trigger.is_some() && self.echo.is_some() && self.delay.is_some() {
            r.push(Op::SetTrigger(true));
            r.push(Op::WaitMs(TRIGGER_PULSE_MS));
            r.push(Op::SetTrigger(false));
            r.push(Op::SampleTimer);
            r.push(Op::AwaitEcho);
            r.push(Op::SampleTimer);
        }
        r
    }

    /// The distance, in micrometres, from what performing the measurement
    /// plan recorded; unavailable whenever a line or the timer is missing,
    /// whatever else the registry holds.
    pub fn distance_from(&self, rec: &Record) -> (r: Result<i128, SensorError>)
        ensures
            !self.distance_ready() ==> r == Err::<i128, SensorError>(SensorError::ResourceUnavailable),
            self.distance_ready() && rec.samples@.len() < 2 ==> r == Err::<i128, SensorError>(
                SensorError::MissingResponse,
            ),
            self.distance_ready() && rec.samples@.len() >= 2 ==> r is Ok && r->Ok_0 as int
                == distance_um_spec(rec.samples@[0], rec.samples@[1]),
    {
        if !(self.trigger.is_some() && self.echo.is_some() && self.delay.is_some()) {
            return Err(SensorError::ResourceUnavailable);
        }
        if rec.samples.len() < 2 {
            return Err(SensorError::MissingResponse);
        }
        Ok(echo_distance_um(rec.samples[0], rec.samples[1]))
    }
}

} // verus!
