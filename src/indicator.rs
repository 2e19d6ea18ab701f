//! The indicator LED.
use vstd::prelude::*;
use crate::plan::Op;
use crate::registry::Registry;

verus! {

/// How long a blink keeps the LED inverted, in milliseconds.
pub const BLINK_MS: u32 = 50;

/// The operations of a blink: invert the LED, wait, invert it back.
pub open spec fn blink_plan_spec() -> Seq<Op> {
    seq![Op::ToggleIndicator, Op::WaitMs(BLINK_MS), Op::ToggleIndicator]
}

/// The LED's level after performing `ops` from level `level`.
pub open spec fn indicator_level(level: bool, ops: Seq<Op>) -> bool
    decreases ops.len(),
{
    if ops.len() == 0 {
        level
    } else {
        let next = if ops[0] == Op::ToggleIndicator {
            !level
        } else {
            level
        };
        indicator_level(next, ops.drop_first())
    }
}

impl<D, L, T, E, B> Registry<D, L, T, E, B> {
    /// The operations a blink performs on this registry: the full blink when
    /// the LED and the delay timer are installed, else nothing.
    pub open spec fn blink_ops(&self) -> Seq<Op> {
        if self.indicator.is_some() && self.delay.is_some() {
            blink_plan_spec()
        } else {
            Seq::empty()
        }
    }

    /// The operations of a blink; none unless the LED and the delay timer are
    /// installed.
    pub fn blink_plan(&self) -> (r: Vec<Op>)
        ensures
            r@ == self.blink_ops(),
    {
        let mut r: Vec<Op> = Vec::new();
        if self.indicator.is_some() && self.delay.is_some() {
            r.push(Op::ToggleIndicator);
            r.push(Op::WaitMs(BLINK_MS));
            r.push(Op::ToggleIndicator);
            assert(r@ =~= blink_plan_spec());
        }
        r
    }
}

/// A blink leaves the LED at the level it had before, whatever the registry
/// holds: its two inversions cancel, and without an LED it does nothing.
pub proof fn blink_keeps_level<D, L, T, E, B>(reg: Registry<D, L, T, E, B>, level: bool)
    ensures
        indicator_level(level, reg.blink_ops()) == level,
{
    let ops = blink_plan_spec();
    reveal_with_fuel(indicator_level, 4);
    assert(ops.drop_first() =~= seq![Op::WaitMs(BLINK_MS), Op::ToggleIndicator]);
    assert(ops.drop_first().drop_first() =~= seq![Op::ToggleIndicator]);
    assert(ops.drop_first().drop_first().drop_first() =~= Seq::<Op>::empty());
}

} // verus!
