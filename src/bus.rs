//! The parallel bus as the controller sees it: the steps it asks the
//! platform to perform, and the step sequences of the low-level transfers.
use vstd::prelude::*;

verus! {

/// Direction of a digital pin.
#[derive(Clone, Copy, Debug, PartialEq, Eq, Structural)]
pub enum PinMode {
    Input,
    Output,
    InputPullup,
}

/// Level driven on a digital pin.
#[derive(Clone, Copy, Debug, PartialEq, Eq, Structural)]
pub enum Level {
    Low,
    High,
}

/// One step that the platform performs for the controller, in order.
#[derive(Clone, Copy, Debug, PartialEq, Eq, Structural)]
pub enum BusOp {
    /// Set the direction of a pin.
    SetMode { pin: u8, mode: PinMode },
    /// Drive a pin to a level.
    Write { pin: u8, level: Level },
    /// Busy-wait for the given number of microseconds.
    Delay { us: u32 },
}

/// Time the enable line is held on each side of its rising edge.
pub const ENABLE_HOLD_US: u32 = 1;

/// Time the controller needs to latch what was placed on the data lines.
pub const LATCH_SETTLE_US: u32 = 450;

pub open spec fn level_of(bit: bool) -> Level {
    if bit {
        Level::High
    } else {
        Level::Low
    }
}

/// Bit `i` of `value`.
pub open spec fn bit_of(value: u8, i: int) -> bool {
    (value >> (i as u8)) & 1u8 == 1u8
}

/// An enable pulse: low, high, low, then the latch settle time.
pub open spec fn pulse_ops(enable: u8) -> Seq<BusOp> {
    seq![
        BusOp::Write { pin: enable, level: Level::Low },
        BusOp::Delay { us: ENABLE_HOLD_US },
        BusOp::Write { pin: enable, level: Level::High },
        BusOp::Delay { us: ENABLE_HOLD_US },
        BusOp::Write { pin: enable, level: Level::Low },
        BusOp::Delay { us: LATCH_SETTLE_US },
    ]
}

/// Placing the low `width` bits of `value` on the first `width` data pins.
pub open spec fn lines_ops(pins: Seq<u8>, value: u8, width: nat) -> Seq<BusOp> {
    Seq::new(width, |i: int| BusOp::Write { pin: pins[i], level: level_of(bit_of(value, i)) })
}

/// Placing `width` bits on the data pins and latching them with one pulse.
pub open spec fn latch_ops(pins: Seq<u8>, enable: u8, value: u8, width: nat) -> Seq<BusOp> {
    lines_ops(pins, value, width) + pulse_ops(enable)
}

/// Number of rising edges on `pin` in `ops`.
pub open spec fn rising_edges(ops: Seq<BusOp>, pin: u8) -> nat
    decreases ops.len(),
{
    if ops.len() == 0 {
        0
    } else {
        rising_edges(ops.drop_last(), pin) + if ops.last() == (BusOp::Write { pin, level: Level::High }) {
            1nat
        } else {
            0nat
        }
    }
}

} // verus!
