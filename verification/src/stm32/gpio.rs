use vstd::prelude::*;

verus! {

/// Events produced by the board's directional buttons and rotary encoder.
#[derive(Debug, Clone, Copy, PartialEq, Eq, Structural)]
pub enum GpioEvent {
    Up,
    Down,
    In,
    Out,
    KnobIncrement(i16),
}

} // verus!
