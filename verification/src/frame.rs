use vstd::prelude::*;

verus! {

/// One sampled snapshot of controller state: three stick axes and the
/// named button and D-pad flags.
///
/// The axis type `A` is whatever scalar the transport delivers. The engine
/// only copies axis values through unchanged, so nothing is assumed of `A`.
#[derive(Clone, Copy)]
pub struct ControllerFrame<A> {
    /// Left stick, horizontal axis.
    pub left_x: A,
    /// Left stick, vertical axis.
    pub left_y: A,
    /// Right stick, horizontal axis.
    pub right_x: A,
    pub dpad_up: bool,
    pub dpad_down: bool,
    pub dpad_left: bool,
    pub dpad_right: bool,
    pub circle: bool,
    pub cross: bool,
    pub cube: bool,
    pub triangle: bool,
    pub l1: bool,
    pub l2: bool,
    pub r1: bool,
    pub r2: bool,
}

} // verus!
