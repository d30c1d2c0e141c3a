use vstd::prelude::*;

use crate::binding::{spec_eval, BindingName};
use crate::frame::ControllerFrame;

verus! {

/// A signed scalar channel output: exactly one of -1, 0, or +1.
#[derive(Clone, Copy, PartialEq, Eq, Structural, Debug)]
pub enum Signal {
    Negative,
    Zero,
    Positive,
}

impl Signal {
    /// The integer a signal stands for.
    pub open spec fn spec_value(self) -> int {
        match self {
            Signal::Negative => -1,
            Signal::Zero => 0,
            Signal::Positive => 1,
        }
    }

    /// The scalar this signal encodes, as a machine integer.
    pub fn value(self) -> (v: i8)
        ensures
            v as int == self.spec_value(),
    {
        match self {
            Signal::Negative => -1i8,
            Signal::Zero => 0i8,
            Signal::Positive => 1i8,
        }
    }
}

/// The encoding rule: the positive binding is read first and strictly
/// dominates; only when it is false does the negative binding drive the
/// result; when neither holds the channel is zero.
pub open spec fn spec_encode<A>(
    f: ControllerFrame<A>,
    positive: BindingName,
    negative: BindingName,
) -> Signal {
    if spec_eval(positive, f) {
        Signal::Positive
    } else if spec_eval(negative, f) {
        Signal::Negative
    } else {
        Signal::Zero
    }
}

/// Encode one channel from a frame and its positive/negative binding pair.
pub fn encode<A>(
    frame: &ControllerFrame<A>,
    positive: BindingName,
    negative: BindingName,
) -> (s: Signal)
    ensures
        s == spec_encode(*frame, positive, negative),
{
    if positive.holds_in(frame) {
        Signal::Positive
    } else if negative.holds_in(frame) {
        Signal::Negative
    } else {
        Signal::Zero
    }
}

/// On every frame and binding pair, the encoded value is one of -1, 0, +1
/// and never anything else.
pub proof fn lemma_encode_in_domain<A>(
    f: ControllerFrame<A>,
    positive: BindingName,
    negative: BindingName,
)
    ensures
        spec_encode(f, positive, negative).spec_value() == -1 || spec_encode(
            f,
            positive,
            negative,
        ).spec_value() == 0 || spec_encode(f, positive, negative).spec_value() == 1,
{
}

/// Priority law: whenever both bindings read true on a frame, the encoded
/// signal is positive — positive strictly dominates negative.
pub proof fn lemma_positive_priority<A>(
    f: ControllerFrame<A>,
    positive: BindingName,
    negative: BindingName,
)
    requires
        spec_eval(positive, f),
        spec_eval(negative, f),
    ensures
        spec_encode(f, positive, negative) == Signal::Positive,
{
}

} // verus!
