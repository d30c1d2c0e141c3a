use vstd::prelude::*;

use crate::frame::ControllerFrame;
use crate::text::str_eq;

verus! {

/// A symbolic button binding, drawn from a closed vocabulary of names.
///
/// A name outside the vocabulary resolves to `Unknown`, which never reads
/// true on any frame: a misconfigured binding silently disables its channel
/// instead of failing.
#[derive(Clone, Copy, PartialEq, Eq, Structural, Debug)]
pub enum BindingName {
    DpadUp,
    DpadDown,
    DpadLeft,
    DpadRight,
    BtnCircle,
    BtnCross,
    BtnCube,
    BtnTriangle,
    BtnL1,
    BtnL2,
    BtnR1,
    BtnR2,
    Unknown,
}

/// The closed vocabulary of binding names.
pub open spec fn in_vocabulary(s: Seq<char>) -> bool {
    ||| s == "dpad.up"@
    ||| s == "dpad.down"@
    ||| s == "dpad.left"@
    ||| s == "dpad.right"@
    ||| s == "btn.circle"@
    ||| s == "btn.cross"@
    ||| s == "btn.cube"@
    ||| s == "btn.triangle"@
    ||| s == "btn.l1"@
    ||| s == "btn.l2"@
    ||| s == "btn.r1"@
    ||| s == "btn.r2"@
}

/// What a name resolves to: each vocabulary word maps to its binding, and
/// everything else to `Unknown`.
pub open spec fn spec_resolve(s: Seq<char>) -> BindingName {
    if s == "dpad.up"@ {
        BindingName::DpadUp
    } else if s == "dpad.down"@ {
        BindingName::DpadDown
    } else if s == "dpad.left"@ {
        BindingName::DpadLeft
    } else if s == "dpad.right"@ {
        BindingName::DpadRight
    } else if s == "btn.circle"@ {
        BindingName::BtnCircle
    } else if s == "btn.cross"@ {
        BindingName::BtnCross
    } else if s == "btn.cube"@ {
        BindingName::BtnCube
    } else if s == "btn.triangle"@ {
        BindingName::BtnTriangle
    } else if s == "btn.l1"@ {
        BindingName::BtnL1
    } else if s == "btn.l2"@ {
        BindingName::BtnL2
    } else if s == "btn.r1"@ {
        BindingName::BtnR1
    } else if s == "btn.r2"@ {
        BindingName::BtnR2
    } else {
        BindingName::Unknown
    }
}

/// Which frame flag a binding reads. `Unknown` reads no flag and is never
/// true.
pub open spec fn spec_eval<A>(b: BindingName, f: ControllerFrame<A>) -> bool {
    match b {
        BindingName::DpadUp => f.dpad_up,
        BindingName::DpadDown => f.dpad_down,
        BindingName::DpadLeft => f.dpad_left,
        BindingName::DpadRight => f.dpad_right,
        BindingName::BtnCircle => f.circle,
        BindingName::BtnCross => f.cross,
        BindingName::BtnCube => f.cube,
        BindingName::BtnTriangle => f.triangle,
        BindingName::BtnL1 => f.l1,
        BindingName::BtnL2 => f.l2,
        BindingName::BtnR1 => f.r1,
        BindingName::BtnR2 => f.r2,
        BindingName::Unknown => false,
    }
}

impl BindingName {
    /// Resolve a configuration string to a binding. Total and deterministic:
    /// every string resolves, unrecognized ones to `Unknown`.
    pub fn resolve(name: &str) -> (b: BindingName)
        ensures
            b == spec_resolve(name@),
    {
        if str_eq(name, "dpad.up") {
            BindingName::DpadUp
        } else if str_eq(name, "dpad.down") {
            BindingName::DpadDown
        } else if str_eq(name, "dpad.left") {
            BindingName::DpadLeft
        } else if str_eq(name, "dpad.right") {
            BindingName::DpadRight
        } else if str_eq(name, "btn.circle") {
            BindingName::BtnCircle
        } else if str_eq(name, "btn.cross") {
            BindingName::BtnCross
        } else if str_eq(name, "btn.cube") {
            BindingName::BtnCube
        } else if str_eq(name, "btn.triangle") {
            BindingName::BtnTriangle
        } else if str_eq(name, "btn.l1") {
            BindingName::BtnL1
        } else if str_eq(name, "btn.l2") {
            BindingName::BtnL2
        } else if str_eq(name, "btn.r1") {
            BindingName::BtnR1
        } else if str_eq(name, "btn.r2") {
            BindingName::BtnR2
        } else {
            BindingName::Unknown
        }
    }

    /// Read the flag this binding names from a frame.
    pub fn holds_in<A>(self, frame: &ControllerFrame<A>) -> (r: bool)
        ensures
            r == spec_eval(self, *frame),
    {
        match self {
            BindingName::DpadUp => frame.dpad_up,
            BindingName::DpadDown => frame.dpad_down,
            BindingName::DpadLeft => frame.dpad_left,
            BindingName::DpadRight => frame.dpad_right,
            BindingName::BtnCircle => frame.circle,
            BindingName::BtnCross => frame.cross,
            BindingName::BtnCube => frame.cube,
            BindingName::BtnTriangle => frame.triangle,
            BindingName::BtnL1 => frame.l1,
            BindingName::BtnL2 => frame.l2,
            BindingName::BtnR1 => frame.r1,
            BindingName::BtnR2 => frame.r2,
            BindingName::Unknown => false,
        }
    }
}

/// Read the flag named by a configuration string from a frame: resolution
/// followed by evaluation.
pub fn name_to_bool<A>(name: &str, con: &ControllerFrame<A>) -> (r: bool)
    ensures
        r == spec_eval(spec_resolve(name@), *con),
{
    BindingName::resolve(name).holds_in(con)
}

/// Resolution is idempotent: two resolutions of the same name behave
/// identically on every frame.
pub proof fn lemma_resolution_idempotent<A>(
    s: Seq<char>,
    b1: BindingName,
    b2: BindingName,
    f: ControllerFrame<A>,
)
    requires
        b1 == spec_resolve(s),
        b2 == spec_resolve(s),
    ensures
        b1 == b2,
        spec_eval(b1, f) == spec_eval(b2, f),
{
}

/// A name outside the closed vocabulary resolves to a binding that is false
/// on every frame.
pub proof fn lemma_unknown_never_true<A>(s: Seq<char>, f: ControllerFrame<A>)
    requires
        !in_vocabulary(s),
    ensures
        spec_resolve(s) == BindingName::Unknown,
        !spec_eval(spec_resolve(s), f),
{
}

} // verus!
