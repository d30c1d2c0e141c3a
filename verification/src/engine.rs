use vstd::prelude::*;

use crate::binding::{spec_resolve, BindingName};
use crate::config::{BridgeConfig, ChannelBinding};
use crate::frame::ControllerFrame;
use crate::signal::{encode, spec_encode, Signal};

verus! {

/// The velocity composite built from the stick axes: a straight numeric
/// pass-through, with no scaling, clamping or dead zone.
#[derive(Clone, Copy)]
pub struct Velocity<A> {
    pub linear_x: A,
    pub linear_y: A,
    pub angular_z: A,
}

/// Everything one loop iteration publishes, all derived from the same frame.
/// The publish order downstream is fixed: velocity first, then channel 1,
/// then channel 2.
#[derive(Clone, Copy)]
pub struct OutputMessageSet<A> {
    pub velocity: Velocity<A>,
    pub channel1: Signal,
    pub channel2: Signal,
}

/// The translation engine: the two channel binding pairs, resolved once at
/// startup and immutable for the life of the loop. Each iteration of the
/// surrounding loop hands `step` one frame and publishes what comes back.
#[derive(Clone, Copy, PartialEq, Eq, Structural, Debug)]
pub struct TranslationEngine {
    pub channel1: ChannelBinding,
    pub channel2: ChannelBinding,
}

impl TranslationEngine {
    /// Resolve the four configured binding names into an engine.
    pub fn new(config: &BridgeConfig) -> (e: TranslationEngine)
        ensures
            e.channel1.positive == spec_resolve(config.ch1_plus@),
            e.channel1.negative == spec_resolve(config.ch1_minus@),
            e.channel2.positive == spec_resolve(config.ch2_plus@),
            e.channel2.negative == spec_resolve(config.ch2_minus@),
    {
        TranslationEngine {
            channel1: ChannelBinding {
                positive: BindingName::resolve(config.ch1_plus.as_str()),
                negative: BindingName::resolve(config.ch1_minus.as_str()),
            },
            channel2: ChannelBinding {
                positive: BindingName::resolve(config.ch2_plus.as_str()),
                negative: BindingName::resolve(config.ch2_minus.as_str()),
            },
        }
    }

    /// Translate one frame: copy the stick axes into the velocity composite
    /// unchanged and encode both scalar channels from their binding pairs.
    pub fn step<A: Copy>(&self, frame: &ControllerFrame<A>) -> (out: OutputMessageSet<A>)
        ensures
            out.velocity.linear_x == frame.left_x,
            out.velocity.linear_y == frame.left_y,
            out.velocity.angular_z == frame.right_x,
            out.channel1 == spec_encode(*frame, self.channel1.positive, self.channel1.negative),
            out.channel2 == spec_encode(*frame, self.channel2.positive, self.channel2.negative),
    {
        OutputMessageSet {
            velocity: Velocity {
                linear_x: frame.left_x,
                linear_y: frame.left_y,
                angular_z: frame.right_x,
            },
            channel1: encode(frame, self.channel1.positive, self.channel1.negative),
            channel2: encode(frame, self.channel2.positive, self.channel2.negative),
        }
    }
}

} // verus!
