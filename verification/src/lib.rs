//! A verified input-translation engine for a game-controller bridge.
//!
//! The library turns one controller snapshot per iteration into a small set
//! of output messages: a velocity composite read straight from the stick
//! axes, and two signed scalar channels driven by configurable button
//! bindings. Transport and message-bus plumbing live outside the library;
//! everything here is pure and verified.

mod binding;
mod config;
mod engine;
mod frame;
mod signal;
mod text;

pub use binding::{
    in_vocabulary, lemma_resolution_idempotent, lemma_unknown_never_true, name_to_bool,
    spec_eval, spec_resolve, BindingName,
};
pub use config::{name_to_mode, spec_name_to_mode, BridgeConfig, ChannelBinding, TransportMode};
pub use engine::{OutputMessageSet, TranslationEngine, Velocity};
pub use frame::ControllerFrame;
pub use signal::{encode, lemma_encode_in_domain, lemma_positive_priority, spec_encode, Signal};
pub use text::str_eq;
