use vstd::prelude::*;

use crate::binding::BindingName;
use crate::text::str_eq;

verus! {

/// Which transport the external driver should open. Resolved once at
/// startup from a configuration string and immutable afterwards.
#[derive(Clone, Copy, PartialEq, Eq, Structural, Debug)]
pub enum TransportMode {
    Ble,
    Serial,
    Unspecified,
}

/// What a mode string selects: "ble" and "serial" name their transports,
/// anything else is unspecified.
pub open spec fn spec_name_to_mode(s: Seq<char>) -> TransportMode {
    if s == "ble"@ {
        TransportMode::Ble
    } else if s == "serial"@ {
        TransportMode::Serial
    } else {
        TransportMode::Unspecified
    }
}

/// Resolve the transport selector string.
pub fn name_to_mode(name: &str) -> (m: TransportMode)
    ensures
        m == spec_name_to_mode(name@),
{
    if str_eq(name, "ble") {
        TransportMode::Ble
    } else if str_eq(name, "serial") {
        TransportMode::Serial
    } else {
        TransportMode::Unspecified
    }
}

/// The positive/negative binding pair that drives one signed scalar channel.
#[derive(Clone, Copy, PartialEq, Eq, Structural, Debug)]
pub struct ChannelBinding {
    pub positive: BindingName,
    pub negative: BindingName,
}

/// The five startup parameters, as strings: the transport selector and the
/// four channel binding names. Read once at startup; the engine never reads
/// configuration mid-loop.
#[derive(Clone, Debug)]
pub struct BridgeConfig {
    pub mode: String,
    pub ch1_plus: String,
    pub ch1_minus: String,
    pub ch2_plus: String,
    pub ch2_minus: String,
}

impl BridgeConfig {
    /// Build a configuration from optional overrides; a field left
    /// unspecified takes its documented default.
    pub fn from_overrides(
        mode: Option<String>,
        ch1_plus: Option<String>,
        ch1_minus: Option<String>,
        ch2_plus: Option<String>,
        ch2_minus: Option<String>,
    ) -> (c: BridgeConfig)
        ensures
            mode matches Some(s) ==> c.mode@ == s@,
            mode is None ==> c.mode@ == "ble"@,
            ch1_plus matches Some(s) ==> c.ch1_plus@ == s@,
            ch1_plus is None ==> c.ch1_plus@ == "dpad.up"@,
            ch1_minus matches Some(s) ==> c.ch1_minus@ == s@,
            ch1_minus is None ==> c.ch1_minus@ == "dpad.down"@,
            ch2_plus matches Some(s) ==> c.ch2_plus@ == s@,
            ch2_plus is None ==> c.ch2_plus@ == "btn.r1"@,
            ch2_minus matches Some(s) ==> c.ch2_minus@ == s@,
            ch2_minus is None ==> c.ch2_minus@ == "btn.l1"@,
    {
        BridgeConfig {
            mode: match mode {
                Some(s) => s,
                None => "ble".to_owned(),
            },
            ch1_plus: match ch1_plus {
                Some(s) => s,
                None => "dpad.up".to_owned(),
            },
            ch1_minus: match ch1_minus {
                Some(s) => s,
                None => "dpad.down".to_owned(),
            },
            ch2_plus: match ch2_plus {
                Some(s) => s,
                None => "btn.r1".to_owned(),
            },
            ch2_minus: match ch2_minus {
                Some(s) => s,
                None => "btn.l1".to_owned(),
            },
        }
    }

    /// The transport this configuration selects.
    pub fn transport_mode(&self) -> (m: TransportMode)
        ensures
            m == spec_name_to_mode(self.mode@),
    {
        name_to_mode(self.mode.as_str())
    }
}

impl Default for BridgeConfig {
    /// The documented defaults: BLE transport, D-pad up/down on channel 1,
    /// R1/L1 on channel 2.
    fn default() -> (c: BridgeConfig)
        ensures
            c.mode@ == "ble"@,
            c.ch1_plus@ == "dpad.up"@,
            c.ch1_minus@ == "dpad.down"@,
            c.ch2_plus@ == "btn.r1"@,
            c.ch2_minus@ == "btn.l1"@,
    {
        BridgeConfig::from_overrides(None, None, None, None, None)
    }
}

} // verus!
