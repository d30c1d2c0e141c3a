use ps4_bridge::{
    encode, name_to_mode, BindingName, BridgeConfig, ControllerFrame, Signal, TranslationEngine,
    TransportMode,
};

fn frame(
    left_x: f32,
    left_y: f32,
    right_x: f32,
    dpad_up: bool,
    dpad_down: bool,
    r1: bool,
    l1: bool,
) -> ControllerFrame<f32> {
    ControllerFrame {
        left_x,
        left_y,
        right_x,
        dpad_up,
        dpad_down,
        dpad_left: false,
        dpad_right: false,
        circle: false,
        cross: false,
        cube: false,
        triangle: false,
        l1,
        l2: false,
        r1,
        r2: false,
    }
}

#[test]
fn encode_domain_is_three_valued() {
    let frames = [
        frame(0.0, 0.0, 0.0, false, false, false, false),
        frame(0.0, 0.0, 0.0, true, false, false, false),
        frame(0.0, 0.0, 0.0, false, true, false, false),
        frame(0.0, 0.0, 0.0, true, true, true, true),
    ];
    let bindings = [
        BindingName::DpadUp,
        BindingName::DpadDown,
        BindingName::DpadLeft,
        BindingName::DpadRight,
        BindingName::BtnCircle,
        BindingName::BtnCross,
        BindingName::BtnCube,
        BindingName::BtnTriangle,
        BindingName::BtnL1,
        BindingName::BtnL2,
        BindingName::BtnR1,
        BindingName::BtnR2,
        BindingName::Unknown,
    ];
    for f in &frames {
        for &p in &bindings {
            for &n in &bindings {
                let v = encode(f, p, n).value() as f32;
                assert!(v == -1.0 || v == 0.0 || v == 1.0);
            }
        }
    }
}

#[test]
fn positive_dominates_negative() {
    let f = frame(0.0, 0.0, 0.0, true, true, true, true);
    assert_eq!(encode(&f, BindingName::DpadUp, BindingName::DpadDown), Signal::Positive);
    assert_eq!(encode(&f, BindingName::BtnR1, BindingName::BtnL1), Signal::Positive);
    assert_eq!(encode(&f, BindingName::BtnL1, BindingName::BtnR1), Signal::Positive);
}

#[test]
fn encode_negative_and_zero() {
    let f = frame(0.0, 0.0, 0.0, false, true, false, true);
    assert_eq!(encode(&f, BindingName::DpadUp, BindingName::DpadDown), Signal::Negative);
    assert_eq!(encode(&f, BindingName::DpadLeft, BindingName::DpadRight), Signal::Zero);
}

#[test]
fn signal_values() {
    assert_eq!(Signal::Positive.value(), 1);
    assert_eq!(Signal::Zero.value(), 0);
    assert_eq!(Signal::Negative.value(), -1);
    assert_eq!(Signal::Positive.value() as f32, 1.0);
    assert_eq!(Signal::Negative.value() as f32, -1.0);
    assert_eq!(Signal::Zero.value() as f32, 0.0);
}

#[test]
fn default_bindings() {
    let config = BridgeConfig::default();
    assert_eq!(config.mode, "ble");
    assert_eq!(config.ch1_plus, "dpad.up");
    assert_eq!(config.ch1_minus, "dpad.down");
    assert_eq!(config.ch2_plus, "btn.r1");
    assert_eq!(config.ch2_minus, "btn.l1");

    let engine = TranslationEngine::new(&config);
    assert_eq!(engine.channel1.positive, BindingName::DpadUp);
    assert_eq!(engine.channel1.negative, BindingName::DpadDown);
    assert_eq!(engine.channel2.positive, BindingName::BtnR1);
    assert_eq!(engine.channel2.negative, BindingName::BtnL1);
}

#[test]
fn overrides_replace_defaults() {
    let config = BridgeConfig::from_overrides(
        Some("serial".to_string()),
        Some("btn.cross".to_string()),
        None,
        None,
        Some("btn.triangle".to_string()),
    );
    assert_eq!(config.mode, "serial");
    assert_eq!(config.ch1_plus, "btn.cross");
    assert_eq!(config.ch1_minus, "dpad.down");
    assert_eq!(config.ch2_plus, "btn.r1");
    assert_eq!(config.ch2_minus, "btn.triangle");
    assert_eq!(config.transport_mode(), TransportMode::Serial);

    let engine = TranslationEngine::new(&config);
    assert_eq!(engine.channel1.positive, BindingName::BtnCross);
    assert_eq!(engine.channel2.negative, BindingName::BtnTriangle);
}

#[test]
fn end_to_end_mixed_frame() {
    let engine = TranslationEngine::new(&BridgeConfig::default());
    let f = frame(0.5, -0.3, 0.2, true, false, false, true);
    let out = engine.step(&f);
    assert_eq!(out.velocity.linear_x, 0.5);
    assert_eq!(out.velocity.linear_y, -0.3);
    assert_eq!(out.velocity.angular_z, 0.2);
    assert_eq!(out.channel1, Signal::Positive);
    assert_eq!(out.channel2, Signal::Negative);
    assert_eq!(out.channel1.value() as f32, 1.0);
    assert_eq!(out.channel2.value() as f32, -1.0);
}

#[test]
fn end_to_end_down_only() {
    let engine = TranslationEngine::new(&BridgeConfig::default());
    let f = frame(0.0, 0.0, 0.0, false, true, false, false);
    let out = engine.step(&f);
    assert_eq!(out.channel1, Signal::Negative);
    assert_eq!(out.channel1.value() as f32, -1.0);
    assert_eq!(out.channel2, Signal::Zero);
}

#[test]
fn end_to_end_tie_break() {
    let engine = TranslationEngine::new(&BridgeConfig::default());
    let f = frame(0.0, 0.0, 0.0, true, true, false, false);
    let out = engine.step(&f);
    assert_eq!(out.channel1, Signal::Positive);
    assert_eq!(out.channel1.value() as f32, 1.0);
}

#[test]
fn velocity_passes_axes_through_unchanged() {
    let engine = TranslationEngine::new(&BridgeConfig::default());
    let f = frame(-1.0, 1.0, -0.25, false, false, false, false);
    let out = engine.step(&f);
    assert_eq!(out.velocity.linear_x, -1.0);
    assert_eq!(out.velocity.linear_y, 1.0);
    assert_eq!(out.velocity.angular_z, -0.25);
}

#[test]
fn unknown_bindings_disable_a_channel() {
    // A misconfigured binding name silently disables its channel: whatever
    // the frame holds, the channel stays at zero.
    let config = BridgeConfig::from_overrides(
        None,
        Some("not.a.button".to_string()),
        Some("also wrong".to_string()),
        None,
        None,
    );
    let engine = TranslationEngine::new(&config);
    assert_eq!(engine.channel1.positive, BindingName::Unknown);
    assert_eq!(engine.channel1.negative, BindingName::Unknown);
    let f = frame(0.0, 0.0, 0.0, true, true, true, true);
    let out = engine.step(&f);
    assert_eq!(out.channel1, Signal::Zero);
    assert_eq!(out.channel1.value() as f32, 0.0);
    assert_eq!(out.channel2, Signal::Positive);
}

#[test]
fn mode_resolution() {
    assert_eq!(name_to_mode("ble"), TransportMode::Ble);
    assert_eq!(name_to_mode("serial"), TransportMode::Serial);
    assert_eq!(name_to_mode("xyz"), TransportMode::Unspecified);
    assert_eq!(name_to_mode(""), TransportMode::Unspecified);
    assert_eq!(name_to_mode("BLE"), TransportMode::Unspecified);
}
