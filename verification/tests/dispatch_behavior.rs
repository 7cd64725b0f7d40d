//! Behavioral tests of command resolution: selection, interpolation and
//! placeholder substitution.

use midiboard::types::{
    Activation, Command, CommandData, CommandKind, Control, Dispatch, DispatchError,
    InitialSwitchState, KeyEvent, KeyState, Threshold,
};
use midiboard::dispatch::{call_command, interpolate};

fn event_for(control: &str, detections: Vec<u8>) -> KeyEvent {
    KeyEvent {
        initialized: true,
        state: KeyState {
            control: control.to_string(),
            detection_threshold: None,
            activation_threshold: 50,
            detections,
            start: 0,
            initial_state: None,
        },
        kind: CommandKind::Encoder,
        elapsed: Some(100),
    }
}

fn replace_data(cmd: &str, args: Vec<&str>, min: Option<i64>, max: Option<i64>) -> CommandData {
    CommandData {
        cmd: cmd.to_string(),
        args: args.into_iter().map(|a| a.to_string()).collect(),
        replace: Some("%v".to_string()),
        map_min: min,
        map_max: max,
    }
}

fn encoder_controls(data: CommandData) -> Vec<Control> {
    vec![Control {
        name: "volume".to_string(),
        key: 10,
        kind: CommandKind::Encoder,
        threshold: Threshold::Base { activation: 50 },
        command: Command::Encoder { execute: data },
    }]
}

#[test]
fn replace_identity_mapping_substitutes_raw_value() {
    let controls = encoder_controls(replace_data(
        "set-%v",
        vec!["--level", "%v", "plain"],
        Some(0),
        Some(127),
    ));
    let event = event_for("volume", vec![64]);
    let activation = Activation::encoder(true, true);
    let r = call_command(&event, &activation, &controls).expect("resolves");
    match r {
        Dispatch::Run { cmd, args } => {
            assert_eq!(cmd, "set-64".to_string());
            assert_eq!(
                args,
                vec!["--level".to_string(), "64".to_string(), "plain".to_string()]
            );
        },
        Dispatch::NoValue => panic!("expected a resolved command"),
    }
}

#[test]
fn replace_without_mapping_fails_and_runs_nothing() {
    let controls = encoder_controls(replace_data("set-%v", vec!["%v"], None, None));
    let event = event_for("volume", vec![64]);
    let activation = Activation::encoder(true, true);
    let r = call_command(&event, &activation, &controls);
    assert!(matches!(r, Err(DispatchError::MissingMapping)));
}

#[test]
fn replace_with_only_min_fails() {
    let controls = encoder_controls(replace_data("set-%v", vec![], Some(0), None));
    let event = event_for("volume", vec![64]);
    let activation = Activation::encoder(true, true);
    let r = call_command(&event, &activation, &controls);
    assert!(matches!(r, Err(DispatchError::MissingMapping)));
}

#[test]
fn replace_without_value_is_informational_noop() {
    let controls = encoder_controls(replace_data("set-%v", vec![], Some(0), Some(127)));
    let event = event_for("volume", Vec::new());
    let activation = Activation::encoder(true, true);
    let r = call_command(&event, &activation, &controls).expect("resolves");
    assert!(matches!(r, Dispatch::NoValue));
}

#[test]
fn no_replace_passes_command_through() {
    let controls = encoder_controls(CommandData {
        cmd: "toggle".to_string(),
        args: vec!["--fast".to_string()],
        replace: None,
        map_min: None,
        map_max: None,
    });
    let event = event_for("volume", vec![64]);
    let activation = Activation::encoder(true, false);
    let r = call_command(&event, &activation, &controls).expect("resolves");
    match r {
        Dispatch::Run { cmd, args } => {
            assert_eq!(cmd, "toggle".to_string());
            assert_eq!(args, vec!["--fast".to_string()]);
        },
        Dispatch::NoValue => panic!("expected a resolved command"),
    }
}

#[test]
fn unknown_control_name_is_config_mismatch() {
    let controls = encoder_controls(replace_data("x", vec![], Some(0), Some(127)));
    let event = event_for("brightness", vec![64]);
    let activation = Activation::encoder(true, true);
    let r = call_command(&event, &activation, &controls);
    assert!(matches!(r, Err(DispatchError::ConfigMismatch)));
}

#[test]
fn missing_activation_payload_is_config_mismatch() {
    let controls = encoder_controls(replace_data("x", vec![], Some(0), Some(127)));
    let event = event_for("volume", vec![64]);
    let activation = Activation::failed();
    let r = call_command(&event, &activation, &controls);
    assert!(matches!(r, Err(DispatchError::ConfigMismatch)));
}

#[test]
fn mismatched_kind_is_kind_mismatch() {
    let controls = encoder_controls(replace_data("x", vec![], Some(0), Some(127)));
    let event = event_for("volume", vec![64]);
    let activation = Activation::switch(true, true);
    let r = call_command(&event, &activation, &controls);
    assert!(matches!(r, Err(DispatchError::KindMismatch)));
}

#[test]
fn switch_activation_picks_polarity_binding() {
    let controls = vec![Control {
        name: "lamp".to_string(),
        key: 20,
        kind: CommandKind::Switch,
        threshold: Threshold::Base { activation: 50 },
        command: Command::Switch {
            on: CommandData {
                cmd: "lamp-on".to_string(),
                args: vec![],
                replace: None,
                map_min: None,
                map_max: None,
            },
            off: CommandData {
                cmd: "lamp-off".to_string(),
                args: vec![],
                replace: None,
                map_min: None,
                map_max: None,
            },
            initial_state: InitialSwitchState::OFF,
        },
    }];
    let mut event = event_for("lamp", vec![255, 200]);
    event.kind = CommandKind::Switch;
    let on = call_command(&event, &Activation::switch(true, true), &controls).expect("resolves");
    let off = call_command(&event, &Activation::switch(true, false), &controls).expect("resolves");
    match (on, off) {
        (Dispatch::Run { cmd: c1, .. }, Dispatch::Run { cmd: c2, .. }) => {
            assert_eq!(c1, "lamp-on".to_string());
            assert_eq!(c2, "lamp-off".to_string());
        },
        _ => panic!("expected resolved commands"),
    }
}

#[test]
fn negative_interpolation_substitutes_signed_value() {
    let controls = encoder_controls(replace_data("dim", vec!["%v"], Some(-127), Some(0)));
    let event = event_for("volume", vec![0]);
    let activation = Activation::encoder(true, false);
    let r = call_command(&event, &activation, &controls).expect("resolves");
    match r {
        Dispatch::Run { args, .. } => assert_eq!(args, vec!["-127".to_string()]),
        Dispatch::NoValue => panic!("expected a resolved command"),
    }
}

#[test]
fn interpolate_maps_linearly() {
    assert_eq!(interpolate(0, 127, 64), 64);
    assert_eq!(interpolate(0, 127, 0), 0);
    assert_eq!(interpolate(0, 127, 127), 127);
    assert_eq!(interpolate(0, 10, 64), 5);
    assert_eq!(interpolate(100, 200, 127), 200);
    assert_eq!(interpolate(-127, 0, 0), -127);
    assert_eq!(interpolate(10, 0, 127), 0, "descending interval");
    assert_eq!(interpolate(10, 0, 0), 10, "descending interval start");
}
