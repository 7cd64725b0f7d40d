//! Behavioral tests of the debounce engine on concrete samples.

use midiboard::types::{
    ActivationKind, Command, CommandData, CommandKind, Config, Control, EngineError,
    InitialSwitchState, KeyEvent, KeyState, Threshold,
};
use midiboard::engine::{debounce, on_key_event};

fn data(cmd: &str) -> CommandData {
    CommandData {
        cmd: cmd.to_string(),
        args: Vec::new(),
        replace: None,
        map_min: None,
        map_max: None,
    }
}

fn encoder_control(key: u8, threshold: Threshold) -> Control {
    Control {
        name: "volume".to_string(),
        key,
        kind: CommandKind::Encoder,
        threshold,
        command: Command::Encoder { execute: data("amixer") },
    }
}

fn one_control_config(control: Control) -> Config {
    Config { device: "deck".to_string(), controls: vec![control] }
}

fn encoder_config() -> Config {
    one_control_config(encoder_control(10, Threshold::Full { activation: 50, detection: 10 }))
}

fn advance(config: &Config, state: Option<KeyState>, key: u8, value: u8, now: u64) -> KeyEvent {
    on_key_event(key, state, config, value, now).expect("configured key")
}

#[test]
fn first_sample_seeds_state() {
    let config = encoder_config();
    let ev = advance(&config, None, 10, 64, 1000);
    assert!(!ev.initialized);
    assert!(ev.elapsed.is_none());
    assert_eq!(ev.state.detections, vec![64]);
    assert_eq!(ev.state.start, 1000);
    assert_eq!(ev.state.activation_threshold, 50);
    assert_eq!(ev.state.detection_threshold, Some(10));
    assert_eq!(ev.state.control, "volume".to_string());
    assert_eq!(ev.state.initial_state, None);
}

#[test]
fn unknown_key_is_error() {
    let config = encoder_config();
    let r = on_key_event(99, None, &config, 64, 0);
    assert!(matches!(r, Err(EngineError::KeyNotFound)));
}

#[test]
fn encoder_increase_direction() {
    let config = encoder_config();
    let ev = advance(&config, None, 10, 60, 0);
    let mut ev = advance(&config, Some(ev.state), 10, 70, 100);
    assert_eq!(ev.elapsed, Some(100));
    let activation = debounce(&mut ev, 100).expect("no engine fault");
    assert!(activation.valid);
    assert_eq!(activation.kind, Some(ActivationKind::Encoder { increase: true }));
    assert_eq!(ev.state.detections, vec![70]);
    assert_eq!(ev.state.start, 0, "encoder keeps its window origin");
}

#[test]
fn encoder_decrease_direction() {
    let config = encoder_config();
    let ev = advance(&config, None, 10, 90, 0);
    let mut ev = advance(&config, Some(ev.state), 10, 20, 80);
    let activation = debounce(&mut ev, 80).expect("no engine fault");
    assert!(activation.valid);
    assert_eq!(activation.kind, Some(ActivationKind::Encoder { increase: false }));
    assert_eq!(ev.state.detections, vec![20]);
}

#[test]
fn encoder_equal_samples_are_not_increase() {
    let config = encoder_config();
    let ev = advance(&config, None, 10, 64, 0);
    let mut ev = advance(&config, Some(ev.state), 10, 64, 80);
    let activation = debounce(&mut ev, 80).expect("no engine fault");
    assert!(activation.valid);
    assert_eq!(activation.kind, Some(ActivationKind::Encoder { increase: false }));
}

#[test]
fn encoder_bounce_discards_sample() {
    let config = encoder_config();
    let ev = advance(&config, None, 10, 60, 0);
    let before = ev.state.detections.clone();
    let mut ev = advance(&config, Some(ev.state), 10, 70, 5);
    let activation = debounce(&mut ev, 5).expect("no engine fault");
    assert!(!activation.valid);
    assert_eq!(activation.kind, None);
    assert_eq!(ev.state.detections, before, "state prior to the sample is preserved");
}

#[test]
fn encoder_pending_sample_is_kept() {
    let config = encoder_config();
    let ev = advance(&config, None, 10, 60, 0);
    let mut ev = advance(&config, Some(ev.state), 10, 70, 30);
    let activation = debounce(&mut ev, 30).expect("no engine fault");
    assert!(!activation.valid);
    assert_eq!(ev.state.detections, vec![60, 70], "window still accumulating");
}

#[test]
fn encoder_without_secondary_threshold_keeps_sample() {
    let config = one_control_config(encoder_control(10, Threshold::Base { activation: 50 }));
    let ev = advance(&config, None, 10, 60, 0);
    assert_eq!(ev.state.detection_threshold, None);
    let mut ev = advance(&config, Some(ev.state), 10, 70, 5);
    let activation = debounce(&mut ev, 5).expect("no engine fault");
    assert!(!activation.valid);
    assert_eq!(ev.state.detections, vec![60, 70]);
}

fn switch_config(initial: InitialSwitchState) -> Config {
    one_control_config(Control {
        name: "lamp".to_string(),
        key: 20,
        kind: CommandKind::Switch,
        threshold: Threshold::Base { activation: 50 },
        command: Command::Switch {
            on: data("lamp-on"),
            off: data("lamp-off"),
            initial_state: initial,
        },
    })
}

#[test]
fn switch_first_transition_initially_off() {
    let config = switch_config(InitialSwitchState::OFF);
    let ev = advance(&config, None, 20, 1, 0);
    let mut ev = advance(&config, Some(ev.state), 20, 1, 100);
    let activation = debounce(&mut ev, 100).expect("no engine fault");
    assert!(activation.valid);
    assert_eq!(activation.kind, Some(ActivationKind::Switch { on: false }));
    assert_eq!(ev.state.detections, vec![255, 255]);
    assert_eq!(ev.state.start, 100, "window reopens on activation");
    assert_eq!(ev.elapsed, Some(0));
}

#[test]
fn switch_first_transition_initially_on() {
    let config = switch_config(InitialSwitchState::ON);
    let ev = advance(&config, None, 20, 1, 0);
    let mut ev = advance(&config, Some(ev.state), 20, 1, 100);
    let activation = debounce(&mut ev, 100).expect("no engine fault");
    assert!(activation.valid);
    assert_eq!(activation.kind, Some(ActivationKind::Switch { on: false }));
    assert_eq!(ev.state.detections, vec![200, 200]);
}

#[test]
fn switch_alternates_after_first_transition() {
    let config = switch_config(InitialSwitchState::OFF);
    let mut state = advance(&config, None, 20, 1, 0).state;
    let mut emitted = Vec::new();
    let mut now = 0u64;
    for _ in 0..5 {
        now += 100;
        let mut ev = advance(&config, Some(state), 20, 1, now);
        let activation = debounce(&mut ev, now).expect("no engine fault");
        assert!(activation.valid);
        match activation.kind {
            Some(ActivationKind::Switch { on }) => emitted.push(on),
            other => panic!("unexpected activation kind {:?}", other),
        }
        state = ev.state;
    }
    assert_eq!(emitted, vec![false, true, false, true, false]);
}

#[test]
fn switch_bounce_discards_sample() {
    let config = switch_config(InitialSwitchState::OFF);
    let ev = advance(&config, None, 20, 1, 0);
    let mut ev = advance(&config, Some(ev.state), 20, 1, 10);
    let activation = debounce(&mut ev, 10).expect("no engine fault");
    assert!(!activation.valid);
    assert_eq!(ev.state.detections, vec![1]);
}

#[test]
fn switch_history_stays_within_cap() {
    let config = switch_config(InitialSwitchState::OFF);
    let mut state = advance(&config, None, 20, 1, 0).state;
    let mut now = 0u64;
    for _ in 0..200 {
        now += 100;
        let mut ev = advance(&config, Some(state), 20, 1, now);
        let activation = debounce(&mut ev, now).expect("no engine fault");
        assert!(activation.valid);
        state = ev.state;
        assert!(state.detections.len() <= 50);
    }
}

#[test]
fn switch_missing_initial_state_is_error() {
    let mut ev = KeyEvent {
        initialized: true,
        state: KeyState {
            control: "lamp".to_string(),
            detection_threshold: None,
            activation_threshold: 50,
            detections: vec![1, 1],
            start: 0,
            initial_state: None,
        },
        kind: CommandKind::Switch,
        elapsed: Some(100),
    };
    let r = debounce(&mut ev, 100);
    assert!(matches!(r, Err(EngineError::MissingInitialState)));
}

fn trigger_config() -> Config {
    one_control_config(Control {
        name: "snap".to_string(),
        key: 30,
        kind: CommandKind::Trigger,
        threshold: Threshold::Base { activation: 50 },
        command: Command::Trigger { execute: data("scrot") },
    })
}

#[test]
fn trigger_fires_and_clears() {
    let config = trigger_config();
    let ev = advance(&config, None, 30, 127, 0);
    let mut ev = advance(&config, Some(ev.state), 30, 127, 100);
    let activation = debounce(&mut ev, 100).expect("no engine fault");
    assert!(activation.valid);
    assert_eq!(activation.kind, Some(ActivationKind::Trigger));
    assert!(ev.state.detections.is_empty());
    assert_eq!(ev.state.start, 100, "window origin resets");
}

#[test]
fn trigger_bounce_never_fires_twice_quickly() {
    let config = trigger_config();
    let ev = advance(&config, None, 30, 127, 0);
    let mut ev = advance(&config, Some(ev.state), 30, 127, 100);
    let first = debounce(&mut ev, 100).expect("no engine fault");
    assert!(first.valid);
    let mut ev = advance(&config, Some(ev.state), 30, 127, 120);
    let second = debounce(&mut ev, 120).expect("no engine fault");
    assert!(!second.valid, "20ms after the reset origin is inside the window");
    assert_eq!(second.kind, None);
}

#[test]
fn switch_initially_on_repeats_first_payload_then_alternates() {
    // Both resting states emit `on: false` on the first transition; an
    // initially-on switch therefore repeats `false` once before the markers
    // take over and alternation begins.
    let config = switch_config(InitialSwitchState::ON);
    let mut state = advance(&config, None, 20, 1, 0).state;
    let mut emitted = Vec::new();
    let mut now = 0u64;
    for _ in 0..4 {
        now += 100;
        let mut ev = advance(&config, Some(state), 20, 1, now);
        let activation = debounce(&mut ev, now).expect("no engine fault");
        match activation.kind {
            Some(ActivationKind::Switch { on }) => emitted.push(on),
            other => panic!("unexpected activation kind {:?}", other),
        }
        state = ev.state;
    }
    assert_eq!(emitted, vec![false, false, true, false]);
}
