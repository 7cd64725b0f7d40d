//! The debounce engine: the per-key state machine that turns raw samples
//! into activation verdicts.
//!
//! Time is a millisecond counter supplied by the caller; the engine never
//! reads a clock. `on_key_event` routes one sample to its configured control
//! and seeds or extends the per-key state; `debounce` applies the
//! kind-specific rules and produces the verdict. Both are specified against
//! the transition functions below, which are the authoritative statement of
//! the state machine.

use vstd::prelude::*;
use crate::types::{
    Activation, CommandKind, Config, Control, ControlModel, EngineError, InitialSwitchState,
    KeyEvent, KeyState, KeyStateModel,
};
use crate::registry::{find_by_key, key_found, key_index};

verus! {

/// Marker byte a switch state stores for "currently off".
pub const MARKER_OFF: u8 = 255;

/// Marker byte a switch state stores for "currently on".
pub const MARKER_ON: u8 = 200;

/// Accepted switch transitions prune the marker history beyond this length.
pub const DETECTIONS_CAP: usize = 50;

/// The fresh state seeded by the first sample for a key: the window opens at
/// `now` and the sample is the sole detection.
pub open spec fn seeded_state(c: ControlModel, value: u8, now: u64) -> KeyStateModel {
    KeyStateModel {
        control: c.name,
        detection_threshold: c.threshold.spec_detection(),
        activation_threshold: c.threshold.spec_activation(),
        detections: seq![value],
        start: now,
        initial_state: c.command.initial_state(),
    }
}

/// The state after a further sample is appended to an existing window.
pub open spec fn appended(s: KeyStateModel, value: u8) -> KeyStateModel {
    KeyStateModel { detections: s.detections.push(value), ..s }
}

/// Encoder rule. Past the activation window the signed delta between the
/// last and the first sample gives the rotation direction, and the window
/// collapses to the last sample (the origin is kept). Below the secondary
/// noise window the sample is discarded; otherwise it is retained pending.
pub open spec fn encoder_step(s: KeyStateModel, elapsed: u64) -> (KeyStateModel, Activation) {
    if elapsed > s.activation_threshold {
        (
            KeyStateModel { detections: seq![s.detections.last()], ..s },
            Activation::spec_encoder(true, s.detections.last() > s.detections.first()),
        )
    } else {
        match s.detection_threshold {
            Some(d) => if elapsed < d {
                (KeyStateModel { detections: s.detections.drop_last(), ..s }, Activation::spec_failed())
            } else {
                (s, Activation::spec_failed())
            },
            None => (s, Activation::spec_failed()),
        }
    }
}

/// The two-element marker sequence a switch seeds on its first transition.
pub open spec fn marker_seed(init: InitialSwitchState) -> Seq<u8> {
    match init {
        InitialSwitchState::OFF => seq![MARKER_OFF, MARKER_OFF],
        InitialSwitchState::ON => seq![MARKER_ON, MARKER_ON],
    }
}

/// Switch rule. Past the activation window, the very first transition
/// (exactly the two seed samples present) resolves the configured resting
/// polarity into a marker pair; later transitions flip the last marker.
/// Accepted transitions reopen the window at `now` and prune the marker
/// history to its last three elements once it exceeds the cap. Inside the
/// window the sample is discarded as bounce.
pub open spec fn switch_step(s: KeyStateModel, elapsed: u64, now: u64) -> Result<
    (KeyStateModel, Activation),
    EngineError,
> {
    if elapsed > s.activation_threshold {
        if s.detections.len() == 2 {
            match s.initial_state {
                Some(init) => Ok(
                    (
                        KeyStateModel { start: now, detections: marker_seed(init), ..s },
                        Activation::spec_switch(true, false),
                    ),
                ),
                None => Err(EngineError::MissingInitialState),
            }
        } else {
            let was_off = s.detections[s.detections.len() - 2] == MARKER_OFF;
            let flipped = s.detections.drop_last().push(
                if was_off {
                    MARKER_ON
                } else {
                    MARKER_OFF
                },
            );
            let pruned = if flipped.len() > DETECTIONS_CAP {
                flipped.subrange(flipped.len() - 3, flipped.len() as int)
            } else {
                flipped
            };
            Ok(
                (
                    KeyStateModel { start: now, detections: pruned, ..s },
                    Activation::spec_switch(true, was_off),
                ),
            )
        }
    } else {
        Ok(
            (
                KeyStateModel { detections: s.detections.drop_last(), ..s },
                Activation::spec_failed(),
            ),
        )
    }
}

/// Trigger rule. Past the activation window the press fires, the window
/// reopens at `now` and the detections clear; inside it the sample is
/// bounce and the state is untouched.
pub open spec fn trigger_step(s: KeyStateModel, elapsed: u64, now: u64) -> (KeyStateModel, Activation) {
    if elapsed > s.activation_threshold {
        (
            KeyStateModel { start: now, detections: Seq::empty(), ..s },
            Activation::spec_trigger(true),
        )
    } else {
        (s, Activation::spec_failed())
    }
}

/// The full debounce transition, dispatched on the control kind. The state
/// it takes is the window with the new sample already appended.
pub open spec fn debounce_step(kind: CommandKind, s: KeyStateModel, elapsed: u64, now: u64) -> Result<
    (KeyStateModel, Activation),
    EngineError,
> {
    match kind {
        CommandKind::Encoder => Ok(encoder_step(s, elapsed)),
        CommandKind::Switch => switch_step(s, elapsed, now),
        CommandKind::Trigger => Ok(trigger_step(s, elapsed, now)),
    }
}

/// Structural facts every accepted transition keeps: the identity fields of
/// the state are untouched, the window origin is either kept or reopened at
/// `now`, and the detections stay within the bounds the session invariant
/// needs — non-empty unless a trigger fired (whose state is discarded), and
/// within the pruning cap for a state that entered within one of it.
pub proof fn lemma_debounce_step_invariants(
    kind: CommandKind,
    s: KeyStateModel,
    elapsed: u64,
    now: u64,
)
    requires
        s.detections.len() >= 2,
    ensures
        debounce_step(kind, s, elapsed, now) matches Ok(p) ==> {
            &&& p.0.initial_state == s.initial_state
            &&& p.0.control == s.control
            &&& p.0.detection_threshold == s.detection_threshold
            &&& p.0.activation_threshold == s.activation_threshold
            &&& p.0.start == s.start || p.0.start == now
            &&& p.1.valid && kind == CommandKind::Trigger || p.0.detections.len() >= 1
            &&& !p.1.valid ==> p.0.detections.len() <= s.detections.len()
            &&& kind == CommandKind::Switch && s.detections.len() <= DETECTIONS_CAP + 1 ==> p.0.detections.len() <= DETECTIONS_CAP
        },
{
    match kind {
        CommandKind::Encoder => {
        },
        CommandKind::Switch => {
            if elapsed > s.activation_threshold && s.detections.len() != 2 {
                let was_off = s.detections[s.detections.len() - 2] == MARKER_OFF;
                let flipped = s.detections.drop_last().push(
                    if was_off {
                        MARKER_ON
                    } else {
                        MARKER_OFF
                    },
                );
                assert(flipped.len() == s.detections.len());
            }
        },
        CommandKind::Trigger => {
        },
    }
}

/// Routes one raw sample to its configured control. With no prior state the
/// sample seeds a fresh window (never an activation by itself); with one it
/// is appended and the elapsed time since the window opened is computed.
/// Fails exactly when the key is not configured.
pub fn on_key_event(
    key: u8,
    state: Option<KeyState>,
    config: &Config,
    value: u8,
    now: u64,
) -> (r: Result<KeyEvent, EngineError>)
    requires
        state matches Some(s) ==> s.start <= now,
    ensures
        match r {
            Ok(ev) => {
                &&& key_found(config@.controls, key)
                &&& ev.kind == config@.controls[key_index(config@.controls, key)].kind
                &&& match state {
                    None => {
                        &&& !ev.initialized
                        &&& ev.elapsed is None
                        &&& ev.state@ == seeded_state(
                            config@.controls[key_index(config@.controls, key)],
                            value,
                            now,
                        )
                    },
                    Some(s) => {
                        &&& ev.initialized
                        &&& ev.state@ == appended(s@, value)
                        &&& ev.elapsed == Some((now - s.start) as u64)
                    },
                }
            },
            Err(e) => {
                &&& e == EngineError::KeyNotFound
                &&& !key_found(config@.controls, key)
            },
        },
{
    let idx = match find_by_key(&config.controls, key) {
        Some(i) => i,
        None => {
            return Err(EngineError::KeyNotFound);
        },
    };
    let control: &Control = &config.controls[idx];
    match state {
        None => {
            let mut detections: Vec<u8> = Vec::new();
            detections.push(value);
            let initial_state = match &control.command {
                crate::types::Command::Switch { initial_state, .. } => Some(*initial_state),
                _ => None,
            };
            let new_state = KeyState {
                control: control.name.clone(),
                detection_threshold: control.threshold.detection(),
                activation_threshold: control.threshold.activation(),
                detections,
                start: now,
                initial_state,
            };
            proof {
                assert(new_state@.detections =~= seq![value]);
                assert(new_state@ =~= seeded_state(
                    config@.controls[key_index(config@.controls, key)],
                    value,
                    now,
                ));
            }
            Ok(KeyEvent { initialized: false, state: new_state, kind: control.kind, elapsed: None })
        },
        Some(mut s) => {
            let ghost s0 = s@;
            let elapsed = now - s.start;
            s.detections.push(value);
            proof {
                assert(s@ =~= appended(s0, value));
            }
            Ok(KeyEvent { initialized: true, state: s, kind: control.kind, elapsed: Some(elapsed) })
        },
    }
}

/// Applies the kind-specific debounce rule to an initialized key event,
/// mutating its state per `debounce_step` and returning the verdict. On an
/// accepted switch or trigger activation the elapsed field is reset along
/// with the window origin; on an engine fault the event is left untouched.
pub fn debounce(event: &mut KeyEvent, now: u64) -> (r: Result<Activation, EngineError>)
    requires
        old(event).initialized,
        old(event).elapsed is Some,
        old(event).state.detections.len() >= 2,
    ensures
        final(event).initialized == old(event).initialized,
        final(event).kind == old(event).kind,
        final(event).state@.control == old(event).state@.control,
        match r {
            Ok(a) => {
                &&& debounce_step(
                    old(event).kind,
                    old(event).state@,
                    old(event).elapsed->0,
                    now,
                ) == Ok::<(KeyStateModel, Activation), EngineError>((final(event).state@, a))
                &&& final(event).elapsed == (if a.valid && old(event).kind != CommandKind::Encoder {
                    Some(0u64)
                } else {
                    old(event).elapsed
                })
            },
            Err(e) => {
                &&& debounce_step(
                    old(event).kind,
                    old(event).state@,
                    old(event).elapsed->0,
                    now,
                ) == Err::<(KeyStateModel, Activation), EngineError>(e)
                &&& final(event).state@ == old(event).state@
                &&& final(event).elapsed == old(event).elapsed
            },
        },
{
    let activation_threshold = event.state.activation_threshold;
    let elapsed = match event.elapsed {
        Some(e) => e,
        None => {
            return Err(EngineError::MissingInitialState);  // unreachable: elapsed is Some
        },
    };
    let ghost s0 = event.state@;
    match event.kind {
        CommandKind::Encoder => {
            if elapsed > activation_threshold {
                let n = event.state.detections.len();
                let last = event.state.detections[n - 1];
                let first = event.state.detections[0];
                let accumulator: i16 = (last as i16) - (first as i16);
                let is_increase = accumulator > 0;
                let mut collapsed: Vec<u8> = Vec::new();
                collapsed.push(last);
                event.state.detections = collapsed;
                proof {
                    assert(s0.detections.last() == last);
                    assert(s0.detections.first() == first);
                    assert(is_increase == (s0.detections.last() > s0.detections.first()));
                    assert(event.state@.detections =~= seq![s0.detections.last()]);
                    assert(event.state@ =~= encoder_step(s0, elapsed).0);
                }
                Ok(Activation::encoder(true, is_increase))
            } else {
                let bounce = match event.state.detection_threshold {
                    Some(d) => elapsed < d,
                    None => false,
                };
                if bounce {
                    let _ = event.state.detections.pop();
                    proof {
                        assert(event.state@ =~= encoder_step(s0, elapsed).0);
                    }
                } else {
                    proof {
                        assert(event.state@ =~= encoder_step(s0, elapsed).0);
                    }
                }
                Ok(Activation::failed())
            }
        },
        CommandKind::Switch => {
            if elapsed > activation_threshold {
                if event.state.detections.len() == 2 {
                    match event.state.initial_state {
                        Some(init) => {
                            let marker = match init {
                                InitialSwitchState::OFF => MARKER_OFF,
                                InitialSwitchState::ON => MARKER_ON,
                            };
                            let mut seeded: Vec<u8> = Vec::new();
                            seeded.push(marker);
                            seeded.push(marker);
                            event.state.detections = seeded;
                            event.state.start = now;
                            event.elapsed = Some(0);
                            proof {
                                assert(event.state@.detections =~= marker_seed(init));
                                assert(event.state@ =~= switch_step(s0, elapsed, now)->Ok_0.0);
                            }
                            Ok(Activation::switch(true, false))
                        },
                        None => Err(EngineError::MissingInitialState),
                    }
                } else {
                    let n = event.state.detections.len();
                    let _ = event.state.detections.pop();
                    let last_marker = event.state.detections[n - 2];
                    let was_off = last_marker == MARKER_OFF;
                    event.state.detections.push(
                        if was_off {
                            MARKER_ON
                        } else {
                            MARKER_OFF
                        },
                    );
                    let ghost flipped = event.state@.detections;
                    if event.state.detections.len() > DETECTIONS_CAP {
                        let m = event.state.detections.len();
                        let mut tail: Vec<u8> = Vec::new();
                        tail.push(event.state.detections[m - 3]);
                        tail.push(event.state.detections[m - 2]);
                        tail.push(event.state.detections[m - 1]);
                        event.state.detections = tail;
                        proof {
                            assert(event.state@.detections =~= flipped.subrange(
                                flipped.len() - 3,
                                flipped.len() as int,
                            ));
                        }
                    }
                    event.state.start = now;
                    event.elapsed = Some(0);
                    proof {
                        assert(s0.detections[s0.detections.len() - 2] == last_marker);
                        assert(flipped =~= s0.detections.drop_last().push(
                            if was_off {
                                MARKER_ON
                            } else {
                                MARKER_OFF
                            },
                        ));
                        assert(event.state@ =~= switch_step(s0, elapsed, now)->Ok_0.0);
                    }
                    Ok(Activation::switch(true, was_off))
                }
            } else {
                let _ = event.state.detections.pop();
                proof {
                    assert(event.state@ =~= switch_step(s0, elapsed, now)->Ok_0.0);
                }
                Ok(Activation::failed())
            }
        },
        CommandKind::Trigger => {
            if elapsed > activation_threshold {
                event.state.start = now;
                event.state.detections = Vec::new();
                event.elapsed = Some(0);
                proof {
                    assert(event.state@ =~= trigger_step(s0, elapsed, now).0);
                }
                Ok(Activation::trigger(true))
            } else {
                Ok(Activation::failed())
            }
        },
    }
}

} // verus!
