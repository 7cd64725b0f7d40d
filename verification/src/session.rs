//! Per-device session: owns the key-to-state table, routes each sample
//! through the debounce engine, resolves accepted activations into commands,
//! and commits the resulting state per the control kind. One session is
//! owned by exactly one device worker; nothing here is shared.

use vstd::prelude::*;
use std::collections::HashMap;
use crate::types::{
    Activation, CommandKind, Config, ControlModel, Dispatch, DispatchError, EngineError, KeyState,
    KeyStateModel, resolution_model,
};
use crate::registry::{config_wf, key_found, key_index, lemma_key_index_works};
use crate::engine::{
    DETECTIONS_CAP, appended, debounce, debounce_step, lemma_debounce_step_invariants,
    on_key_event, seeded_state,
};
use crate::dispatch::{call_command, resolution_ok};

verus! {

broadcast use vstd::std_specs::hash::group_hash_axioms;

/// What one processed sample came to.
pub enum SampleOutcome {
    /// The key is not configured; the sample is ignored.
    UnknownKey,
    /// The first sample for the key seeded its state; never an activation.
    Initialized,
    /// The sample extended or pruned the window without activating.
    NoActivation,
    /// The sample activated; the command resolution result is carried along.
    Activated { activation: Activation, dispatch: Result<Dispatch, DispatchError> },
    /// The engine faulted on the sample; the table is untouched.
    Rejected { error: EngineError },
}

/// A per-device session: the device configuration and the mutable mapping
/// from physical key to optional per-key state.
pub struct Session {
    pub config: Config,
    pub states: HashMap<u8, Option<KeyState>>,
}

impl Session {
    /// The state table abstracted to models.
    pub open spec fn state_models(self) -> Map<u8, Option<KeyStateModel>> {
        self.states@.map_values(
            |v: Option<KeyState>|
                match v {
                    Some(s) => Some(s@),
                    None => None,
                },
        )
    }

    /// The configured control bound to key `k` (meaningful when the key is
    /// in the table of a well-formed session).
    pub open spec fn control_of(self, k: u8) -> ControlModel {
        self.config@.controls[key_index(self.config@.controls, k)]
    }

    /// Session invariant: the configuration is structurally sound, every
    /// tabled key is configured, and every stored state has at least one
    /// detection, remembers exactly the configured resting polarity of its
    /// control, and — for switches — stays within the pruning cap.
    pub open spec fn wf(self) -> bool {
        &&& config_wf(self.config@)
        &&& forall|k: u8|
            #[trigger] self.states@.contains_key(k) ==> key_found(self.config@.controls, k)
        &&& forall|k: u8|
            #[trigger] self.states@.contains_key(k) ==> match self.states@[k] {
                Some(s) => {
                    &&& s@.detections.len() >= 1
                    &&& s@.initial_state == self.control_of(k).command.initial_state()
                    &&& s@.initial_state is Some ==> s@.detections.len() <= DETECTIONS_CAP
                },
                None => true,
            }
    }

    /// All stored windows opened at or before `now`.
    pub open spec fn quiescent_before(self, now: u64) -> bool {
        forall|k: u8|
            #[trigger] self.states@.contains_key(k) ==> match self.states@[k] {
                Some(s) => s@.start <= now,
                None => true,
            }
    }
}

/// A session that is quiescent before some instant stays so before any
/// later instant.
pub proof fn lemma_quiescent_monotonic(s: Session, now1: u64, now2: u64)
    requires
        s.quiescent_before(now1),
        now1 <= now2,
    ensures
        s.quiescent_before(now2),
{
}

/// Builds the session for one device: a state table seeded with `None` for
/// exactly the keys its configuration binds.
pub fn handle_device(config: Config) -> (s: Session)
    requires
        config_wf(config@),
    ensures
        s.config == config,
        s.wf(),
        forall|k: u8| #[trigger] s.states@.contains_key(k) <==> key_found(config@.controls, k),
        forall|k: u8| #[trigger] s.states@.contains_key(k) ==> s.states@[k] is None,
{
    let ghost cs = config@.controls;
    let mut states: HashMap<u8, Option<KeyState>> = HashMap::new();
    let mut i: usize = 0;
    while i < config.controls.len()
        invariant
            i <= config.controls.len(),
            cs == config@.controls,
            forall|k: u8|
                #[trigger] states@.contains_key(k) <==> exists|j: int|
                    0 <= j < i && (#[trigger] cs[j]).key == k,
            forall|k: u8| #[trigger] states@.contains_key(k) ==> states@[k] is None,
        decreases config.controls.len() - i,
    {
        let k = config.controls[i].key;
        states.insert(k, None);
        proof {
            assert(cs[i as int].key == k);
        }
        i += 1;
    }
    let s = Session { config, states };
    proof {
        assert forall|k: u8| #[trigger] s.states@.contains_key(k) implies key_found(cs, k) by {}
        assert forall|k: u8| key_found(cs, k) implies s.states@.contains_key(k) by {}
    }
    s
}

impl Session {
    /// Routes one raw sample through the engine and commits the result.
    ///
    /// An unknown key is ignored. The first sample for a key seeds its state
    /// and never activates. A later sample is appended and debounced; an
    /// accepted activation is resolved into a command, and the state is
    /// committed back per the control kind: a switch keeps its updated state
    /// (it must remember polarity), any other accepted activation clears the
    /// key back to its uninitialized baseline, and a non-activating sample
    /// keeps the updated window. An engine fault leaves the table exactly as
    /// it was.
    pub fn process_sample(&mut self, key: u8, value: u8, now: u64) -> (r: SampleOutcome)
        requires
            old(self).wf(),
            old(self).quiescent_before(now),
        ensures
            final(self).config == old(self).config,
            final(self).wf(),
            final(self).quiescent_before(now),
            final(self).states@.dom() == old(self).states@.dom(),
            ({
                let cs = old(self).config@.controls;
                let m0 = old(self).state_models();
                let m1 = final(self).state_models();
                match r {
                    SampleOutcome::UnknownKey => !m0.contains_key(key) && m1 == m0,
                    SampleOutcome::Initialized => {
                        &&& m0.contains_key(key)
                        &&& m0[key] is None
                        &&& m1 == m0.insert(
                            key,
                            Some(seeded_state(cs[key_index(cs, key)], value, now)),
                        )
                    },
                    SampleOutcome::Rejected { error } => {
                        &&& m0.contains_key(key)
                        &&& m0[key] matches Some(s) && debounce_step(
                            cs[key_index(cs, key)].kind,
                            appended(s, value),
                            (now - s.start) as u64,
                            now,
                        ) == Err::<(KeyStateModel, Activation), EngineError>(error)
                        &&& m1 == m0
                    },
                    SampleOutcome::NoActivation => {
                        &&& m0.contains_key(key)
                        &&& m0[key] matches Some(s) && debounce_step(
                            cs[key_index(cs, key)].kind,
                            appended(s, value),
                            (now - s.start) as u64,
                            now,
                        ) matches Ok(p) && !p.1.valid && m1 == m0.insert(key, Some(p.0))
                    },
                    SampleOutcome::Activated { activation, dispatch } => {
                        &&& m0.contains_key(key)
                        &&& m0[key] matches Some(s) && debounce_step(
                            cs[key_index(cs, key)].kind,
                            appended(s, value),
                            (now - s.start) as u64,
                            now,
                        ) matches Ok(p) && p.1 == activation && activation.valid && {
                            &&& m1 == m0.insert(
                                key,
                                if cs[key_index(cs, key)].kind == CommandKind::Switch {
                                    Some(p.0)
                                } else {
                                    None
                                },
                            )
                            &&& resolution_ok(
                                cs,
                                p.0.control,
                                p.0.detections,
                                activation.kind,
                                resolution_model(dispatch),
                            )
                        }
                    },
                }
            }),
    {
        let ghost cs = self.config@.controls;
        let ghost m0 = self.state_models();
        if !self.states.contains_key(&key) {
            return SampleOutcome::UnknownKey;
        }
        let prior: Option<KeyState> = match self.states.remove(&key) {
            Some(p) => p,
            None => {
                // not reachable: the key was just found in the table
                return SampleOutcome::UnknownKey;
            },
        };
        let ghost prior0 = prior;
        let mut key_event = match on_key_event(key, prior, &self.config, value, now) {
            Ok(ev) => ev,
            Err(_) => {
                // not reachable: every tabled key is configured
                proof {
                    assert(key_found(cs, key));
                    assert(false);
                }
                return SampleOutcome::UnknownKey;
            },
        };
        if !key_event.initialized {
            self.states.insert(key, Some(key_event.state));
            proof {
                assert(self.state_models() =~= m0.insert(
                    key,
                    Some(seeded_state(cs[key_index(cs, key)], value, now)),
                ));
                assert(self.wf());
            }
            return SampleOutcome::Initialized;
        }
        let ghost s0: KeyStateModel = (prior0->0)@;
        let ghost kind0 = key_event.kind;
        let ghost s_app = key_event.state@;
        let ghost el: u64 = key_event.elapsed->0;
        let activation = match debounce(&mut key_event, now) {
            Ok(a) => a,
            Err(error) => {
                let _ = key_event.state.detections.pop();
                proof {
                    assert(key_event.state@ =~= s0);
                }
                self.states.insert(key, Some(key_event.state));
                proof {
                    assert(self.state_models() =~= m0);
                    assert(self.wf());
                }
                return SampleOutcome::Rejected { error };
            },
        };
        proof {
            lemma_debounce_step_invariants(kind0, s_app, el, now);
        }
        if activation.valid {
            let dispatch = call_command(&key_event, &activation, &self.config.controls);
            match key_event.kind {
                CommandKind::Switch => {
                    let ghost s1 = key_event.state@;
                    self.states.insert(key, Some(key_event.state));
                    proof {
                        assert(self.state_models() =~= m0.insert(key, Some(s1)));
                        assert(self.wf());
                    }
                    SampleOutcome::Activated { activation, dispatch }
                },
                _ => {
                    self.states.insert(key, None);
                    proof {
                        assert(self.state_models() =~= m0.insert(key, None));
                        assert(self.wf());
                    }
                    SampleOutcome::Activated { activation, dispatch }
                },
            }
        } else {
            let ghost s1 = key_event.state@;
            self.states.insert(key, Some(key_event.state));
            proof {
                assert(self.state_models() =~= m0.insert(key, Some(s1)));
                assert(s1.initial_state == s0.initial_state);
                assert(s1.detections.len() >= 1);
                if s1.initial_state is Some {
                    assert(old(self).control_of(key).command.kind() == CommandKind::Switch);
                    lemma_key_index_works(cs, key);
                    assert(cs[key_index(cs, key)].command.kind() == cs[key_index(cs, key)].kind);
                    assert(kind0 == CommandKind::Switch);
                    assert(s0.detections.len() <= DETECTIONS_CAP);
                    assert(s_app.detections.len() <= DETECTIONS_CAP + 1);
                    assert(s1.detections.len() <= DETECTIONS_CAP);
                }
                assert forall|k: u8| #[trigger] self.states@.contains_key(k) implies
                    key_found(cs, k) by {
                    assert(old(self).states@.contains_key(k));
                }
                assert(self.wf());
            }
            SampleOutcome::NoActivation
        }
    }
}

} // verus!
