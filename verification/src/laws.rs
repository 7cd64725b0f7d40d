//! The engine's guarantees, stated and proved against the transition
//! functions of `engine`. Each law here quantifies over all inputs its
//! statement allows; concrete scenarios live in the test suite.

use vstd::prelude::*;
use crate::types::{Activation, EngineError, KeyStateModel};
use crate::engine::{
    DETECTIONS_CAP, MARKER_OFF, MARKER_ON, appended, encoder_step, marker_seed, seeded_state,
    switch_step, trigger_step,
};

verus! {

/// A freshly seeded key state holds exactly the one sample that seeded it,
/// opens its window at the seeding instant, and is produced only along the
/// non-activating path: the first sample for a key can never itself fire.
pub proof fn first_sample_only_seeds(c: crate::types::ControlModel, value: u8, now: u64)
    ensures
        seeded_state(c, value, now).detections == seq![value],
        seeded_state(c, value, now).start == now,
{
}

/// Two samples `a` then `b` past the activation window always activate with
/// direction `increase == (b > a)` (the sign of the widened difference
/// `b - a`), and the window collapses to exactly the single last sample.
pub proof fn encoder_two_sample_direction(
    c: crate::types::ControlModel,
    a: u8,
    b: u8,
    t0: u64,
    elapsed: u64,
)
    requires
        elapsed > c.threshold.spec_activation(),
    ensures
        ({
            let s = appended(seeded_state(c, a, t0), b);
            encoder_step(s, elapsed) == (
                KeyStateModel { detections: seq![b], ..s },
                Activation::spec_encoder(true, b > a),
            )
        }),
{
    let s = appended(seeded_state(c, a, t0), b);
    assert(s.detections =~= seq![a, b]);
    assert(s.detections.last() == b);
    assert(s.detections.first() == a);
    assert(encoder_step(s, elapsed).0 =~= KeyStateModel { detections: seq![b], ..s });
}

/// A sample arriving below the configured noise window is discarded without
/// an activation, and the state is exactly what it was before the sample.
pub proof fn encoder_bounce_preserves_state(s: KeyStateModel, v: u8, elapsed: u64)
    requires
        s.detection_threshold matches Some(d) && elapsed < d,
        elapsed <= s.activation_threshold,
    ensures
        encoder_step(appended(s, v), elapsed) == (s, Activation::spec_failed()),
{
    assert(appended(s, v).detections.drop_last() =~= s.detections);
    assert(encoder_step(appended(s, v), elapsed).0 =~= s);
}

/// An accepted first post-initialization transition (exactly the two seed
/// samples present) always activates, reopens the window, and seeds the
/// polarity markers from the configured resting state. Both resting states
/// yield the same first payload; they diverge from the second transition on,
/// through the markers.
pub proof fn switch_first_transition(s: KeyStateModel, elapsed: u64, now: u64)
    requires
        s.detections.len() == 2,
        s.initial_state is Some,
        elapsed > s.activation_threshold,
    ensures
        switch_step(s, elapsed, now) == Ok::<(KeyStateModel, Activation), EngineError>(
            (
                KeyStateModel { start: now, detections: marker_seed(s.initial_state->0), ..s },
                Activation::spec_switch(true, false),
            ),
        ),
{
}

/// Consecutive accepted switch transitions strictly alternate polarity: an
/// accepted transition emits "now on" exactly when the stored marker said
/// "was off", and rewrites the marker so the next accepted transition emits
/// the opposite.
pub proof fn switch_transitions_alternate(
    s: KeyStateModel,
    v1: u8,
    v2: u8,
    e1: u64,
    e2: u64,
    n1: u64,
    n2: u64,
)
    requires
        s.detections.len() >= 2,
        e1 > s.activation_threshold,
        e2 > s.activation_threshold,
    ensures
        ({
            let was_off = s.detections.last() == MARKER_OFF;
            switch_step(appended(s, v1), e1, n1) matches Ok(p1) && (p1.1
                == Activation::spec_switch(true, was_off) && (switch_step(
                appended(p1.0, v2),
                e2,
                n2,
            ) matches Ok(p2) && p2.1 == Activation::spec_switch(true, !was_off)))
        }),
{
    let s1 = appended(s, v1);
    let was_off = s.detections.last() == MARKER_OFF;
    assert(s1.detections[s1.detections.len() - 2] == s.detections.last());
    let flip: u8 = if was_off {
        MARKER_ON
    } else {
        MARKER_OFF
    };
    let flipped = s1.detections.drop_last().push(flip);
    assert(flipped.len() == s1.detections.len());
    assert(flipped.last() == flip);
    let p1 = switch_step(s1, e1, n1)->Ok_0;
    assert(p1.0.detections.last() == flip);
    assert(p1.0.detections.len() >= 3);
    assert(p1.0.activation_threshold == s.activation_threshold);
    let s2 = appended(p1.0, v2);
    assert(s2.detections.len() >= 4);
    assert(s2.detections[s2.detections.len() - 2] == flip);
    assert((flip == MARKER_OFF) == !was_off);
}

/// An accepted transition of a switch whose history was within the pruning
/// cap leaves it within the cap again: marker history never outgrows it.
pub proof fn switch_memory_bound(s: KeyStateModel, v: u8, elapsed: u64, now: u64)
    requires
        1 <= s.detections.len() <= DETECTIONS_CAP,
        elapsed > s.activation_threshold,
    ensures
        switch_step(appended(s, v), elapsed, now) matches Ok(p) ==> p.0.detections.len()
            <= DETECTIONS_CAP,
{
    let s1 = appended(s, v);
    if s1.detections.len() != 2 {
        let was_off = s1.detections[s1.detections.len() - 2] == MARKER_OFF;
        let flipped = s1.detections.drop_last().push(
            if was_off {
                MARKER_ON
            } else {
                MARKER_OFF
            },
        );
        assert(flipped.len() == s1.detections.len());
    }
}

/// The last stored marker alone determines the polarity an accepted
/// transition emits: two states agreeing on their last marker emit the same
/// activation, whatever else their histories hold.
pub proof fn switch_polarity_from_last(
    s: KeyStateModel,
    t: KeyStateModel,
    v: u8,
    w: u8,
    e1: u64,
    e2: u64,
    n1: u64,
    n2: u64,
)
    requires
        s.detections.len() >= 2,
        t.detections.len() >= 2,
        s.detections.last() == t.detections.last(),
        e1 > s.activation_threshold,
        e2 > t.activation_threshold,
    ensures
        switch_step(appended(s, v), e1, n1) matches Ok(p) && switch_step(
            appended(t, w),
            e2,
            n2,
        ) matches Ok(q) ==> p.1 == q.1,
{
    let s1 = appended(s, v);
    let t1 = appended(t, w);
    assert(s1.detections[s1.detections.len() - 2] == s.detections.last());
    assert(t1.detections[t1.detections.len() - 2] == t.detections.last());
}

/// A trigger activation clears the detections and reopens the window at the
/// activation instant; a further sample arriving within the activation
/// window of that instant never activates. Two triggers closer together
/// than the activation threshold cannot both fire.
pub proof fn trigger_no_double_fire(s: KeyStateModel, e1: u64, n1: u64, v: u8, e2: u64, n2: u64)
    requires
        e1 > s.activation_threshold,
        e2 <= s.activation_threshold,
    ensures
        ({
            let p1 = trigger_step(s, e1, n1);
            &&& p1.1.valid
            &&& p1.0.detections.len() == 0
            &&& p1.0.start == n1
            &&& !trigger_step(appended(p1.0, v), e2, n2).1.valid
        }),
{
}

} // verus!
