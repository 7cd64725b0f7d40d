//! Turns raw control-surface samples (key/velocity pairs) into debounced
//! activations — encoder rotation, switch toggle, trigger press — and resolves
//! each activation into the external command it should launch.
//!
//! The crate holds the pure core: the per-key debounce state machine, the
//! control registry, the command resolution (value interpolation and token
//! substitution), and the per-device session bookkeeping. Transport I/O and
//! process launching live outside, feeding plain `(key, value)` samples and a
//! millisecond clock in, and taking resolved commands out.

pub mod types;
pub mod registry;
pub mod engine;
pub mod dispatch;
pub mod session;
pub mod laws;
