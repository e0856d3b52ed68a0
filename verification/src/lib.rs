//! A power-orchestration core: it tracks the activity of a set of sources
//! (media players, consoles) and decides when a set of power-controllable
//! sinks (displays, smart plugs) must be turned on or off.
//!
//! The crate holds the verified decision logic: the tri-state power model,
//! the coalescing wakeup signal, the identity-keyed registries, the sink
//! admission filter, and the state transitions of the per-source check task
//! and of the sink decision loop. The protocol bindings that probe sources
//! and command sinks live outside and feed their outcomes in as plain values.

pub mod async_util;
pub mod identity;
pub mod log;
pub mod settings;
pub mod sink;
pub mod source;
pub mod state;
