//! Lifecycle and mutual-exclusion core of an immediate-mode GUI binding.
//!
//! The GUI engine keeps one process-wide "current context" slot, and nearly
//! every engine call acts on whichever context that slot names. This crate
//! holds the state machine around the slot: contexts are created, suspended,
//! activated and destroyed by moving ownership between [`Context`] and
//! [`SuspendedContext`], so that at most one context is current at any time
//! and no engine instance is used after it was released.
//!
//! * [`engine`] is the engine's side: the slot, the instances, and the
//!   primitives on them, with [`EngineModel`] as their mathematical model.
//! * [`gate`] is the re-entrant lock that every transition holds.
//! * [`context`] holds the two handles and the transitions between them.
//! * [`text`] reads the NUL-terminated buffers that the engine hands over.
//! * [`protocol`] states what holds of the transitions in any order.
//!
//! A context is released by [`Context::destroy`] or
//! [`SuspendedContext::destroy`]. One that is merely dropped leaves its
//! instance alive in the engine, and current if it was.

pub mod context;
pub mod engine;
pub mod gate;
pub mod protocol;
pub mod text;

pub use context::{no_current_context, Context, ContextView, SuspendedContext};
pub use engine::{Engine, EngineModel, EngineState, Instance, InstanceView, Io};
