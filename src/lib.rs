//! The core of an event-driven agent: collectors feed events to strategies,
//! strategies submit actions, and every executor sees every action.
//!
//! - `channel`: the bounded broadcast channel that carries events and actions.
//! - `engine`: registration and the supervised life of a run.
//! - `pipeline`: an engine with its two channels, closed in drain order.
//! - `tasks`: the per-component steps, with the adapters between a
//!   component's own type and the engine's event and action types.
//! - `sender`: the decisions of the transaction executor.
//! - `fetch`: the retry decisions of the full-block collector.

pub mod channel;
pub mod engine;
pub mod fetch;
pub mod sender;
pub mod tasks;
pub mod pipeline;
