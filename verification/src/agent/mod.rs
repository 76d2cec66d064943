//! The agent: its tool registry, the reassembly of streamed replies and the
//! state machine that drives a run turn by turn.

pub mod aggregator;
pub mod event;
pub mod laws;
pub mod limits;
pub mod machine;
pub mod reassembly;
pub mod registry;
pub mod run;
