//! A verified process bridge over a pseudo-terminal.
//!
//! The bridge spawns a child process attached to a pty, relays the child's
//! output as ordered events to a consumer, and accepts input and resize
//! commands for the whole life of the session.

pub mod bridge;
pub mod errors;
pub mod events;
pub mod pty;
pub mod relay;
pub mod sink;
pub mod size;

pub use bridge::Process;
pub use bridge::ProcessOptions;
pub use bridge::begin;
pub use bridge::prepare_command;
pub use errors::BridgeError;
pub use events::ProcessEvent;
pub use relay::RelayTask;
pub use size::PtySize;
