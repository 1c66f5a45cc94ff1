//! Telemetry-polling core for a wireless soldering iron whose status is
//! republished to an external presence display.
//!
//! The crate holds the pure, verified parts of that system: decoding raw
//! attribute payloads into a telemetry snapshot, deriving the two-line
//! display text, and the supervisor state machine that governs discovery,
//! connection retry, polling and restart. The radio transport and the
//! presence client themselves are collaborators driven by the surrounding
//! program.

pub mod display;
pub mod supervisor;
pub mod telemetry;

pub use display::DisplayStatus;
pub use supervisor::SupervisorAction;
pub use supervisor::SupervisorEvent;
pub use supervisor::SupervisorState;
pub use telemetry::DecodeError;
pub use telemetry::IronStreamingState;
