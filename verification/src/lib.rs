//! Resolution of a stable hardware identity string for the local machine.
//!
//! The resolver selects the highest-priority strategy applicable on the
//! current platform, executes it, and normalizes the raw result into a
//! canonical identifier string, degrading to a fixed sentinel when no real
//! hardware signal is obtainable. It is synchronous, stateless across calls,
//! and has no side effects beyond reading local system state.

pub mod mac;
pub mod outcome;
pub mod platform;
pub mod query;
pub mod resolver;
pub mod text;

pub use outcome::Identifier;
pub use outcome::ResolutionFailure;
pub use outcome::ResolutionOutcome;
pub use platform::Platform;
pub use platform::Strategy;
pub use resolver::UuidQueryOutcome;
pub use resolver::get_hardware_id;
