//! A code-authenticated point-to-point file transfer client core.
//!
//! Two parties pair with a short human-transcribable code, establish a
//! secure channel through an external rendezvous/transit collaborator, and
//! stream one file between them.  This crate holds the part that is
//! engineered here rather than delegated: the chunk source adapter that
//! turns an asynchronous, range-addressed data source into a pull-based
//! byte reader, the session orchestrator state machine that drives one
//! send or receive attempt, and the typed outcomes handed back to the
//! caller.  The secure-channel protocol itself and all browser/network
//! plumbing live outside this crate and talk to it through plain values.

pub mod adapter;
pub mod config;
pub mod outcome;
pub mod session;

pub use adapter::ChunkCursor;
pub use adapter::ReadStart;
pub use adapter::read_all;
pub use adapter::read_all_with_retries;
pub use config::ClientConfig;
pub use outcome::FailureReason;
pub use outcome::ReceiveResult;
pub use outcome::TransferOutcome;
pub use session::Direction;
pub use session::Session;
pub use session::SessionState;
pub use session::TransferDescriptor;
pub use session::TransitAbilities;
