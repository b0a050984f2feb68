//! Supervise a child process under a wall-clock deadline.
//!
//! The library holds the decisions: which signal a name stands for, how the
//! supervisor reacts to each event of the child's lifetime, which exit status
//! the supervisor reports, and how duration and size arguments are read. The
//! process plumbing (fork, exec, signal delivery, timers) is left to the caller.
use vstd::prelude::*;

pub mod text;
pub mod error;
pub mod signal;
pub mod policy;
pub mod supervisor;
pub mod parse;
pub mod args;
pub mod platform;

pub use args::Args;
pub use error::TimeoutError;
pub use platform::Platform;
pub use signal::{SignalId, TimeoutSignal};

verus! {

} // verus!
