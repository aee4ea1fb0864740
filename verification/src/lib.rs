//! CPU time used by a process or by the calling thread, as timestamps that
//! are built from the system's answers and subtract into a `Duration`.
//!
//! The library makes no system call. Its caller queries the system for the
//! kernel and user time of a process or thread and hands the answer over as
//! a `TimesReply`; what the answer means, and what two answers are apart, is
//! decided here.
//!
//! No function of the library panics. A query that the system did not serve,
//! and an answer that reports less CPU time than a timestamp already holds,
//! come back as a `ClockError`, and the caller decides what to do about it.

pub mod process;
pub mod query;
pub mod span;
pub mod thread;
pub mod ticks;

pub use process::ProcessTime;
pub use query::{ClockError, TimesReply};
pub use thread::ThreadTime;
pub use ticks::FileTime;
