//! A readiness selector built on a one-shot, completion-based kernel poll.
//!
//! The library holds the logic that decides what is submitted to the kernel
//! and what is reported back: the translation of interests into poll bits,
//! the readiness queries on an event, and the table of watch records that
//! correlates each completion with the registration that asked for it and
//! rearms it.

mod token;
mod poll;
pub mod event;
mod watch;

pub use token::{Token, Interests};
pub use poll::interests_to_poll;
pub use event::Event;

pub use watch::{Watch, Submission, Completion, WatchTable};
