//! Safe, verified interface to kernel-provided POSIX message queues: named,
//! capacity-bounded channels whose messages carry a priority and are delivered
//! highest-priority-first, FIFO among equal priorities.
//!
//! The crate normalizes queue names, converts timeouts and wall-clock
//! deadlines into the kernel's absolute-time representation without overflow,
//! and maps kernel error codes into a small error taxonomy. The kernel calls
//! themselves are made through thin trusted wrappers around the `nix` crate;
//! everything around those calls is verified.

pub mod error;
pub mod iter;
pub mod mq;
pub mod name;
pub mod options;
pub mod quirks;
mod sys;
pub mod time;

pub use error::Error;
pub use iter::{IntoIter, Iter};
pub use mq::{remove_queue, remove_queue_c, Attributes, PosixMq};
pub use options::OpenOptions;
