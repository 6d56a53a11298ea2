//! A shared-state container with exclusive-access guarantees, paired with a
//! task-spawn/join coordinator.
//!
//! [`container::SharedContainer`] owns a single value behind a verified lock;
//! any number of handles may refer to it, and a value is only ever read or
//! replaced inside an exclusive critical section. [`coordinator`] launches
//! independent workers and provides a barrier that completes only when every
//! worker has terminated. [`math`] holds small arithmetic helpers.

pub mod container;
pub mod coordinator;
pub mod math;
