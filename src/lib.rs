//! Named shared memory regions shared between processes, and the decisions
//! that bring up raw synchronisation primitives inside them.
//!
//! The library holds the logic: which operating system call comes next when a
//! mapping is created or opened, how the size of an opened region is settled,
//! which resources a descriptor releases on teardown, how control blocks are
//! laid out inside a region, and how a process learns that a control block is
//! ready to attach. The operating system calls themselves are made by the
//! caller, who hands their outcomes back as plain values.

pub mod bringup;
pub mod error;
pub mod layout;
pub mod mapping;
pub mod resolver;
pub mod sync;
pub mod windows;

pub use error::Error;
pub use mapping::SharedMemory;
