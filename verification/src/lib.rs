//! Interrupt-safe concurrency primitives for a dual-core embedded target,
//! verified against an explicit model of the kernel state they drive.
//!
//! The real kernel primitives (interrupt masking, the cross-core spinlock,
//! task notification words) live behind FFI and cannot be verified directly.
//! This library therefore models that state as plain data — the spinlock's
//! owner and recursion count, a core's interrupt-mask depth, the yielder
//! slot's packed word, a task's notification word — and verifies every
//! decision this layer makes over that model: recursive cross-core mutual
//! exclusion, nested interrupt masking, yield routing and capture, and
//! notification delivery. An embedding maps each model transition onto the
//! corresponding kernel call.

pub mod context;
pub mod critical;
pub mod mutex;
pub mod notify;
pub mod yielder;

pub use context::CoreState;
pub use context::active;
pub use critical::IsrCriticalSection;
pub use critical::IsrCriticalSectionGuard;
pub use critical::free;
pub use mutex::IsrRawMutex;
pub use notify::TaskNotification;
pub use yielder::YielderState;
