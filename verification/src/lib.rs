//! Low-level primitives for an installer-style tool: content digests,
//! locating the EFI System Partition mount point, the control protocol for
//! streaming an archive through an external extraction process without
//! deadlock, and retrying fallible actions with a mandatory cleanup step
//! between attempts.
pub mod digest;
pub mod esp;
pub mod pipeline;
pub mod retrying;
