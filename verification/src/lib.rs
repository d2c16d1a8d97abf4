//! Decision core of a companion-process supervisor.
//!
//! The supervisor locates a backend service, starts it either as a native
//! executable or through an interpreter, and stops it again when the host
//! application shuts down. This crate holds every decision of that job as
//! verified functions over plain values; touching the filesystem, the
//! environment and the process table is left to the caller.

pub mod platform;
pub mod paths;
pub mod command;
pub mod stdio;
pub mod launch;
pub mod strategy;
pub mod lifecycle;
