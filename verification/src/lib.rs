//! Robot-control building blocks: the REVLib status and configuration codes
//! exchanged with the motor-controller library, their translation into
//! Rust errors, the pacing rule that spaces motor output updates, and the
//! state of the example subsystem.

pub mod rev;
pub mod server;
