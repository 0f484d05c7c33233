//! Desktop-shell bootstrap: a build-time placeholder-icon provisioner and a
//! lifecycle manager for a bundled backend executable.
//!
//! The icon provisioner decides whether a placeholder icon must be written and
//! supplies its exact byte payload. The backend lifecycle manager tracks the
//! single child-process handle through a lock-guarded slot, recording a
//! successful spawn and surrendering the handle exactly once when the main
//! window's close request arrives. All file and process I/O stays with the
//! host program; this crate holds the decisions and the data, verified.

pub mod backend;
pub mod icon;
