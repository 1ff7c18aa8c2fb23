//! Host-side orchestration of isolated virtual machine instances.
//!
//! The crate models the core of a virtualization service: allocation of
//! guest context identifiers, the registry of live instances, the
//! per-instance lifecycle and payload state machines, assembly of boot
//! disk specifications, and the bridge that attaches guest payload
//! streams and fans events out to registered callbacks.

pub mod cbor;
pub mod cid;
pub mod compos;
pub mod config;
pub mod decimal;
pub mod dice;
pub mod disk;
pub mod errors;
pub mod fdt;
pub mod instance;
pub mod registry;
pub mod service;

use vstd::prelude::*;

verus! {

/// A guest context identifier.
pub type Cid = u32;

/// A handle to an open file kept by the host process on behalf of a VM.
///
/// The verified core never reads file contents; it tracks which open
/// files a VM owns and for how long they must stay open. The caller
/// maps each handle to a real file descriptor.
pub type FileId = u64;

/// A handle to a spawned child process running a VM.
pub type ChildId = u64;

/// A handle to an attached guest payload stream.
pub type StreamId = u64;

/// A handle to a registered lifecycle callback listener.
pub type CallbackId = u64;

} // verus!
