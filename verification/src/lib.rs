//! A verified binding shim between a host process and a plugin capability.
//!
//! A host process talks to a plugin through a fixed, primitive calling
//! convention: raw text arguments, scalar return values, and caller-owned
//! byte buffers.  This crate models that boundary over plain values and
//! proves the marshalling contract: text inputs are validated as UTF-8
//! (invalid input becomes the empty string), results of failing operations
//! collapse to the wire-level zero value, string results are copied into a
//! fixed-capacity destination with a terminating zero byte only when they
//! fit, and plugin instances live in a handle arena from construction to
//! teardown.

use vstd::prelude::*;

pub mod host;
pub mod plugin;
pub mod sample;
pub mod text;
pub mod wire;

verus! {

/// Version marker for the boundary calling convention, so a host can test
/// compatibility before calling any entry point.
pub const NWNXCPLUGIN_ABI_VERSION: u32 = 1;

} // verus!
