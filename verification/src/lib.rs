//! Bidirectional OSC relay between a control surface and an audio engine.
//!
//! Packets are flattened into messages, optionally passed through a
//! translation layer (lookup tables for enum-like parameters, a reserved
//! system namespace for diagnostics and patch-bay management), and forwarded.

use vstd::prelude::*;

pub mod config;
pub mod extension;
pub mod handler;
pub mod labeler;

pub mod numeric;
pub mod osc;
pub mod peer;
pub mod text;

verus! {

} // verus!
