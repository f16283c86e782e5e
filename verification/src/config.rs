//! The immutable startup configuration: the two peers and the relay
//! options. It is built once at startup and only read afterwards.

use crate::peer::Peer;
use vstd::prelude::*;

verus! {

/// Relay options: `extend` enables the translation layer, `dryrun` counts
/// packets without forwarding anything, and `patch_cache_path` is the root
/// directory fragment (below the platform configuration directory) under
/// which patch bays live.
#[derive(Debug)]
pub struct Options {
    pub extend: bool,
    pub dryrun: bool,
    pub patch_cache_path: String,
}

/// The whole startup configuration: options plus the two peer records.
#[derive(Debug)]
pub struct Config {
    pub options: Options,
    pub controller: Peer,
    pub instrument: Peer,
}

impl Config {
    /// The two peer records carry one peer of each role.
    pub open spec fn wf(self) -> bool {
        self.controller.kind is Controller && self.instrument.kind is Instrument
    }
}

} // verus!
