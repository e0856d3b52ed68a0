//! Media-player source options: the player is asked over an RPC endpoint
//! whether any player instance is active. The RPC binding lives outside the
//! verified core.

use crate::settings::SourceBaseSettings;
use vstd::prelude::*;

verus! {

/// Options for one media-player source.
#[derive(Debug)]
pub struct Settings {
    /// RPC endpoint of the media player.
    pub jsonrpc: String,
    /// Optional user for the endpoint.
    pub user: Option<String>,
    /// Optional password for the endpoint.
    pub pass: Option<String>,
    /// Common source settings.
    pub base: SourceBaseSettings,
}

/// A media-player source: the verified core keeps its options; the RPC
/// binding probes the player.
#[derive(Debug)]
pub struct KodiSource {
    /// The source's options.
    pub settings: Settings,
}

impl KodiSource {
    /// Wraps the options of one media-player source.
    pub fn new(settings: Settings) -> (r: Self)
        ensures
            r.settings == settings,
    {
        KodiSource { settings }
    }

    /// The common source settings.
    pub fn base_settings(&self) -> (r: &SourceBaseSettings)
        ensures
            r == &self.settings.base,
    {
        &self.settings.base
    }
}

} // verus!
