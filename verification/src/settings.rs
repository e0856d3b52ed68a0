//! Configuration-derived settings: the general options plus the base
//! settings every source and sink carries. The kind-specific option structs
//! live with their kind under `sink` and `source`.

use vstd::prelude::*;

verus! {

/// General settings for the app.
#[derive(Clone, Copy, Debug, PartialEq, Eq, Structural)]
pub struct GeneralSettings {
    /// When on, the interval in seconds at which it is checked whether all
    /// sources are off again or not.
    pub power_off_check_interval_sec: u64,
}

/// Intervals to poll for source status updates.
#[derive(Clone, Copy, Debug, PartialEq, Eq, Structural)]
pub struct PollInterval {
    /// Poll interval in seconds while the source is on.
    pub on: u64,
    /// Poll interval in seconds while the source is off or unknown.
    pub off: u64,
}

/// Basic settings for sinks, shared by every sink kind.
#[derive(Debug)]
pub struct SinkBaseSettings {
    /// Human-readable name of the sink.
    pub name: String,
    /// Whether this sink is enabled.
    pub enable: bool,
    /// A whitelist for on events of sources that should trigger this sink
    /// (`name` field of source).
    ///
    /// If this is set, but the blacklist is not, then only the sources in
    /// this whitelist will trigger. If both are set, then only sources that
    /// match both filters will trigger. If neither is set, all sources will
    /// trigger.
    pub on_source_whitelist: Option<Vec<String>>,
    /// A blacklist for on events of sources that should NOT trigger this
    /// sink (`name` field of source).
    ///
    /// If this is set, but the whitelist is not, then all sources except
    /// for those in this blacklist will trigger. If both are set, then only
    /// sources that match both filters will trigger. If neither is set, all
    /// sources will trigger.
    pub on_source_blacklist: Option<Vec<String>>,
    /// Timeout in seconds.
    pub timeout_sec: u32,
}

/// Basic settings for sources, shared by every source kind.
#[derive(Debug)]
pub struct SourceBaseSettings {
    /// Human-readable name of the source.
    pub name: String,
    /// Whether this source is enabled.
    pub enable: bool,
    /// The intervals to poll for state changes.
    pub poll_interval_sec: PollInterval,
    /// Timeout in seconds.
    pub timeout_sec: u32,
}

/// Mapping of all available sinks by kind.
#[derive(Debug)]
pub struct MapOfSinkSettings {
    /// Smart-plug sinks.
    pub hs100: Vec<crate::sink::hs100::Settings>,
    /// CEC-over-RPC sinks.
    pub kodi_rpc_cec: Vec<crate::sink::kodi_rpc_cec::Settings>,
}

/// Mapping of all available sources by kind.
#[derive(Debug)]
pub struct MapOfSourceSettings {
    /// Media-player sources.
    pub kodi: Vec<crate::source::kodi::Settings>,
    /// Streaming-console sources.
    pub steamlink: Vec<crate::source::steamlink::Settings>,
}

/// App settings.
#[derive(Debug)]
pub struct Settings {
    /// General settings.
    pub general: GeneralSettings,
    /// All configured sinks.
    pub sink: MapOfSinkSettings,
    /// All configured sources.
    pub source: MapOfSourceSettings,
}

} // verus!
