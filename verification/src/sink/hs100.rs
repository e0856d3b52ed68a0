//! Smart-plug sink options: the device is switched by sending commands to
//! its host address. The network binding performing the switching lives
//! outside the verified core.

use crate::settings::SinkBaseSettings;
use vstd::prelude::*;

verus! {

/// Options for one smart-plug sink.
#[derive(Debug)]
pub struct Settings {
    /// Address of the plug.
    pub host: String,
    /// Common sink settings.
    pub base: SinkBaseSettings,
}

/// A smart-plug sink: the verified core keeps its options; the network
/// binding turns the plug on and off.
#[derive(Debug)]
pub struct Hs100Sink {
    /// The sink's options.
    pub settings: Settings,
}

impl Hs100Sink {
    /// Wraps the options of one plug.
    pub fn new(settings: Settings) -> (r: Self)
        ensures
            r.settings == settings,
    {
        Hs100Sink { settings }
    }

    /// The common sink settings.
    pub fn base_settings(&self) -> (r: &SinkBaseSettings)
        ensures
            r == &self.settings.base,
    {
        &self.settings.base
    }
}

} // verus!
