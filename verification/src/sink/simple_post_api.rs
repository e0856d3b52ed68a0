//! Generic HTTP-triggered sink options: turning the sink on or off posts to
//! a configured address, and a missing address means the transition needs no
//! request at all. The HTTP binding lives outside the verified core.

use crate::settings::SinkBaseSettings;
use vstd::prelude::*;

verus! {

/// Options for one HTTP-triggered sink.
#[derive(Debug)]
pub struct Settings {
    /// Address posted to on turn-on; absent means turn-on does nothing.
    pub on_url: Option<String>,
    /// Address posted to on turn-off; absent means turn-off does nothing.
    pub off_url: Option<String>,
    /// Common sink settings.
    pub base: SinkBaseSettings,
}

/// An HTTP-triggered sink: the verified core keeps its options; the HTTP
/// binding sends the requests.
#[derive(Debug)]
pub struct SimplePostApiSink {
    /// The sink's options.
    pub settings: Settings,
}

impl SimplePostApiSink {
    /// Wraps the options of one HTTP-triggered sink.
    pub fn new(settings: Settings) -> (r: Self)
        ensures
            r.settings == settings,
    {
        SimplePostApiSink { settings }
    }

    /// The common sink settings.
    pub fn base_settings(&self) -> (r: &SinkBaseSettings)
        ensures
            r == &self.settings.base,
    {
        &self.settings.base
    }
}

} // verus!
