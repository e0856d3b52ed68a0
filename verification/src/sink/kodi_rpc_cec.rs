//! CEC-over-RPC sink options: a media player reachable over an RPC endpoint
//! forwards CEC power commands to its display. The RPC binding lives outside
//! the verified core; the command words it must send are decided here.

use crate::settings::SinkBaseSettings;
use vstd::prelude::*;

verus! {

/// Options for one CEC-over-RPC sink.
#[derive(Debug)]
pub struct Settings {
    /// RPC endpoint of the media player.
    pub jsonrpc: String,
    /// Optional user for the endpoint.
    pub user: Option<String>,
    /// Optional password for the endpoint.
    pub pass: Option<String>,
    /// Common sink settings.
    pub base: SinkBaseSettings,
}

/// A CEC-over-RPC sink: the verified core keeps its options; the RPC
/// binding sends the commands.
#[derive(Debug)]
pub struct KodiRpcCecSink {
    /// The sink's options.
    pub settings: Settings,
}

impl KodiRpcCecSink {
    /// Wraps the options of one CEC-over-RPC sink.
    pub fn new(settings: Settings) -> (r: Self)
        ensures
            r.settings == settings,
    {
        KodiRpcCecSink { settings }
    }

    /// The common sink settings.
    pub fn base_settings(&self) -> (r: &SinkBaseSettings)
        ensures
            r == &self.settings.base,
    {
        &self.settings.base
    }
}

/// The CEC command a power transition maps to.
#[derive(Clone, Copy, Debug, PartialEq, Eq, Structural)]
pub enum CecCommand {
    /// Put the display on standby.
    Standby,
    /// Make the display active.
    Activate,
}

impl CecCommand {
    /// The command word the CEC addon expects.
    pub fn as_str(&self) -> (r: &'static str)
        ensures
            *self == CecCommand::Standby ==> r@ == "standby"@,
            *self == CecCommand::Activate ==> r@ == "activate"@,
    {
        match self {
            CecCommand::Standby => "standby",
            CecCommand::Activate => "activate",
        }
    }
}

} // verus!
