//! SNMP-managed sink options: the device is switched by setting one object
//! to an integer value. The SNMP binding lives outside the verified core;
//! the value written for each transition is decided here.

use crate::settings::SinkBaseSettings;
use vstd::prelude::*;

verus! {

/// Options for one SNMP-managed sink.
#[derive(Debug)]
pub struct Settings {
    /// Address of the managed device.
    pub host: String,
    /// Community string for the session.
    pub community: String,
    /// Object identifier of the power switch, in dotted notation.
    pub oid: String,
    /// Common sink settings.
    pub base: SinkBaseSettings,
}

/// The integer written to the power-switch object for a boolean power
/// state: one turns the device on, zero turns it off.
pub fn switch_value(state: bool) -> (v: i64)
    ensures
        state ==> v == 1,
        !state ==> v == 0,
{
    if state {
        1
    } else {
        0
    }
}

} // verus!
