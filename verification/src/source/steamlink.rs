//! Streaming-console source options and the decisions of its watcher: the
//! console is reached over a remote shell by a dedicated worker, which keeps
//! its own bounded reconnect policy and, after too many consecutive
//! connection failures, degrades to reporting the console inactive. The
//! remote-shell binding lives outside the verified core; the policy and the
//! interpretation of the remote command live here.

use crate::settings::SourceBaseSettings;
use vstd::prelude::*;

verus! {

/// Consecutive connection failures tolerated, once the console has been
/// seen active, before it is assumed to have gone offline.
pub const MAX_CONNECTION_TRIES: usize = 3;

/// Options for one streaming-console source.
#[derive(Debug)]
pub struct Settings {
    /// Address of the console's shell service.
    pub host: String,
    /// User for the shell login.
    pub user: String,
    /// Password for the shell login.
    pub pass: String,
    /// Common source settings.
    pub base: SourceBaseSettings,
}

/// What the watcher decides after one connection attempt.
#[derive(Debug, PartialEq, Eq)]
pub struct WatcherStep {
    /// Connection failures still tolerated before assuming the console
    /// offline; absent while no bounded countdown is running.
    pub retries_left: Option<usize>,
    /// The activity value to report back, when one is owed; absent means
    /// the attempt's own error is reported instead.
    pub respond_active: Option<bool>,
    /// Whether the bounded retries ran out, so inactivity is reported in
    /// place of the error.
    pub assumed_offline: bool,
    /// Whether the watcher backs off before serving the next request.
    pub sleep_before_retry: bool,
}

/// One decision of the watcher after a connection attempt: `observed` holds
/// the probed activity on success and is absent when the attempt failed.
///
/// A successful active probe re-arms the bounded retry countdown; a failure
/// counts it down once armed, and when it runs out the console is assumed
/// offline and reported inactive. Failures before the console was ever seen
/// active report the error unbounded.
pub fn ssh_thread_step(retries_left: Option<usize>, observed: Option<bool>) -> (step: WatcherStep)
    ensures
        observed == Some(true) ==> step == (WatcherStep {
            retries_left: Some(MAX_CONNECTION_TRIES),
            respond_active: Some(true),
            assumed_offline: false,
            sleep_before_retry: false,
        }),
        observed == Some(false) ==> step == (WatcherStep {
            retries_left,
            respond_active: Some(false),
            assumed_offline: false,
            sleep_before_retry: false,
        }),
        observed is None && retries_left is None ==> step == (WatcherStep {
            retries_left: None,
            respond_active: None,
            assumed_offline: false,
            sleep_before_retry: true,
        }),
        observed is None && retries_left == Some(0usize) ==> step == (WatcherStep {
            retries_left: None,
            respond_active: Some(false),
            assumed_offline: true,
            sleep_before_retry: true,
        }),
        observed is None && retries_left is Some && retries_left.unwrap() > 0 ==> step == (
        WatcherStep {
            retries_left: Some((retries_left.unwrap() - 1) as usize),
            respond_active: None,
            assumed_offline: false,
            sleep_before_retry: true,
        }),
{
    match observed {
        Some(active) => WatcherStep {
            retries_left: if active {
                Some(MAX_CONNECTION_TRIES)
            } else {
                retries_left
            },
            respond_active: Some(active),
            assumed_offline: false,
            sleep_before_retry: false,
        },
        None => match retries_left {
            None => WatcherStep {
                retries_left: None,
                respond_active: None,
                assumed_offline: false,
                sleep_before_retry: true,
            },
            Some(n) => {
                if n == 0 {
                    WatcherStep {
                        retries_left: None,
                        respond_active: Some(false),
                        assumed_offline: true,
                        sleep_before_retry: true,
                    }
                } else {
                    WatcherStep {
                        retries_left: Some(n - 1),
                        respond_active: None,
                        assumed_offline: false,
                        sleep_before_retry: true,
                    }
                }
            },
        },
    }
}

/// The activity the remote process listing reports: exit status zero means
/// the streaming process was found, one means it was not, and anything else
/// is unexpected and reported as an error.
pub fn exit_status_to_active(code: i32) -> (r: Option<bool>)
    ensures
        code == 0 ==> r == Some(true),
        code == 1 ==> r == Some(false),
        code != 0 && code != 1 ==> r is None,
{
    if code == 0 {
        Some(true)
    } else if code == 1 {
        Some(false)
    } else {
        None
    }
}

} // verus!
