//! The failure taxonomy of a run. Resolution and caching failures abort
//! the run; a spawn failure is reported rather than silently absorbed.

use vstd::prelude::*;
use crate::resolver::ResolveError;

verus! {

/// Why a run failed.
#[derive(Clone, Copy, PartialEq, Eq, Structural, Debug)]
pub enum LaunchError {
    /// The configuration file is missing or malformed.
    Config,
    /// A connection, DNS or timeout failure while talking to the release host.
    Network,
    /// An unexpected response from the release host.
    Protocol(ResolveError),
    /// A create, write or permission failure in the cache directory.
    Filesystem,
    /// The child process failed to start.
    Launch,
}

impl LaunchError {
    /// A short, fixed description of the failure kind.
    pub fn describe(&self) -> (r: &'static str)
        ensures
            *self is Config ==> r@ == "configuration error"@,
            *self is Network ==> r@ == "network error"@,
            *self is Protocol ==> r@ == "protocol error"@,
            *self is Filesystem ==> r@ == "filesystem error"@,
            *self is Launch ==> r@ == "child process failed to start"@,
    {
        match self {
            LaunchError::Config => "configuration error",
            LaunchError::Network => "network error",
            LaunchError::Protocol(_) => "protocol error",
            LaunchError::Filesystem => "filesystem error",
            LaunchError::Launch => "child process failed to start",
        }
    }
}

} // verus!
