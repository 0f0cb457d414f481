//! Resolution of the operating mode from the command-line configuration.
//!
//! A listen address selects server mode; a remote endpoint selects client
//! mode. Giving both, or neither, is a configuration error caught before
//! any network or input handling.

use vstd::prelude::*;

verus! {

/// The mode the process runs in.
#[derive(Copy, Clone, Debug, PartialEq, Eq, Structural)]
pub enum Mode {
    Server,
    Client,
}

/// A configuration that selects no single mode.
#[derive(Copy, Clone, Debug, PartialEq, Eq, Structural)]
pub enum ConfigError {
    /// Both a listen address and a remote endpoint were given.
    ConflictingEndpoint,
    /// Neither a listen address nor a remote endpoint was given.
    MissingEndpoint,
}

/// Resolves the mode from whether a listen address and whether an endpoint
/// were given. Exactly one of the two must be present.
pub fn resolve_mode(listen_given: bool, endpoint_given: bool) -> (r: Result<Mode, ConfigError>)
    ensures
        listen_given && endpoint_given ==> r == Result::<Mode, ConfigError>::Err(
            ConfigError::ConflictingEndpoint,
        ),
        listen_given && !endpoint_given ==> r == Result::<Mode, ConfigError>::Ok(Mode::Server),
        !listen_given && endpoint_given ==> r == Result::<Mode, ConfigError>::Ok(Mode::Client),
        !listen_given && !endpoint_given ==> r == Result::<Mode, ConfigError>::Err(
            ConfigError::MissingEndpoint,
        ),
{
    if listen_given {
        if endpoint_given {
            Result::Err(ConfigError::ConflictingEndpoint)
        } else {
            Result::Ok(Mode::Server)
        }
    } else {
        if endpoint_given {
            Result::Ok(Mode::Client)
        } else {
            Result::Err(ConfigError::MissingEndpoint)
        }
    }
}

} // verus!
