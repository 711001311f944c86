use vstd::prelude::*;
use crate::credential::ConfigError;

verus! {

/// The invocation's parameters, as given on the command line.
pub struct Args {
    /// Address of the DNS server that receives the updates.
    pub server: String,
    /// The zone under which names are updated.
    pub origin: String,
    /// Name of the TSIG key known to the server.
    pub key: String,
    /// The names to update; when empty, the local hostname.
    pub names: Vec<String>,
    /// An explicit IP address literal; when absent, the address is discovered.
    pub ip: Option<String>,
    /// How many times the verbosity flag was repeated.
    pub verbose: u8,
}

/// The least severe level of the log messages that are shown.
#[derive(Clone, Copy, Debug, PartialEq, Eq, Structural)]
pub enum LogLevel {
    Warn,
    Info,
    Debug,
    Trace,
}

pub open spec fn spec_log_level(verbose: u8) -> LogLevel {
    if verbose == 0 {
        LogLevel::Warn
    } else if verbose == 1 {
        LogLevel::Info
    } else if verbose == 2 {
        LogLevel::Debug
    } else {
        LogLevel::Trace
    }
}

/// Maps the count of verbosity flags to a level: none shows warnings, one
/// adds information, two adds debugging, three or more everything.
pub fn log_level(verbose: u8) -> (r: LogLevel)
    ensures
        r == spec_log_level(verbose),
{
    match verbose {
        0 => LogLevel::Warn,
        1 => LogLevel::Info,
        2 => LogLevel::Debug,
        _ => LogLevel::Trace,
    }
}

/// The names the run updates: the explicit names as given, in their order,
/// where there is at least one; else the local hostname alone, which must then
/// have been read.
pub fn target_names(explicit: Vec<String>, hostname: Option<String>) -> (r: Result<
    Vec<String>,
    ConfigError,
>)
    ensures
        explicit@.len() > 0 ==> r == Ok::<Vec<String>, ConfigError>(explicit),
        explicit@.len() == 0 && hostname is None ==> r == Err::<Vec<String>, ConfigError>(
            ConfigError::MissingHostname,
        ),
        explicit@.len() == 0 && hostname is Some ==> r is Ok && r->Ok_0@.len() == 1
            && r->Ok_0@[0] == hostname->0,
{
    if explicit.len() > 0 {
        Ok(explicit)
    } else {
        match hostname {
            Some(h) => {
                let mut v: Vec<String> = Vec::new();
                v.push(h);
                Ok(v)
            },
            None => Err(ConfigError::MissingHostname),
        }
    }
}

} // verus!
