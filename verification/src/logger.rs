//! The decision behind log-sink setup: which directory receives the rolling
//! log files. Installing the sink itself is the application boundary's job.

use vstd::prelude::*;
use crate::error::{NeutonError, NeutonResult};

verus! {

/// The path appended to the home directory when no log directory is
/// configured.
pub open spec fn spec_default_log_subdir() -> Seq<char> {
    "/.oxide/logs"@
}

/// Pick the directory for log files: the configured one when present,
/// otherwise a default under the home directory; an error when neither is
/// available.
pub fn resolve_log_directory(configured: Option<String>, home: Option<String>) -> (r: NeutonResult<
    String,
>)
    ensures
        match configured {
            Some(d) => r matches Ok(p) && p@ == d@,
            None => match home {
                Some(h) => r matches Ok(p) && p@ == h@ + spec_default_log_subdir(),
                None => r matches Err(e) && e matches NeutonError::LoggerError(m) && m@
                    == "No available log directory"@,
            },
        },
{
    match configured {
        Some(d) => Ok(d),
        None => match home {
            Some(h) => Ok(h.concat("/.oxide/logs")),
            None => Err(NeutonError::LoggerError("No available log directory".to_owned())),
        },
    }
}

} // verus!
