//! The command line's options and what they decide.

use vstd::prelude::*;

verus! {

/// The options of the command line.
#[derive(Clone, Copy, Debug, PartialEq, Eq, Structural)]
pub struct Args {
    /// Turn on debug output.
    pub debug: bool,
}

/// How much the log shows.
#[derive(Clone, Copy, Debug, PartialEq, Eq, Structural)]
pub enum LogLevel {
    /// Informational messages and above.
    Info,
    /// Debug messages and above.
    Debug,
}

/// The log level that the options ask for: `Debug` with the debug flag,
/// `Info` without it.
pub fn setup_logging(args: &Args) -> (level: LogLevel)
    ensures
        level == (if args.debug { LogLevel::Debug } else { LogLevel::Info }),
{
    if args.debug {
        LogLevel::Debug
    } else {
        LogLevel::Info
    }
}

} // verus!
