//! Mapping of the integer codes that plugin execution reports to engine errors.
use vstd::prelude::*;

verus! {

/// The code a plugin returns to ask the engine to stop its sending process.
pub const SUSPEND_SENDING_PROCESS_CODE: i64 = -1000;

/// Engine errors that plugin execution can report.
#[derive(Clone, Copy, Debug, PartialEq, Eq, Structural)]
pub enum Error {
    /// The plugin asked the engine to suspend the current sending process.
    SuspendSendingProcess,
    /// A code that the table does not know, kept as it came.
    UnknownPluginError(i64),
}

/// The engine error that a plugin code stands for.
pub open spec fn plugin_error(code: i64) -> Error {
    if code == SUSPEND_SENDING_PROCESS_CODE {
        Error::SuspendSendingProcess
    } else {
        Error::UnknownPluginError(code)
    }
}

impl From<i64> for Error {
    fn from(code: i64) -> (r: Error)
        ensures
            r == plugin_error(code),
    {
        if code == SUSPEND_SENDING_PROCESS_CODE {
            Error::SuspendSendingProcess
        } else {
            Error::UnknownPluginError(code)
        }
    }
}

impl vstd::std_specs::convert::FromSpecImpl<i64> for Error {
    open spec fn obeys_from_spec() -> bool {
        true
    }

    open spec fn from_spec(code: i64) -> Error {
        plugin_error(code)
    }
}

} // verus!
