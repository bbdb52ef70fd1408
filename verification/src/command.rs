//! What running an external command can come to, as the library sees it.

use vstd::prelude::*;

verus! {

/// The outcome of running a command-line tool and decoding its output.
///
/// The caller runs the process; the library decides what each outcome means.
#[derive(Debug)]
pub enum CommandOutcome<T> {
    /// The process could not be started; the text describes the error.
    NotStarted(String),
    /// The process exited unsuccessfully; the text is its standard error,
    /// decoded lossily as UTF-8.
    Failed(String),
    /// The process succeeded but its output could not be decoded; the text
    /// describes the error.
    Undecodable(String),
    /// The process succeeded and its output decoded to this value.
    Decoded(T),
}

} // verus!
