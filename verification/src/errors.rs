//! Typed errors of the library, each optionally carrying the raw command
//! result that produced it.

use vstd::prelude::*;

use crate::response::CmdResult;

verus! {

/// The kind of a failure, with a human-readable detail message.
#[derive(Debug, Clone)]
pub enum GPGErrorType {
    HomedirError(String),
    OutputDirError(String),
    GPGInitError(String),
    GPGNotFoundError(String),
    GPGProcessError(String),
    InvalidArgumentError(String),
    FailedToStartProcess(String),
    FailedToRetrieveChildProcess(String),
    WriteFailError(String),
    ReadFailError(String),
    PassphraseError(String),
    KeyNotSubkey(String),
    InvalidReasonCode(String),
    FileNotFoundError(String),
    FileNotProvidedError(String),
}

impl GPGErrorType {
    /// True when this kind reports a problem with a passphrase.
    pub fn is_passphrase_error(&self) -> (r: bool)
        ensures
            r == (self is PassphraseError),
    {
        match self {
            GPGErrorType::PassphraseError(_) => true,
            _ => false,
        }
    }
}

/// An error of the library: its kind, and, when the failure came out of a
/// completed invocation, the raw command result for inspection.  Never
/// mutated after creation.
#[derive(Debug, Clone)]
pub struct GPGError {
    pub error_type: GPGErrorType,
    pub cmd_result: Option<CmdResult>,
}

impl GPGError {
    /// Bundle an error kind with the command result it came out of, if any.
    pub fn new(error_type: GPGErrorType, cmd_result: Option<CmdResult>) -> (r: GPGError)
        ensures
            r.error_type == error_type,
            r.cmd_result == cmd_result,
    {
        GPGError { error_type, cmd_result }
    }
}

} // verus!
