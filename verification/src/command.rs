//! The outcome of a local shell command, such as the one that produces a
//! secret or a private key.
use crate::text::utf8_text;
use vstd::prelude::*;
use vstd::utf8::*;

verus! {

/// Why a local command produced no usable output.
#[derive(Debug)]
pub enum CommandError {
    /// The command did not succeed.  `code` is its exit code, if it exited
    /// rather than being stopped by a signal.
    Failed { code: Option<i32>, stdout: Vec<u8>, stderr: Vec<u8> },
    /// The command succeeded but its standard output is not UTF-8 text.
    OutputNotUtf8,
}

/// The result of a local command that has finished with the given status and
/// output: its standard output as text when it succeeded, its exit code and
/// both outputs when it did not.
pub fn command_outcome(success: bool, code: Option<i32>, stdout: Vec<u8>, stderr: Vec<u8>) -> (res:
    Result<String, CommandError>)
    ensures
        !success ==> (res matches Err(CommandError::Failed { code: c, stdout: o, stderr: e }) && c
            == code && o@ == stdout@ && e@ == stderr@),
        success ==> (res is Ok <==> valid_utf8(stdout@)),
        success && !valid_utf8(stdout@) ==> res matches Err(CommandError::OutputNotUtf8),
        res matches Ok(text) ==> success && text@ == decode_utf8(stdout@),
{
    if !success {
        return Err(CommandError::Failed { code, stdout, stderr });
    }
    match utf8_text(stdout.as_slice()) {
        Some(text) => Ok(text),
        None => Err(CommandError::OutputNotUtf8),
    }
}

} // verus!
