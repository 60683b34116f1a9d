use vstd::prelude::*;
use crate::error::CopyError;
use crate::step::Step;
use vstd::string::to_string_from_display_ensures;
use crate::text::{decode_utf8, lossy_decode, lossy_text, utf8_text};

verus! {

/// What came of launching a tool.
#[derive(Debug)]
pub enum RunOutcome {
    /// The process could not be started; `reason` says why.
    LaunchFailed { reason: String },
    /// The process ran to its end; `success` tells whether its exit status
    /// was zero, and its two outputs were collected whole.
    Exited { success: bool, stdout: Vec<u8>, stderr: Vec<u8> },
}

/// Judges the outcome of `step`'s launch: the standard output where the tool
/// ran and succeeded, else the error that ends the run.
pub fn check_outcome(step: Step, outcome: RunOutcome) -> (r: Result<Vec<u8>, CopyError>)
    ensures
        match outcome {
            RunOutcome::LaunchFailed { reason } => r matches Err(
                CopyError::ToolLaunch { step: s, reason: m },
            ) && s == step && m@ == reason@,
            RunOutcome::Exited { success: false, stderr, .. } => r matches Err(
                CopyError::ToolExecution { step: s, stderr: m },
            ) && s == step && m@ == lossy_text(stderr@),
            RunOutcome::Exited { success: true, stdout, .. } => r matches Ok(o) && o@ == stdout@,
        },
{
    match outcome {
        RunOutcome::LaunchFailed { reason } => Err(CopyError::ToolLaunch { step, reason }),
        RunOutcome::Exited { success, stdout, stderr } => {
            if success {
                Ok(stdout)
            } else {
                Err(CopyError::ToolExecution { step, stderr: lossy_decode(&stderr) })
            }
        },
    }
}

/// Turns the result of decoding the clipboard tool's output into the result
/// of the run: the text itself, or a decoding error that carries the
/// decoder's explanation.
pub fn clipboard_text(decoded: Result<String, std::string::FromUtf8Error>) -> (r: Result<String, CopyError>)
    ensures
        match decoded {
            Ok(s) => r matches Ok(t) && t@ == s@,
            Err(e) => r matches Err(CopyError::TextDecode { reason }) && to_string_from_display_ensures(&e, reason),
        },
{
    match decoded {
        Ok(s) => Ok(s),
        Err(e) => Err(CopyError::TextDecode { reason: e.to_string() }),
    }
}

/// Decodes the clipboard tool's output: its text where the bytes are valid
/// UTF-8, whatever their length, and a decoding error where they are not.
pub fn decode_clipboard(stdout: Vec<u8>) -> (r: Result<String, CopyError>)
    ensures
        r is Ok <==> utf8_text(stdout@) is Some,
        r matches Ok(t) ==> utf8_text(stdout@) == Some(t@),
        r matches Err(e) ==> e is TextDecode,
{
    clipboard_text(decode_utf8(stdout))
}

} // verus!
