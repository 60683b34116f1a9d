use vstd::prelude::*;
use crate::step::Step;

verus! {

/// Why a run did not produce the clipboard's text.
#[derive(Debug)]
pub enum CopyError {
    /// The tool of `step` could not be started; `reason` says why.
    ToolLaunch { step: Step, reason: String },
    /// The tool of `step` ran and exited with a failure; `stderr` is what it
    /// wrote to its error output.
    ToolExecution { step: Step, stderr: String },
    /// The clipboard tool's output is not valid UTF-8; `reason` says where.
    TextDecode { reason: String },
}

impl CopyError {
    /// The description handed to the user.
    pub open spec fn message_spec(&self) -> Seq<char> {
        match self {
            CopyError::ToolLaunch { step, reason } =>
                "could not launch `"@ + step.label_spec() + "`: "@ + reason@,
            CopyError::ToolExecution { step, stderr } =>
                "`"@ + step.label_spec() + "` failed: "@ + stderr@,
            CopyError::TextDecode { reason } =>
                "clipboard contents are not valid text: "@ + reason@,
        }
    }

    pub fn message(&self) -> (r: String)
        ensures
            r@ == self.message_spec(),
    {
        match self {
            CopyError::ToolLaunch { step, reason } => {
                let mut m = String::from_str("could not launch `");
                m.append(step.label());
                m.append("`: ");
                m.append(reason.as_str());
                m
            },
            CopyError::ToolExecution { step, stderr } => {
                let mut m = String::from_str("`");
                m.append(step.label());
                m.append("` failed: ");
                m.append(stderr.as_str());
                m
            },
            CopyError::TextDecode { reason } => {
                let mut m = String::from_str("clipboard contents are not valid text: ");
                m.append(reason.as_str());
                m
            },
        }
    }

    /// The step whose tool failed, where one did.
    pub fn step(&self) -> (r: Option<Step>)
        ensures
            r == match self {
                CopyError::ToolLaunch { step, .. } => Some(*step),
                CopyError::ToolExecution { step, .. } => Some(*step),
                CopyError::TextDecode { .. } => None,
            },
    {
        match self {
            CopyError::ToolLaunch { step, .. } => Some(*step),
            CopyError::ToolExecution { step, .. } => Some(*step),
            CopyError::TextDecode { .. } => None,
        }
    }
}

/// The message of an error holds what it carries: the reason of a launch or
/// decoding failure, or the error output of a tool that failed.
pub proof fn lemma_message_holds_detail(e: CopyError)
    ensures
        ({
            let m = e.message_spec();
            let d = match e {
                CopyError::ToolLaunch { reason, .. } => reason@,
                CopyError::ToolExecution { stderr, .. } => stderr@,
                CopyError::TextDecode { reason } => reason@,
            };
            m.subrange(m.len() - d.len(), m.len() as int) == d
        }),
{
    let m = e.message_spec();
    match e {
        CopyError::ToolLaunch { step, reason } => {
            let p = "could not launch `"@ + step.label_spec() + "`: "@;
            assert(m == p + reason@);
            assert(m.subrange(p.len() as int, m.len() as int) =~= reason@);
        },
        CopyError::ToolExecution { step, stderr } => {
            let p = "`"@ + step.label_spec() + "` failed: "@;
            assert(m == p + stderr@);
            assert(m.subrange(p.len() as int, m.len() as int) =~= stderr@);
        },
        CopyError::TextDecode { reason } => {
            let p = "clipboard contents are not valid text: "@;
            assert(m == p + reason@);
            assert(m.subrange(p.len() as int, m.len() as int) =~= reason@);
        },
    }
}

} // verus!
