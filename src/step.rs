use vstd::prelude::*;

verus! {

/// Wait before the first keystroke, so that the user can focus the target window.
pub const GRACE_PERIOD_MS: u64 = 3000;

/// Wait after each keystroke, so that the desktop can process it.
pub const SETTLE_DELAY_MS: u64 = 100;

/// One launch of an external tool.
#[derive(Clone, Copy, Debug, PartialEq, Eq, Structural)]
pub enum Step {
    /// The input-automation tool presses ctrl+a in the focused window.
    SelectAll,
    /// The input-automation tool presses ctrl+c in the focused window.
    Copy,
    /// The clipboard tool prints the clipboard selection.
    ReadClipboard,
}

/// The launches of one run, in the order in which they happen.
pub open spec fn step_order() -> Seq<Step> {
    seq![Step::SelectAll, Step::Copy, Step::ReadClipboard]
}

impl Step {
    /// The program that this step runs.
    pub open spec fn program_spec(self) -> Seq<char> {
        match self {
            Step::ReadClipboard => "xclip"@,
            _ => "xdotool"@,
        }
    }

    /// The arguments handed to the program.
    pub open spec fn args_spec(self) -> Seq<Seq<char>> {
        match self {
            Step::SelectAll => seq!["key"@, "ctrl+a"@],
            Step::Copy => seq!["key"@, "ctrl+c"@],
            Step::ReadClipboard => seq!["-selection"@, "clipboard"@, "-o"@],
        }
    }

    /// A short description of the step, used in error messages.
    pub open spec fn label_spec(self) -> Seq<char> {
        match self {
            Step::SelectAll => "xdotool key ctrl+a"@,
            Step::Copy => "xdotool key ctrl+c"@,
            Step::ReadClipboard => "xclip -selection clipboard -o"@,
        }
    }

    pub fn program(&self) -> (r: &'static str)
        ensures
            r@ == self.program_spec(),
    {
        match self {
            Step::ReadClipboard => "xclip",
            _ => "xdotool",
        }
    }

    pub fn args(&self) -> (r: Vec<&'static str>)
        ensures
            r@.len() == self.args_spec().len(),
            forall|i: int| 0 <= i < r@.len() ==> #[trigger] r@[i]@ == self.args_spec()[i],
    {
        match self {
            Step::SelectAll => vec!["key", "ctrl+a"],
            Step::Copy => vec!["key", "ctrl+c"],
            Step::ReadClipboard => vec!["-selection", "clipboard", "-o"],
        }
    }

    pub fn label(&self) -> (r: &'static str)
        ensures
            r@ == self.label_spec(),
    {
        match self {
            Step::SelectAll => "xdotool key ctrl+a",
            Step::Copy => "xdotool key ctrl+c",
            Step::ReadClipboard => "xclip -selection clipboard -o",
        }
    }
}

/// The waits of a run, in milliseconds.
#[derive(Clone, Copy, Debug, PartialEq, Eq, Structural)]
pub struct Delays {
    /// Before the first keystroke.
    pub grace_ms: u64,
    /// After each keystroke.
    pub settle_ms: u64,
}

impl Delays {
    /// The waits used on a real desktop: three seconds, then a tenth of a second.
    pub fn standard() -> (r: Delays)
        ensures
            r.grace_ms == GRACE_PERIOD_MS,
            r.settle_ms == SETTLE_DELAY_MS,
    {
        Delays { grace_ms: GRACE_PERIOD_MS, settle_ms: SETTLE_DELAY_MS }
    }

    /// No waits at all, for driving the sequence without a desktop.
    pub fn none() -> (r: Delays)
        ensures
            r.grace_ms == 0,
            r.settle_ms == 0,
    {
        Delays { grace_ms: 0, settle_ms: 0 }
    }

    /// The time that a run that succeeds spends waiting.
    pub open spec fn successful_run_ms(self) -> int {
        self.grace_ms + 2 * self.settle_ms
    }
}

} // verus!
