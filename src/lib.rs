//! Copies the text of whichever desktop window the user focuses.
//!
//! The library decides and the caller acts. An [`Orchestrator`] hands out one
//! [`Action`] at a time (wait, launch a tool, finish), and the caller reports
//! what happened as an [`Event`]. A run waits out a grace period, simulates a
//! select-all keystroke, waits a short settle delay, simulates a copy
//! keystroke, waits again, and reads the clipboard. The first failure ends it.
mod error;
mod orchestrator;
mod outcome;
mod step;
mod text;

pub use error::{lemma_message_holds_detail, CopyError};
pub use orchestrator::{
    lemma_finished_run_is_over, lemma_launches_in_order, lemma_successful_run_waits, Action, Event,
    Orchestrator, Phase,
};
pub use outcome::{check_outcome, clipboard_text, decode_clipboard, RunOutcome};
pub use step::{Delays, Step, GRACE_PERIOD_MS, SETTLE_DELAY_MS};
