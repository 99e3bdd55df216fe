//! The text that one run of a command leaves in the history.
use vstd::prelude::*;
use crate::text::{decode_lossy, utf8_lossy};

verus! {

/// How one run of a command through the shell ended, as plain values.
pub enum RunOutcome {
    /// The process ran to its end; these are the bytes it wrote.
    Finished { stdout: Vec<u8>, stderr: Vec<u8> },
    /// The process could not be spawned or waited on; the cause, as text.
    Failed { cause: String },
}

/// The prefix of the text shown for a run that failed.
pub open spec fn error_prefix() -> Seq<char> {
    seq!['E', 'r', 'r', 'o', 'r', ':', ' ']
}

/// The history text of a run: standard output then standard error, each decoded
/// lossily, nothing between them; or `Error: ` and the cause.
pub open spec fn outcome_text(outcome: RunOutcome) -> Seq<char> {
    match outcome {
        RunOutcome::Finished { stdout, stderr } => {
            if stderr@.len() == 0 {
                utf8_lossy(stdout@)
            } else {
                utf8_lossy(stdout@) + utf8_lossy(stderr@)
            }
        },
        RunOutcome::Failed { cause } => error_prefix() + cause@,
    }
}

/// The text that a run of a command contributes to the history.
pub fn command_output(outcome: &RunOutcome) -> (r: String)
    ensures
        r@ == outcome_text(*outcome),
        outcome is Failed ==> r@.len() >= 7 && r@.subrange(0, 7) == error_prefix(),
{
    match outcome {
        RunOutcome::Finished { stdout, stderr } => {
            let mut text = decode_lossy(stdout);
            if stderr.len() > 0 {
                let err = decode_lossy(stderr);
                text.append(err.as_str());
            }
            text
        },
        RunOutcome::Failed { cause } => {
            let mut text = String::from_str("Error: ");
            proof {
                reveal_strlit("Error: ");
            }
            text.append(cause.as_str());
            assert(text@.subrange(0, 7) =~= error_prefix());
            text
        },
    }
}

} // verus!
