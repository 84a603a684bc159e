//! The lines in which a run tells of its progress and of its end.

use crate::error::IngestError;
use crate::pipeline::RunOutcome;
use crate::text::{append_decimal, decimal_digits};
use vstd::prelude::*;

verus! {

/// What is said of each kind of failure.
pub open spec fn error_text(error: IngestError) -> Seq<char> {
    match error {
        IngestError::UpstreamUnavailable => "the upstream API is unavailable"@,
        IngestError::UpstreamMalformed => "the upstream API sent a malformed reply"@,
        IngestError::PersistenceFailure => "the store rejected a write"@,
    }
}

/// The line that tells of the dispatch of the transaction with this ordinal.
pub open spec fn progress_text(ordinal: u64) -> Seq<char> {
    "Tx #"@ + decimal_digits(ordinal as nat)
}

/// The line that tells how a run ended: a completed run with the count it
/// completed with, an aborted run with the count of transactions dispatched
/// up to the failure and with the failure.
pub open spec fn outcome_text(outcome: RunOutcome, dispatched: u64) -> Seq<char> {
    match outcome {
        RunOutcome::Completed(count) => "Done: "@ + decimal_digits(count as nat)
            + " transactions fetched"@,
        RunOutcome::Aborted(error) => "Aborted after "@ + decimal_digits(dispatched as nat)
            + " transactions: "@ + error_text(error),
    }
}

/// Describes a failure in words.
pub fn describe_error(error: IngestError) -> (text: &'static str)
    ensures
        text@ == error_text(error),
{
    match error {
        IngestError::UpstreamUnavailable => "the upstream API is unavailable",
        IngestError::UpstreamMalformed => "the upstream API sent a malformed reply",
        IngestError::PersistenceFailure => "the store rejected a write",
    }
}

/// Makes the progress line of one dispatched transaction.
pub fn progress_line(ordinal: u64) -> (line: String)
    ensures
        line@ == progress_text(ordinal),
{
    let mut line = "Tx #".to_owned();
    append_decimal(&mut line, ordinal as u128);
    line
}

/// Makes the last line of a run.
pub fn outcome_line(outcome: RunOutcome, dispatched: u64) -> (line: String)
    ensures
        line@ == outcome_text(outcome, dispatched),
{
    match outcome {
        RunOutcome::Completed(count) => {
            let mut line = "Done: ".to_owned();
            append_decimal(&mut line, count as u128);
            line.append(" transactions fetched");
            line
        },
        RunOutcome::Aborted(error) => {
            let mut line = "Aborted after ".to_owned();
            append_decimal(&mut line, dispatched as u128);
            line.append(" transactions: ");
            line.append(describe_error(error));
            line
        },
    }
}

} // verus!
