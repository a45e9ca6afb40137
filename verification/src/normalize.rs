//! The result normalizer: from the outcome of a call to the value that the
//! proxy hands to its caller. A failure never gets through: it becomes a safe
//! value and a line in the log.

use vstd::prelude::*;
use near_sdk::PromiseError;

verus! {

/// Logged when a query to the peer has failed.
pub const CONTACT_FAILED: &'static str = "There was an error contacting NearRustHello";

/// Logged when the peer has not taken the new greeting.
pub const SET_GREETING_FAILED: &'static str = "set_greeting failed...";

/// Logged when the peer has taken the new greeting.
pub const SET_GREETING_SUCCEEDED: &'static str = "set_greeting was successful!";

/// `after` is `before` with one more line at its end, which reads `line`.
pub open spec fn appended(before: Seq<String>, after: Seq<String>, line: Seq<char>) -> bool {
    &&& after.len() == before.len() + 1
    &&& after.drop_last() =~= before
    &&& after.last()@ == line
}

/// The line that the outcome of a change leaves in the log.
pub open spec fn status_line(outcome: Result<(), PromiseError>) -> Seq<char> {
    if outcome is Ok {
        SET_GREETING_SUCCEEDED@
    } else {
        SET_GREETING_FAILED@
    }
}

/// Resolves the outcome of a query. The peer's text comes back as it is, and
/// the log stays as it was; a failure gives the empty text and adds
/// [`CONTACT_FAILED`] to the log.
pub fn normalize_text(
    outcome: Result<String, PromiseError>,
    log: &mut Vec<String>,
) -> (text: String)
    ensures
        outcome matches Ok(returned) ==> text == returned && final(log)@ == old(log)@,
        outcome is Err ==> text@ == Seq::<char>::empty() && appended(
            old(log)@,
            final(log)@,
            CONTACT_FAILED@,
        ),
{
    match outcome {
        Ok(returned) => returned,
        Err(_) => {
            log.push(CONTACT_FAILED.to_string());
            String::new()
        },
    }
}

/// Resolves the outcome of a change: `true` exactly when the peer carried it
/// out. Either way one line goes to the log, [`SET_GREETING_SUCCEEDED`] or
/// [`SET_GREETING_FAILED`].
pub fn normalize_status(
    outcome: Result<(), PromiseError>,
    log: &mut Vec<String>,
) -> (confirmed: bool)
    ensures
        confirmed == (outcome is Ok),
        appended(old(log)@, final(log)@, status_line(outcome)),
{
    match outcome {
        Ok(_) => {
            log.push(SET_GREETING_SUCCEEDED.to_string());
            true
        },
        Err(_) => {
            log.push(SET_GREETING_FAILED.to_string());
            false
        },
    }
}

} // verus!
