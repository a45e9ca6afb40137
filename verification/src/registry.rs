//! The continuation registry: who may run a callback, and what the callback
//! resolves to.
//!
//! A callback tells the caller of the proxy how the call to the peer ended, so
//! nobody but the proxy itself may run one: the account that calls must be the
//! account that the callback runs on. Anyone else is turned away before the
//! outcome is looked at.

use vstd::prelude::*;
use near_sdk::{AccountId, PromiseError};
use crate::error::ContinuationError;
use crate::normalize::{appended, normalize_status, normalize_text, status_line, CONTACT_FAILED};
use crate::sdk::same_account;

verus! {

/// What the callback of a query does when `predecessor` calls it on the
/// account `current` with `outcome`: `resolved` is what it returns, `before`
/// and `after` are the log before and after the call.
///
/// A stranger is refused and leaves no trace. For the proxy itself the
/// callback returns the peer's text untouched and logs nothing, or returns the
/// empty text and logs the failure.
pub open spec fn text_resolution(
    current: AccountId,
    predecessor: AccountId,
    outcome: Result<String, PromiseError>,
    before: Seq<String>,
    after: Seq<String>,
    resolved: Result<String, ContinuationError>,
) -> bool {
    if predecessor != current {
        &&& resolved == Err::<String, ContinuationError>(ContinuationError::Unauthorized)
        &&& after == before
    } else {
        &&& resolved matches Ok(text)
        &&& outcome matches Ok(returned) ==> text == returned && after == before
        &&& outcome is Err ==> text@ == Seq::<char>::empty() && appended(
            before,
            after,
            CONTACT_FAILED@,
        )
    }
}

/// What the callback of a change does when `predecessor` calls it on the
/// account `current` with `outcome`: `resolved` is what it returns, `before`
/// and `after` are the log before and after the call.
///
/// A stranger is refused and leaves no trace. For the proxy itself the
/// callback returns whether the peer carried the change out, and logs one
/// line that says so.
pub open spec fn status_resolution(
    current: AccountId,
    predecessor: AccountId,
    outcome: Result<(), PromiseError>,
    before: Seq<String>,
    after: Seq<String>,
    resolved: Result<bool, ContinuationError>,
) -> bool {
    if predecessor != current {
        &&& resolved == Err::<bool, ContinuationError>(ContinuationError::Unauthorized)
        &&& after == before
    } else {
        &&& resolved == Ok::<bool, ContinuationError>(outcome is Ok)
        &&& appended(before, after, status_line(outcome))
    }
}

/// Lets a callback run exactly when the account that called it,
/// `predecessor_account_id`, is the account it runs on, `current_account_id`.
pub fn authorize(
    current_account_id: &AccountId,
    predecessor_account_id: &AccountId,
) -> (permit: Result<(), ContinuationError>)
    ensures
        *predecessor_account_id == *current_account_id ==> permit is Ok,
        *predecessor_account_id != *current_account_id ==> permit == Err::<(), ContinuationError>(
            ContinuationError::Unauthorized,
        ),
{
    if same_account(current_account_id, predecessor_account_id) {
        Ok(())
    } else {
        Err(ContinuationError::Unauthorized)
    }
}

/// Runs the callback of a query, if the proxy itself is calling.
pub fn resolve_text(
    current_account_id: &AccountId,
    predecessor_account_id: &AccountId,
    outcome: Result<String, PromiseError>,
    log: &mut Vec<String>,
) -> (resolved: Result<String, ContinuationError>)
    ensures
        text_resolution(
            *current_account_id,
            *predecessor_account_id,
            outcome,
            old(log)@,
            final(log)@,
            resolved,
        ),
{
    match authorize(current_account_id, predecessor_account_id) {
        Ok(_) => Ok(normalize_text(outcome, log)),
        Err(refusal) => Err(refusal),
    }
}

/// Runs the callback of a change, if the proxy itself is calling.
pub fn resolve_status(
    current_account_id: &AccountId,
    predecessor_account_id: &AccountId,
    outcome: Result<(), PromiseError>,
    log: &mut Vec<String>,
) -> (resolved: Result<bool, ContinuationError>)
    ensures
        status_resolution(
            *current_account_id,
            *predecessor_account_id,
            outcome,
            old(log)@,
            final(log)@,
            resolved,
        ),
{
    match authorize(current_account_id, predecessor_account_id) {
        Ok(_) => Ok(normalize_status(outcome, log)),
        Err(refusal) => Err(refusal),
    }
}

} // verus!
