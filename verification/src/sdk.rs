//! The types of `near_sdk` that travel through the proxy, and the few
//! operations on them that the proxy needs. Nothing in this module is proved:
//! each item states what `near_sdk` does.

use vstd::prelude::*;
use near_sdk::AccountId;

verus! {

/// `near_sdk::AccountId`: the validated name of an account. The proxy carries
/// account names around and compares them; it never looks inside one.
#[verifier::external_type_specification]
#[verifier::external_body]
pub struct ExAccountId(near_sdk::AccountId);

/// `near_sdk::PromiseError`: why a promise has no result. The proxy only asks
/// whether a result is there.
#[verifier::external_type_specification]
#[verifier::external_body]
pub struct ExPromiseError(near_sdk::PromiseError);

/// `AccountId::eq`, as derived in `near_sdk`: two account names are equal
/// exactly when they are the same name.
#[verifier::external_body]
pub(crate) fn same_account(a: &AccountId, b: &AccountId) -> (same: bool)
    ensures
        same == (*a == *b),
{
    a == b
}

/// `AccountId::clone`, as derived in `near_sdk`: the copy is the same name.
pub assume_specification[ <near_sdk::AccountId as Clone>::clone ](
    a: &near_sdk::AccountId,
) -> (copy: near_sdk::AccountId)
    ensures
        copy == *a,
;

} // verus!
