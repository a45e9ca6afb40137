//! The proxy contract: its configuration, the operations it offers and the
//! callbacks that answer them.
//!
//! Every operation hands out one call to the peer with its callback chained
//! behind it, and ends there. The callback runs later, with the outcome of the
//! call, and gives the value that the caller of the operation receives.
//! Between the two the proxy keeps nothing, so any number of operations can be
//! under way at once.
//!
//! An operation takes the account that the proxy runs on, `current_account_id`,
//! because that is where its callback is sent. A callback takes it too, beside
//! the account that called, `predecessor_account_id`: it runs for the proxy
//! itself and for nobody else. What a callback has to report goes to `log`,
//! line by line.

use vstd::prelude::*;
use near_sdk::{AccountId, PromiseError};
use crate::dispatch::{dispatch, spec_dispatch, PendingInvocation, GAS_PER_CALL};
use crate::error::{ContinuationError, InitError};
use crate::external::PeerCall;
use crate::registry::{resolve_status, resolve_text, status_resolution, text_resolution};

verus! {

/// The configuration of the proxy: the account of the peer contract. It is
/// set once, when the proxy is initialized, and never changed.
#[derive(Debug, PartialEq, Eq)]
pub struct Contract {
    pub xcc_contract_address: AccountId,
}

/// What `initialize` does to the state of a proxy and what it answers: a
/// proxy without state gets its configuration; one that has state keeps it
/// and refuses.
pub open spec fn spec_initialize(
    state: Option<Contract>,
    xcc_contract_address: AccountId,
) -> (Option<Contract>, Result<(), InitError>) {
    match state {
        Some(_) => (state, Err(InitError::AlreadyInitialized)),
        None => (Some(Contract { xcc_contract_address }), Ok(())),
    }
}

/// Initializes the proxy whose state is `state`, `None` standing for a proxy
/// that has not been initialized yet.
pub fn initialize(
    state: &mut Option<Contract>,
    xcc_contract_address: AccountId,
) -> (done: Result<(), InitError>)
    ensures
        (*final(state), done) == spec_initialize(*old(state), xcc_contract_address),
{
    match Contract::init(state.is_some(), xcc_contract_address) {
        Ok(contract) => {
            *state = Some(contract);
            Ok(())
        },
        Err(refusal) => Err(refusal),
    }
}

/// A proxy is initialized at most once: whatever the state was and whatever
/// the first call of `initialize` did, a second call fails with
/// `AlreadyInitialized` and leaves the state as the first call left it.
pub proof fn lemma_initialize_at_most_once(
    state: Option<Contract>,
    first: AccountId,
    second: AccountId,
)
    ensures
        spec_initialize(spec_initialize(state, first).0, second) == (
            spec_initialize(state, first).0,
            Err::<(), InitError>(InitError::AlreadyInitialized),
        ),
        spec_initialize(state, first).0 is Some,
        state is None ==> spec_initialize(state, first).0 == Some(
            Contract { xcc_contract_address: first },
        ),
{
}

impl Contract {
    /// Makes the configuration of a proxy that has no state yet. Where state
    /// exists already, nothing is made.
    pub fn init(
        state_exists: bool,
        xcc_contract_address: AccountId,
    ) -> (made: Result<Contract, InitError>)
        ensures
            state_exists ==> made == Err::<Contract, InitError>(InitError::AlreadyInitialized),
            !state_exists ==> made == Ok::<Contract, InitError>(Contract { xcc_contract_address }),
    {
        if state_exists {
            Err(InitError::AlreadyInitialized)
        } else {
            Ok(Contract { xcc_contract_address })
        }
    }

    /// Asks the peer for its greeting.
    pub fn query_greeting(&self, current_account_id: AccountId) -> (pending: PendingInvocation)
        ensures
            pending@ == spec_dispatch(
                self.xcc_contract_address,
                PeerCall::GetGreeting,
                GAS_PER_CALL,
                current_account_id,
            ),
    {
        dispatch(
            self.xcc_contract_address.clone(),
            PeerCall::GetGreeting,
            GAS_PER_CALL,
            current_account_id,
        )
    }

    /// Answers `query_greeting`: the peer's greeting, or the empty text where
    /// the call failed.
    pub fn query_greeting_callback(
        &self,
        current_account_id: &AccountId,
        predecessor_account_id: &AccountId,
        call_result: Result<String, PromiseError>,
        log: &mut Vec<String>,
    ) -> (resolved: Result<String, ContinuationError>)
        ensures
            text_resolution(
                *current_account_id,
                *predecessor_account_id,
                call_result,
                old(log)@,
                final(log)@,
                resolved,
            ),
    {
        resolve_text(current_account_id, predecessor_account_id, call_result, log)
    }

    /// Asks the peer to take `new_greeting` as its greeting.
    pub fn change_greeting(
        &mut self,
        new_greeting: String,
        current_account_id: AccountId,
    ) -> (pending: PendingInvocation)
        ensures
            *final(self) == *old(self),
            pending@ == spec_dispatch(
                old(self).xcc_contract_address,
                (PeerCall::SetGreeting { message: new_greeting }),
                GAS_PER_CALL,
                current_account_id,
            ),
    {
        dispatch(
            self.xcc_contract_address.clone(),
            PeerCall::SetGreeting { message: new_greeting },
            GAS_PER_CALL,
            current_account_id,
        )
    }

    /// Answers `change_greeting`: whether the peer took the new greeting.
    pub fn change_greeting_callback(
        &mut self,
        current_account_id: &AccountId,
        predecessor_account_id: &AccountId,
        call_result: Result<(), PromiseError>,
        log: &mut Vec<String>,
    ) -> (resolved: Result<bool, ContinuationError>)
        ensures
            *final(self) == *old(self),
            status_resolution(
                *current_account_id,
                *predecessor_account_id,
                call_result,
                old(log)@,
                final(log)@,
                resolved,
            ),
    {
        resolve_status(current_account_id, predecessor_account_id, call_result, log)
    }

    /// Asks the peer who signed the transaction it runs in.
    pub fn query_get_signer_account_id(
        &mut self,
        current_account_id: AccountId,
    ) -> (pending: PendingInvocation)
        ensures
            *final(self) == *old(self),
            pending@ == spec_dispatch(
                old(self).xcc_contract_address,
                PeerCall::GetSignerAccountId,
                GAS_PER_CALL,
                current_account_id,
            ),
    {
        dispatch(
            self.xcc_contract_address.clone(),
            PeerCall::GetSignerAccountId,
            GAS_PER_CALL,
            current_account_id,
        )
    }

    /// Answers `query_get_signer_account_id`: the signer as the peer sees it,
    /// or the empty text where the call failed.
    pub fn query_get_signer_account_id_callback(
        &mut self,
        current_account_id: &AccountId,
        predecessor_account_id: &AccountId,
        call_result: Result<String, PromiseError>,
        log: &mut Vec<String>,
    ) -> (resolved: Result<String, ContinuationError>)
        ensures
            *final(self) == *old(self),
            text_resolution(
                *current_account_id,
                *predecessor_account_id,
                call_result,
                old(log)@,
                final(log)@,
                resolved,
            ),
    {
        resolve_text(current_account_id, predecessor_account_id, call_result, log)
    }

    /// Asks the peer which account it runs on.
    pub fn query_get_current_account_id(
        &mut self,
        current_account_id: AccountId,
    ) -> (pending: PendingInvocation)
        ensures
            *final(self) == *old(self),
            pending@ == spec_dispatch(
                old(self).xcc_contract_address,
                PeerCall::GetCurrentAccountId,
                GAS_PER_CALL,
                current_account_id,
            ),
    {
        dispatch(
            self.xcc_contract_address.clone(),
            PeerCall::GetCurrentAccountId,
            GAS_PER_CALL,
            current_account_id,
        )
    }

    /// Answers `query_get_current_account_id`: the peer's own account, or the
    /// empty text where the call failed.
    pub fn query_get_current_account_id_callback(
        &mut self,
        current_account_id: &AccountId,
        predecessor_account_id: &AccountId,
        call_result: Result<String, PromiseError>,
        log: &mut Vec<String>,
    ) -> (resolved: Result<String, ContinuationError>)
        ensures
            *final(self) == *old(self),
            text_resolution(
                *current_account_id,
                *predecessor_account_id,
                call_result,
                old(log)@,
                final(log)@,
                resolved,
            ),
    {
        resolve_text(current_account_id, predecessor_account_id, call_result, log)
    }

    /// Asks the peer who called it.
    pub fn query_get_predecessor_account_id(
        &mut self,
        current_account_id: AccountId,
    ) -> (pending: PendingInvocation)
        ensures
            *final(self) == *old(self),
            pending@ == spec_dispatch(
                old(self).xcc_contract_address,
                PeerCall::GetPredecessorAccountId,
                GAS_PER_CALL,
                current_account_id,
            ),
    {
        dispatch(
            self.xcc_contract_address.clone(),
            PeerCall::GetPredecessorAccountId,
            GAS_PER_CALL,
            current_account_id,
        )
    }

    /// Answers `query_get_predecessor_account_id`: the caller as the peer sees
    /// it, or the empty text where the call failed.
    pub fn query_get_predecessor_account_id_callback(
        &mut self,
        current_account_id: &AccountId,
        predecessor_account_id: &AccountId,
        call_result: Result<String, PromiseError>,
        log: &mut Vec<String>,
    ) -> (resolved: Result<String, ContinuationError>)
        ensures
            *final(self) == *old(self),
            text_resolution(
                *current_account_id,
                *predecessor_account_id,
                call_result,
                old(log)@,
                final(log)@,
                resolved,
            ),
    {
        resolve_text(current_account_id, predecessor_account_id, call_result, log)
    }
}

} // verus!
