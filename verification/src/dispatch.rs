//! The call dispatcher: what goes out for one call to the peer, and the
//! callback that is chained behind it.

use vstd::prelude::*;
use near_sdk::AccountId;
use crate::external::{arguments_view, Argument, PeerCall, NO_DEPOSIT, TGAS};

verus! {

/// The most gas the proxy gives to one call, and to the callback behind it.
pub const GAS_PER_CALL: u64 = 9 * TGAS;

/// One function call on an account: who is called, which method, with which
/// arguments, how much gas it may use and what deposit goes with it.
#[derive(Debug, PartialEq, Eq)]
pub struct Invocation {
    pub target: AccountId,
    pub method_name: String,
    pub arguments: Vec<Argument>,
    pub gas: u64,
    pub deposit: u128,
}

/// An [`Invocation`] with its texts as sequences of characters.
pub struct InvocationView {
    pub target: AccountId,
    pub method_name: Seq<char>,
    pub arguments: Seq<(Seq<char>, Seq<char>)>,
    pub gas: u64,
    pub deposit: u128,
}

impl View for Invocation {
    type V = InvocationView;

    open spec fn view(&self) -> InvocationView {
        InvocationView {
            target: self.target,
            method_name: self.method_name@,
            arguments: arguments_view(self.arguments@),
            gas: self.gas,
            deposit: self.deposit,
        }
    }
}

/// A call to the peer that has been handed out but not answered: the call
/// itself, and the call to the proxy's own callback that runs once the first
/// has ended, whether it went well or not.
#[derive(Debug, PartialEq, Eq)]
pub struct PendingInvocation {
    pub call: Invocation,
    pub continuation: Invocation,
}

/// A [`PendingInvocation`] with its texts as sequences of characters.
pub struct PendingInvocationView {
    pub call: InvocationView,
    pub continuation: InvocationView,
}

impl View for PendingInvocation {
    type V = PendingInvocationView;

    open spec fn view(&self) -> PendingInvocationView {
        PendingInvocationView { call: self.call@, continuation: self.continuation@ }
    }
}

/// What `dispatch` hands out: `call` goes to the peer with its own name and
/// arguments; the callback that belongs to it goes to the proxy itself, without
/// arguments. Both get the same gas and no deposit.
pub open spec fn spec_dispatch(
    peer_identity: AccountId,
    call: PeerCall,
    gas: u64,
    own_identity: AccountId,
) -> PendingInvocationView {
    PendingInvocationView {
        call: InvocationView {
            target: peer_identity,
            method_name: call.spec_method_name(),
            arguments: call.spec_arguments(),
            gas,
            deposit: NO_DEPOSIT,
        },
        continuation: InvocationView {
            target: own_identity,
            method_name: call.spec_continuation().spec_method_name(),
            arguments: Seq::empty(),
            gas,
            deposit: NO_DEPOSIT,
        },
    }
}

/// Prepares one call to the peer and chains the matching callback behind it.
///
/// The gas must be positive and within [`GAS_PER_CALL`]; a call never carries
/// a deposit.
pub fn dispatch(
    peer_identity: AccountId,
    call: PeerCall,
    gas: u64,
    own_identity: AccountId,
) -> (pending: PendingInvocation)
    requires
        0 < gas <= GAS_PER_CALL,
    ensures
        pending@ == spec_dispatch(peer_identity, call, gas, own_identity),
{
    let continuation = call.continuation();
    let outbound = Invocation {
        target: peer_identity,
        method_name: call.method_name().to_string(),
        arguments: call.arguments(),
        gas,
        deposit: NO_DEPOSIT,
    };
    let follow_up = Invocation {
        target: own_identity,
        method_name: continuation.method_name().to_string(),
        arguments: Vec::new(),
        gas,
        deposit: NO_DEPOSIT,
    };
    assert(arguments_view(follow_up.arguments@) =~= Seq::empty());
    PendingInvocation { call: outbound, continuation: follow_up }
}

} // verus!
