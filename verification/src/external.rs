//! The two interfaces the proxy speaks: the methods of the peer contract that
//! it calls, and its own callbacks that receive the answers.

use vstd::prelude::*;

verus! {

/// One tera-gas.
pub const TGAS: u64 = 1_000_000_000_000;

/// The deposit attached to every call the proxy makes: none.
pub const NO_DEPOSIT: u128 = 0;

/// One argument of a call: the parameter's name and the value passed for it.
#[derive(Debug, PartialEq, Eq)]
pub struct Argument {
    pub name: String,
    pub value: String,
}

impl View for Argument {
    type V = (Seq<char>, Seq<char>);

    open spec fn view(&self) -> (Seq<char>, Seq<char>) {
        (self.name@, self.value@)
    }
}

/// A list of arguments as names and values.
pub open spec fn arguments_view(arguments: Seq<Argument>) -> Seq<(Seq<char>, Seq<char>)> {
    arguments.map_values(|a: Argument| a@)
}

/// A call to the peer contract: one variant per method the peer exposes, with
/// the method's arguments.
#[derive(Debug, PartialEq, Eq)]
pub enum PeerCall {
    /// `get_greeting() -> String`
    GetGreeting,
    /// `set_greeting(message: String)`
    SetGreeting { message: String },
    /// `get_signer_account_id() -> String`
    GetSignerAccountId,
    /// `get_current_account_id() -> String`
    GetCurrentAccountId,
    /// `get_predecessor_account_id() -> String`
    GetPredecessorAccountId,
}

/// A callback of the proxy: the method that receives the answer to one
/// method of the peer.
#[derive(Debug, Clone, Copy, PartialEq, Eq, Structural)]
pub enum Continuation {
    /// `query_greeting_callback() -> String`
    QueryGreeting,
    /// `change_greeting_callback() -> bool`
    ChangeGreeting,
    /// `query_get_signer_account_id_callback() -> String`
    QuerySignerAccountId,
    /// `query_get_current_account_id_callback() -> String`
    QueryCurrentAccountId,
    /// `query_get_predecessor_account_id_callback() -> String`
    QueryPredecessorAccountId,
}

impl PeerCall {
    /// The name under which the peer exposes the method.
    pub open spec fn spec_method_name(self) -> Seq<char> {
        match self {
            PeerCall::GetGreeting => "get_greeting"@,
            PeerCall::SetGreeting { .. } => "set_greeting"@,
            PeerCall::GetSignerAccountId => "get_signer_account_id"@,
            PeerCall::GetCurrentAccountId => "get_current_account_id"@,
            PeerCall::GetPredecessorAccountId => "get_predecessor_account_id"@,
        }
    }

    /// The arguments of the call, each as the parameter's name and its value,
    /// in the order in which the method declares them.
    pub open spec fn spec_arguments(self) -> Seq<(Seq<char>, Seq<char>)> {
        match self {
            PeerCall::SetGreeting { message } => seq![("message"@, message@)],
            _ => Seq::empty(),
        }
    }

    /// The callback that receives the answer to this call.
    pub open spec fn spec_continuation(self) -> Continuation {
        match self {
            PeerCall::GetGreeting => Continuation::QueryGreeting,
            PeerCall::SetGreeting { .. } => Continuation::ChangeGreeting,
            PeerCall::GetSignerAccountId => Continuation::QuerySignerAccountId,
            PeerCall::GetCurrentAccountId => Continuation::QueryCurrentAccountId,
            PeerCall::GetPredecessorAccountId => Continuation::QueryPredecessorAccountId,
        }
    }

    pub fn method_name(&self) -> (name: &'static str)
        ensures
            name@ == self.spec_method_name(),
    {
        match self {
            PeerCall::GetGreeting => "get_greeting",
            PeerCall::SetGreeting { .. } => "set_greeting",
            PeerCall::GetSignerAccountId => "get_signer_account_id",
            PeerCall::GetCurrentAccountId => "get_current_account_id",
            PeerCall::GetPredecessorAccountId => "get_predecessor_account_id",
        }
    }

    pub fn arguments(&self) -> (arguments: Vec<Argument>)
        ensures
            arguments_view(arguments@) == self.spec_arguments(),
    {
        let mut arguments: Vec<Argument> = Vec::new();
        match self {
            PeerCall::SetGreeting { message } => {
                arguments.push(Argument { name: "message".to_string(), value: message.clone() });
            },
            _ => {},
        }
        arguments
    }

    pub fn continuation(&self) -> (continuation: Continuation)
        ensures
            continuation == self.spec_continuation(),
    {
        match self {
            PeerCall::GetGreeting => Continuation::QueryGreeting,
            PeerCall::SetGreeting { .. } => Continuation::ChangeGreeting,
            PeerCall::GetSignerAccountId => Continuation::QuerySignerAccountId,
            PeerCall::GetCurrentAccountId => Continuation::QueryCurrentAccountId,
            PeerCall::GetPredecessorAccountId => Continuation::QueryPredecessorAccountId,
        }
    }
}

impl Continuation {
    /// The name under which the proxy exposes the callback.
    pub open spec fn spec_method_name(self) -> Seq<char> {
        match self {
            Continuation::QueryGreeting => "query_greeting_callback"@,
            Continuation::ChangeGreeting => "change_greeting_callback"@,
            Continuation::QuerySignerAccountId => "query_get_signer_account_id_callback"@,
            Continuation::QueryCurrentAccountId => "query_get_current_account_id_callback"@,
            Continuation::QueryPredecessorAccountId => "query_get_predecessor_account_id_callback"@,
        }
    }

    pub fn method_name(&self) -> (name: &'static str)
        ensures
            name@ == self.spec_method_name(),
    {
        match self {
            Continuation::QueryGreeting => "query_greeting_callback",
            Continuation::ChangeGreeting => "change_greeting_callback",
            Continuation::QuerySignerAccountId => "query_get_signer_account_id_callback",
            Continuation::QueryCurrentAccountId => "query_get_current_account_id_callback",
            Continuation::QueryPredecessorAccountId => "query_get_predecessor_account_id_callback",
        }
    }
}

} // verus!
