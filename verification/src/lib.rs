//! A proxy that forwards operations to a peer contract and turns the peer's
//! answer, or its failure, into a plain value.
//!
//! The library decides what is sent and what comes back: which account is
//! called, under which method name, with which arguments and gas, which
//! callback is chained behind the call, who may run that callback, and what the
//! callback hands to the caller. Scheduling the calls on the chain and writing
//! the log are left to the contract binary around it.

pub mod contract;
pub mod dispatch;
pub mod error;
pub mod external;
pub mod normalize;
pub mod registry;
pub mod sdk;

pub use crate::contract::{initialize, Contract};
pub use crate::external::{NO_DEPOSIT, TGAS};
