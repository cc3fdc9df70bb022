//! A custody policy engine: transfers between a hot and a cold wallet are
//! gated by a quorum of guardians, by daily and monthly spending limits and by
//! an emergency switch.
//!
//! [`CustodyContract`] holds the engine's state and offers its operations.
//! The time and the outcome of the caller's authentication are handed to it
//! as plain values, and a request that is turned down comes back as a
//! [`CustodyError`] and changes nothing.
//!
//! Every operation is stated over [`CustodyState`], the state as a
//! mathematical value: a check gives the outcome of a request and a
//! transition gives the state after it. The operations ask for the
//! invariant `CustodyState::wf` and keep it. The module `laws` holds what
//! follows for sequences of requests.

pub mod audit;
pub mod contract;
pub mod laws;
pub mod ledger;
pub mod model;
pub mod preservation;
pub mod registry;
pub mod spending;
pub mod types;

pub use crate::contract::CustodyContract;
pub use crate::model::{CustodyState, Request};
pub use crate::types::{
    Address, CustodyError, Guardian, SystemLimits, Transaction, TransactionView, TxStatus, TxType,
    WalletInfo, WalletType,
};
