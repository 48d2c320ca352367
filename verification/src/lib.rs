//! RemitCollateral: crypto-collateralized lending for beneficiaries who never
//! touch crypto.
//!
//! A guarantor locks USDC to back a loan that is paid out and repaid in local
//! currency. Three contracts settle it:
//!
//! - [`guarantor_vault`] holds each guarantor's collateral and tracks how much
//!   of it is spoken for;
//! - [`loan_ledger`] keeps the loans, and has collateral locked and released as
//!   they are opened and repaid;
//! - [`liquidation_engine`] moves an overdue loan into grace and, once grace has
//!   expired, has what is owed seized and the rest returned.
//!
//! Each contract is a value that holds all the contract remembers, and its
//! `model` says, as a function on that state, what every call does. Its
//! `operations` state what each call is for in terms of the records, and its `laws`
//! what holds whatever is called. [`protocol`] states what holds of the three
//! together. [`host`] is what a contract sees of the ledger it runs on, and
//! [`table`] the keyed store that records are kept in.
pub mod guarantor_vault;
pub mod host;
pub mod liquidation_engine;
pub mod loan_ledger;
pub mod protocol;
pub mod table;
