//! A phased token-sale ledger entry.
//!
//! The crate tracks a fixed schedule of ten sale phases, each with a price
//! per sale-token unit and a nominal allocation, and carries out purchase
//! requests paid either in the host ledger's native currency or in one of
//! two supported stable tokens.  The purchase state transition — phase
//! lookup, overflow-checked cost computation, payment-method dispatch, and
//! the paired debit and credit of balances — is verified here over a
//! plain-value model of the ledger accounts it touches; the host ledger's
//! own transfer and signer primitives stay outside, behind that model.

pub mod arith;
pub mod ledger;
pub mod purchase;
pub mod state;
