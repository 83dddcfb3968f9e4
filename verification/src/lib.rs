//! A custodial token account that acts only on proof of its owner's
//! authority.
//!
//! The account holds tokens for an owner and pays out, approves spenders
//! and exchanges tokens only when the operation is authorized: either by a
//! signature over the account's live nonce, verified against the
//! aggregated public key of the owner's signing group, or by the direct
//! attestation of the owner's own account. Every authorization replaces the
//! nonce, so no signature is good twice. For an exchange the account also
//! grants the router the capability for exactly the calls that the exchange
//! makes in the account's name.
//!
//! The library holds the rules. It takes the account's persisted entries as
//! a value ([`storage::Storage`]), calls the host for the curve arithmetic
//! and for the map of tracked tokens ([`host`]), and returns the calls that
//! the host is to make for the account ([`action::Action`]). Reading and
//! writing the entries, drawing the bytes of each new nonce and making those
//! calls is left to whoever hosts the account.

pub mod access;
pub mod account;
pub mod account_token;
pub mod action;
pub mod bls;
pub mod bls_account_auth;
pub mod constructor;
pub mod dap_adapter;
pub mod data;
pub mod encoding;
pub mod error;
pub mod formatter;
pub mod host;
pub mod laws;
pub mod storage;
pub mod token_list;
pub mod types;
pub mod user_account_trait;
