//! A single-owner, time-locked custody box for one fungible token.
//!
//! Deposits accumulate until the unlock time; after it the owner may take the
//! whole balance once, and only then retire the box from its registry. Every
//! handler works on the loaded [`state::State`] record and hands back the
//! messages to dispatch, so that the caller persists the record only when the
//! handler succeeded.

pub mod error;
pub mod msg;
pub mod state;
pub mod outbound;
pub mod padding;
pub mod contract;
pub mod store;
pub mod laws;
