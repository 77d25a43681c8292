//! On-ledger financial primitives for a tokenised hotel-room platform: a
//! constant-product pool for COCO against USDC, a staking ledger with
//! time-weighted rewards, and the records of hotels, listings and the COCO
//! issuer.
//!
//! The library decides and keeps the books; it moves no token and reads no
//! clock. An instruction takes the plain values of its accounts and the
//! ledger time, changes the records, and hands back what its host has to
//! do: the token transfers, in their order, and the event to publish. A
//! host that drops every effect of a refused instruction sees each
//! instruction happen whole or not at all.

pub mod context;
pub mod error;
pub mod identity;
pub mod instructions;
pub mod pool;
pub mod stake;
pub mod state;
