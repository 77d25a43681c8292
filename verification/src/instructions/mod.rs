//! The instructions of the program, one file for each group. Every
//! instruction works on the plain values of its accounts and leaves the
//! token transfers and the event to its host.

pub mod confidential_transfer;
pub mod hotel;
pub mod liquidity_pool;
pub mod rental;
pub mod staking;
pub mod token;
