//! The sealed-bid auction program, and the conviction market in the form in
//! which it began there: markets whose options each hold an encrypted state,
//! and vote tokens bought for lamports.

pub mod error;
pub mod events;
pub mod state;
pub mod instructions;
pub mod protocol;
