//! The conviction market: the first form of the market, in which a limited
//! supply of shares is bought with vote tokens that are paid for in
//! lamports.

pub mod error;
pub mod events;
pub mod state;
pub mod instructions;
pub mod protocol;
