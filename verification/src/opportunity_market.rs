//! The opportunity market: markets whose stakes are placed, held and
//! withdrawn as ciphertext.

pub mod error;
pub mod state;
pub mod events;
pub mod instructions;
pub mod protocol;
pub mod score;
