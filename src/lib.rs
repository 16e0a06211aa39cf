//! Committee-controlled custody: a vault holds funds that leave only through
//! proposals approved by enough of its signers, optionally gated on a price.

pub mod constants;
pub mod error;
pub mod instructions;
pub mod laws;
pub mod oracle;
pub mod pubkey;
pub mod state;
