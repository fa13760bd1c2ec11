//! A Solana program that pays the bonus prize of a no-loss lottery draw to
//! the draw's winner, and the client-side helpers that build its
//! instructions.
//!
//! Addresses are 32-byte arrays. The calls into the Solana SDK and the SPL
//! token crates stand in [`sdk`], each with the contract it is trusted to
//! meet; everything else is verified against the contracts stated here.

pub mod error;
pub mod instruction;
pub mod instructions;
pub mod laws;
pub mod nll_state;
pub mod processor;
pub mod sdk;
pub mod state;
pub mod utils;
