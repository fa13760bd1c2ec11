//! Addresses, derivations and byte helpers shared by the program and its
//! clients.
pub mod bytes;
pub mod constants;
pub mod pdas;
