//! The contracts that lock the outputs of the protocol's transactions.

pub mod split;
