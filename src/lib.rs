//! Confidential multi-option voting: a plaintext model of the encrypted tally
//! computations, the proposal state machine that gates votes and reveals, and
//! the argument lists of the computation requests it submits.

pub mod circuits;
pub mod computation;
pub mod laws;
pub mod private_voting;
pub mod state;
