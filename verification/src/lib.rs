//! A trustless two-party token-swap escrow.
//!
//! An initializer deposits one token into a custodial account controlled by a
//! derived address and records how much of another token it expects in return;
//! a taker later completes the swap atomically.  The two instruction handlers
//! validate every cross-reference between the supplied accounts and drive the
//! ordered calls into the token-transfer service under an all-or-nothing
//! commit model.
//!
//! There is deliberately no refund or cancellation path: once initialized,
//! custody of the deposit stays with the derived address until a taker
//! completes the exchange.

pub mod address;
pub mod error;
pub mod accounts;
pub mod instruction;
pub mod pda;
pub mod processor;
pub mod spl;
pub mod state;
pub mod token_service;
