//! An on-chain transfer hook for a token mint.
//!
//! On every transfer of the governed token the hook compares the amount
//! against a whole-unit threshold derived from the mint's decimal count
//! and, when the threshold is met, overwrites a single shared record with
//! the transferring owner and the amount and yields a notification event.
//! A setup operation provisions the side-account that tells the token
//! runtime which extra accounts to supply on each transfer, and a fallback
//! shim decodes the runtime's generic calling convention and routes the
//! one supported instruction to the hook.

pub mod addr;
pub mod codec;
pub mod hook;
pub mod record;
pub mod setup;
pub mod shim;
pub mod state;
