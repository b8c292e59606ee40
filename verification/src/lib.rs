//! A minimal ledger program: transfer a caller-specified amount of native
//! currency from a source account to a destination account, provided the
//! source signed the enclosing transaction.
//!
//! The program itself holds no state and performs no mutation of its own:
//! it validates the account list and the instruction payload, decodes the
//! amount, and delegates the balance movement to the host ledger's native
//! transfer primitive.

pub mod codec;
pub mod entry;
pub mod host;
pub mod transfer;
