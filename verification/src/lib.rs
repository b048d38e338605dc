//! Request helpers for a small Polymarket order service: the JSON reply
//! envelope that every endpoint answers with, and the parsers that turn the
//! text fields of an order request into a token id, a decimal amount and an
//! order side.

pub mod response;
pub mod numbers;
pub mod side;
