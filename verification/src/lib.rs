//! An in-memory ledger engine.
//!
//! The engine consumes an ordered stream of transactions and keeps one
//! account per client: deposits and withdrawals move funds, disputes put the
//! funds of an earlier transaction on hold, resolves release them again and
//! chargebacks remove them and lock the account.
//!
//! Amounts are fixed-point numbers with four decimal digits, held as a
//! signed count of ten-thousandths.
//!
//! - [`transaction`] and [`account`] hold the data.
//! - [`ledger`] is the mathematical model: the state of the engine, and the
//!   state after one transaction and after a stream of them.
//! - [`engine`] is the executable engine, specified by that model.
//! - [`laws`] proves what holds of every ledger and every stream.
//! - [`four_precision_number_format`] writes amounts as text.
//! - [`error`] holds the errors that stop the engine.

pub mod account;
pub mod engine;
pub mod error;
pub mod four_precision_number_format;
pub mod laws;
pub mod ledger;
pub mod transaction;
