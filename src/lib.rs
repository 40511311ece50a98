//! Core rules of a small shop backend: accounts and credentials, bearer
//! tokens, the product catalog, order placement against stock, and payments.
//!
//! Every function here works on plain values. Reading and writing the
//! database, HTTP and token encoding happen around this crate: the caller
//! reads what a decision needs, asks the library, and writes what it returns.

pub mod auth;
pub mod checkout;
pub mod error;
pub mod ids;
pub mod order;
pub mod payment;
pub mod product;
pub mod text;
pub mod user;
