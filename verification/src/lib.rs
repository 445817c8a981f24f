//! Static analysis and synthesis of spending conditions, and the reports of
//! a Bitcoin companion tool.
//!
//! The kernel reads an expression under each script context, reports cost
//! and safety per context, merges the reports into one, analyses abstract
//! policies and compiles them into scripts. Around it stand the reports on
//! keys, signatures, addresses, transactions and invoices.
//!
//! Three files hold what is trusted rather than proved: `engine` for the
//! `miniscript` crate, `btc` for `bitcoin`, `secp` for `secp256k1`; the
//! hexadecimal conversions of `hex` are in `encoding`, the invoices of
//! `lightning-invoice` in `ln`.

pub mod address;
pub mod btc;
pub mod bytes;
pub mod chain;
pub mod compile;
pub mod context;
pub mod descriptor;
pub mod encoding;
pub mod engine;
pub mod inspect;
pub mod key;
pub mod ln;
pub mod policy;
pub mod report;
pub mod secp;
pub mod signing;
pub mod tx;
