//! Derivative-free minimisation of scalar functions of one variable.
//!
//! Every real number crossing the public interface is carried as the raw
//! IEEE-754 binary64 bit pattern of the value, held in a `u64`.  All
//! arithmetic on such patterns goes through the `fp` module, whose operations
//! are named by uninterpreted spec functions, so each search routine can be
//! specified exactly: its contract pins the returned result to a
//! specification-level mirror of the computation it performs.

use vstd::prelude::*;

pub mod fp;
pub mod minimise_scalar;

verus! {

/// The error type declaration for `anyhow`, so a value of it can ride in
/// `SwoopErrors::Other`.  Nothing in this crate constructs or inspects it.
#[verifier::external_type_specification]
#[verifier::external_body]
pub struct ExAnyhowError(anyhow::Error);

/// Error enum
#[derive(Debug)]
pub enum SwoopErrors {
    /// Error to catch maximum iteration exceptions
    MaxIterExceeded,
    /// Error for incorrectly set argument
    ArgumentError(String),
    /// Transparent carrier for failures not otherwise classified
    Other(anyhow::Error),
}

} // verus!
