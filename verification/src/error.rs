//! The error that crosses the IPC boundary: a message, an `anyhow` context
//! chain, or an I/O error. It reaches the frontend as its plain text.

use vstd::prelude::*;

verus! {

#[verifier::external_type_specification]
#[verifier::external_body]
pub struct ExAnyhowError(anyhow::Error);

#[verifier::external_type_specification]
#[verifier::external_body]
pub struct ExIoError(std::io::Error);

/// An error crossing the IPC boundary.
#[derive(Debug)]
pub enum AppError {
    /// A message-only error.
    Message(String),
    /// An `anyhow` chain; its text keeps the whole `.context()` chain.
    Anyhow(anyhow::Error),
    /// A filesystem or I/O error.
    Io(std::io::Error),
}

/// The text of an `anyhow` error in its alternate form, which joins the
/// whole context chain with `": "`. What that text holds is left to `anyhow`
/// and is not stated here.
#[verifier::external_body]
fn anyhow_chain_text(e: &anyhow::Error) -> String {
    format!("{e:#}")
}

/// The text of an I/O error, as `std::io::Error`'s `Display` prints it; not
/// stated here.
#[verifier::external_body]
fn io_error_text(e: &std::io::Error) -> String {
    e.to_string()
}

impl AppError {
    /// A message-only error.
    pub fn msg(message: &str) -> (e: AppError)
        ensures
            e matches AppError::Message(m) && m@ == message@,
    {
        AppError::Message(message.to_string())
    }

    /// The text the frontend receives for this error (its `Display` form).
    pub fn message(&self) -> (s: String)
        ensures
            self matches AppError::Message(m) ==> s@ == m@,
    {
        match self {
            AppError::Message(m) => m.clone(),
            AppError::Anyhow(e) => anyhow_chain_text(e),
            AppError::Io(e) => io_error_text(e),
        }
    }
}

impl From<String> for AppError {
    fn from(message: String) -> (e: AppError) {
        AppError::Message(message)
    }
}

impl vstd::std_specs::convert::FromSpecImpl<String> for AppError {
    open spec fn obeys_from_spec() -> bool {
        true
    }

    open spec fn from_spec(message: String) -> AppError {
        AppError::Message(message)
    }
}

impl From<anyhow::Error> for AppError {
    fn from(e: anyhow::Error) -> (r: AppError) {
        AppError::Anyhow(e)
    }
}

impl vstd::std_specs::convert::FromSpecImpl<anyhow::Error> for AppError {
    open spec fn obeys_from_spec() -> bool {
        true
    }

    open spec fn from_spec(e: anyhow::Error) -> AppError {
        AppError::Anyhow(e)
    }
}

impl From<std::io::Error> for AppError {
    fn from(e: std::io::Error) -> (r: AppError) {
        AppError::Io(e)
    }
}

impl vstd::std_specs::convert::FromSpecImpl<std::io::Error> for AppError {
    open spec fn obeys_from_spec() -> bool {
        true
    }

    open spec fn from_spec(e: std::io::Error) -> AppError {
        AppError::Io(e)
    }
}

} // verus!
