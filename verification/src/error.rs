//! The error type that every adapter operation reports.

use vstd::prelude::*;
use crate::text::{decimal, push_decimal, push_str, owned};

verus! {

/// Unified error type for project-management adapters.
#[derive(Debug)]
pub enum PmError {
    /// HTTP or network error.
    Http(String),
    /// The API answered with an error.
    Api { status: u16, message: String },
    /// The payload could not be read.
    Parse(String),
    /// The adapter does not offer this operation.
    UnsupportedOperation(String),
}

/// The mathematical form of a [`PmError`].
pub enum PmErrorView {
    Http(Seq<char>),
    Api { status: u16, message: Seq<char> },
    Parse(Seq<char>),
    UnsupportedOperation(Seq<char>),
}

impl View for PmError {
    type V = PmErrorView;

    open spec fn view(&self) -> PmErrorView {
        match self {
            PmError::Http(m) => PmErrorView::Http(m@),
            PmError::Api { status, message } => PmErrorView::Api {
                status: *status,
                message: message@,
            },
            PmError::Parse(m) => PmErrorView::Parse(m@),
            PmError::UnsupportedOperation(op) => PmErrorView::UnsupportedOperation(op@),
        }
    }
}

pub type PmResult<T> = Result<T, PmError>;

/// The human-readable text of an error.
pub open spec fn error_text(e: PmErrorView) -> Seq<char> {
    match e {
        PmErrorView::Http(m) => "HTTP error: "@ + m,
        PmErrorView::Api { status, message } => "API error ("@ + decimal(status as nat) + "): "@
            + message,
        PmErrorView::Parse(m) => "Parse error: "@ + m,
        PmErrorView::UnsupportedOperation(op) => "Unsupported operation: "@ + op,
    }
}

impl PmError {
    /// The error of an operation that the adapter does not offer.
    pub fn unsupported(operation: &str) -> (e: PmError)
        ensures
            e@ == PmErrorView::UnsupportedOperation(operation@),
    {
        PmError::UnsupportedOperation(owned(operation))
    }

    /// The human-readable text of the error.
    pub fn to_string(&self) -> (r: String)
        ensures
            r@ == error_text(self@),
    {
        match self {
            PmError::Http(m) => {
                let mut s = owned("HTTP error: ");
                push_str(&mut s, m.as_str());
                s
            },
            PmError::Api { status, message } => {
                let mut s = owned("API error (");
                push_decimal(&mut s, *status as u64);
                push_str(&mut s, "): ");
                push_str(&mut s, message.as_str());
                s
            },
            PmError::Parse(m) => {
                let mut s = owned("Parse error: ");
                push_str(&mut s, m.as_str());
                s
            },
            PmError::UnsupportedOperation(op) => {
                let mut s = owned("Unsupported operation: ");
                push_str(&mut s, op.as_str());
                s
            },
        }
    }
}

} // verus!
