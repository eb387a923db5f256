//! The decode and encode failures shared by all register types.

use crate::text::{append_decimal, decimal};
use vstd::prelude::*;
use vstd::string::StringExecFns;

verus! {

/// Why a register value could not be decoded, or a value not be encoded.
#[derive(Debug, PartialEq, Eq)]
pub enum Error {
    /// The number of registers handed in is not the number the type occupies.
    UnexpectedDataLength { expected: usize, got: usize },
    /// A register holds a malformed bit pattern, such as a non-zero upper byte.
    InvalidData { details: String },
    /// A register holds a code outside a closed enumeration.
    InvalidValueCode { entity: String, code: u16 },
    /// A value has no representation on the wire.
    EncodeError { reason: String },
}

/// The mathematical content of an [`Error`].
pub enum ErrorView {
    UnexpectedDataLength { expected: nat, got: nat },
    InvalidData { details: Seq<char> },
    InvalidValueCode { entity: Seq<char>, code: u16 },
    EncodeError { reason: Seq<char> },
}

impl View for Error {
    type V = ErrorView;

    open spec fn view(&self) -> ErrorView {
        match *self {
            Error::UnexpectedDataLength { expected, got } => ErrorView::UnexpectedDataLength {
                expected: expected as nat,
                got: got as nat,
            },
            Error::InvalidData { details } => ErrorView::InvalidData { details: details@ },
            Error::InvalidValueCode { entity, code } => ErrorView::InvalidValueCode {
                entity: entity@,
                code,
            },
            Error::EncodeError { reason } => ErrorView::EncodeError { reason: reason@ },
        }
    }
}

/// A result of the codec with its error replaced by the error's content.
pub open spec fn outcome<T>(r: Result<T, Error>) -> Result<T, ErrorView> {
    match r {
        Ok(value) => Ok(value),
        Err(error) => Err(error@),
    }
}

impl ErrorView {
    /// The message shown to a user for this error.
    pub open spec fn message(self) -> Seq<char> {
        match self {
            ErrorView::UnexpectedDataLength { expected, got } => "Invalid data length: expected "@
                + decimal(expected) + ", got "@ + decimal(got),
            ErrorView::InvalidData { details } => "Invalid data in register: "@ + details,
            ErrorView::InvalidValueCode { entity, code } => "Invalid value code for "@ + entity
                + ": "@ + decimal(code as nat),
            ErrorView::EncodeError { reason } => "Cannot encode value: "@ + reason,
        }
    }
}

impl Error {
    /// Renders the error as the message shown to a user.
    pub fn to_string(&self) -> (text: String)
        ensures
            text@ == self@.message(),
    {
        match self {
            Error::UnexpectedDataLength { expected, got } => {
                let mut text = String::from_str("Invalid data length: expected ");
                append_decimal(&mut text, *expected as u64);
                text.append(", got ");
                append_decimal(&mut text, *got as u64);
                text
            },
            Error::InvalidData { details } => {
                let mut text = String::from_str("Invalid data in register: ");
                text.append(details.as_str());
                text
            },
            Error::InvalidValueCode { entity, code } => {
                let mut text = String::from_str("Invalid value code for ");
                text.append(entity.as_str());
                text.append(": ");
                append_decimal(&mut text, *code as u64);
                text
            },
            Error::EncodeError { reason } => {
                let mut text = String::from_str("Cannot encode value: ");
                text.append(reason.as_str());
                text
            },
        }
    }
}

} // verus!
