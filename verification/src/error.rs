//! The typed failures a decode can return.
//!
//! Every operation of this layer returns success or exactly one of these;
//! nothing here retries, logs, or terminates the process.

use vstd::prelude::*;

verus! {

/// Why a wire frame or payload was refused.
#[derive(Debug)]
pub enum DecodeError {
    /// The frame's `type` token is not in the catalog.
    UnknownKind { got: String },
    /// A required field is missing, null, or of the wrong JSON type.
    MalformedPayload { field: String },
    /// A present field lies outside its closed vocabulary.
    InvalidEnumValue { field: String, got: String },
    /// A well-typed canonical record was rejected by the internal
    /// constructor it was handed to.
    InternalConstructionRejected,
}

/// The mathematical reading of a `DecodeError`.
pub enum DecodeErrorV {
    UnknownKind { got: Seq<char> },
    MalformedPayload { field: Seq<char> },
    InvalidEnumValue { field: Seq<char>, got: Seq<char> },
    InternalConstructionRejected,
}

impl View for DecodeError {
    type V = DecodeErrorV;

    open spec fn view(&self) -> DecodeErrorV {
        match self {
            DecodeError::UnknownKind { got } => DecodeErrorV::UnknownKind { got: got@ },
            DecodeError::MalformedPayload { field } => DecodeErrorV::MalformedPayload {
                field: field@,
            },
            DecodeError::InvalidEnumValue { field, got } => DecodeErrorV::InvalidEnumValue {
                field: field@,
                got: got@,
            },
            DecodeError::InternalConstructionRejected => DecodeErrorV::InternalConstructionRejected,
        }
    }
}

/// A `MalformedPayload` naming `field`.
pub fn malformed(field: &str) -> (e: DecodeError)
    ensures
        e@ == (DecodeErrorV::MalformedPayload { field: field@ }),
{
    DecodeError::MalformedPayload { field: field.to_owned() }
}

/// An `InvalidEnumValue` naming `field` and the out-of-vocabulary `got`.
pub fn invalid_enum(field: &str, got: &str) -> (e: DecodeError)
    ensures
        e@ == (DecodeErrorV::InvalidEnumValue { field: field@, got: got@ }),
{
    DecodeError::InvalidEnumValue { field: field.to_owned(), got: got.to_owned() }
}

} // verus!
