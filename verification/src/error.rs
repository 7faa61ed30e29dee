//! The protocol's error model: a category tag, a carried description, and
//! the serializable projection that crosses the wire.

use vstd::prelude::*;

verus! {

/// The category of a [`ProtocolError`].
#[derive(Clone, Copy, Debug, PartialEq, Eq, Structural)]
pub enum ProtocolErrorType {
    NotFound,
    HttpMethodNotAllowed,
    BadRequest,
    Unauthorized,
    Internal,
}

/// A "one size fits all" error type for the protocol: a category and the
/// rendered text of the underlying failure.
#[derive(Clone, Debug)]
pub struct ProtocolError {
    pub error_type: ProtocolErrorType,
    pub error: String,
}

impl ProtocolError {
    /// Creates an error from a category and the failure's rendered text.
    pub fn new(error_type: ProtocolErrorType, error: String) -> (r: Self)
        ensures
            r.error_type == error_type,
            r.error == error,
    {
        Self { error_type, error }
    }
}

/// A serializable variant of the protocol error: a category and a
/// description of the failure.
#[derive(Clone, Debug)]
pub struct SerializableProtocolError {
    pub error_type: ProtocolErrorType,
    pub description: String,
}

impl From<ProtocolError> for SerializableProtocolError {
    /// Projects an error onto its wire form; the description is the
    /// rendered text of the cause.
    fn from(value: ProtocolError) -> (r: Self) {
        Self { error_type: value.error_type, description: value.error }
    }
}

impl vstd::std_specs::convert::FromSpecImpl<ProtocolError> for SerializableProtocolError {
    open spec fn obeys_from_spec() -> bool {
        true
    }

    open spec fn from_spec(value: ProtocolError) -> Self {
        SerializableProtocolError { error_type: value.error_type, description: value.error }
    }
}

impl From<SerializableProtocolError> for ProtocolError {
    /// Reconstructs a protocol error from its wire form with the same
    /// category and description.
    fn from(value: SerializableProtocolError) -> (r: Self) {
        Self { error_type: value.error_type, error: value.description }
    }
}

impl vstd::std_specs::convert::FromSpecImpl<SerializableProtocolError> for ProtocolError {
    open spec fn obeys_from_spec() -> bool {
        true
    }

    open spec fn from_spec(value: SerializableProtocolError) -> Self {
        ProtocolError { error_type: value.error_type, error: value.description }
    }
}

} // verus!
