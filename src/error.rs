//! Errors that can occur during RPC interactions.
use vstd::prelude::*;

verus! {

/// Declares prost's decode error so that it can be carried in an `Error`.
#[verifier::external_type_specification]
#[verifier::external_body]
pub struct ExDecodeError(prost::DecodeError);

/// Declares prost's encode error so that it can be carried in an `Error`.
#[verifier::external_type_specification]
#[verifier::external_body]
pub struct ExEncodeError(prost::EncodeError);

/// An error that occurred during an RPC interaction.
///
/// `E` is the error type of the layer directly below: the business logic of a
/// server, or the handler of a client.
#[derive(Debug, PartialEq, Eq)]
#[allow(inconsistent_fields)]
pub enum Error<E> {
    /// The layer below failed; its whole error value is carried unchanged.
    Execution {
        /// The underlying execution error.
        error: E,
    },
    /// Input bytes could not be decoded at this layer.
    Decode {
        /// The underlying decode error.
        error: prost::DecodeError,
    },
    /// An output message could not be encoded at this layer.
    Encode {
        /// The underlying encode error.
        error: prost::EncodeError,
    },
    /// The asynchronous operation was abandoned before it completed.
    Canceled,
    /// The call had already completed when it was polled again.
    AlreadyCompleted,
}

/// A `Result` whose error is an RPC `Error`.
pub type Result<A, E> = core::result::Result<A, Error<E>>;

impl<E> Error<E> {
    /// Wraps an error of the layer below as an execution error.
    pub fn execution(error: E) -> (r: Self)
        ensures
            r == (Error::Execution::<E> { error }),
    {
        Error::Execution { error }
    }
}

impl<E> From<prost::DecodeError> for Error<E> {
    fn from(error: prost::DecodeError) -> (r: Self) {
        Error::Decode { error }
    }
}

impl<E> vstd::std_specs::convert::FromSpecImpl<prost::DecodeError> for Error<E> {
    open spec fn obeys_from_spec() -> bool {
        true
    }

    open spec fn from_spec(error: prost::DecodeError) -> Self {
        Error::Decode { error }
    }
}

impl<E> From<prost::EncodeError> for Error<E> {
    fn from(error: prost::EncodeError) -> (r: Self) {
        Error::Encode { error }
    }
}

impl<E> vstd::std_specs::convert::FromSpecImpl<prost::EncodeError> for Error<E> {
    open spec fn obeys_from_spec() -> bool {
        true
    }

    open spec fn from_spec(error: prost::EncodeError) -> Self {
        Error::Encode { error }
    }
}

} // verus!
