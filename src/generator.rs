//! The code generator's own rules; the text it emits is produced around the
//! schema compiler, outside this library.
use vstd::prelude::*;

verus! {

/// The service generator to be plugged into the schema compiler.
#[derive(Clone, Copy, Debug)]
pub struct ServiceGenerator {
    _private: (),
}

/// Why a method cannot be generated.
#[derive(Clone, Copy, Debug, PartialEq, Eq, Structural)]
pub enum GenerateError {
    /// The method streams its requests.
    ClientStreaming,
    /// The method streams its responses.
    ServerStreaming,
}

impl ServiceGenerator {
    /// Creates a generator with the default options (a generator has no other
    /// state).
    pub fn new() -> (r: ServiceGenerator) {
        ServiceGenerator { _private: () }
    }

    /// Checks that a method is a single-request, single-response call, the only
    /// kind this runtime carries. Client streaming is reported first.
    pub fn check_method(&self, client_streaming: bool, server_streaming: bool) -> (r: Result<
        (),
        GenerateError,
    >)
        ensures
            client_streaming ==> r == Err::<(), GenerateError>(GenerateError::ClientStreaming),
            !client_streaming && server_streaming ==> r == Err::<(), GenerateError>(
                GenerateError::ServerStreaming,
            ),
            !client_streaming && !server_streaming ==> r is Ok,
    {
        if client_streaming {
            Err(GenerateError::ClientStreaming)
        } else if server_streaming {
            Err(GenerateError::ServerStreaming)
        } else {
            Ok(())
        }
    }
}

} // verus!
