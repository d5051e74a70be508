//! A greeting service with two methods, `SayHello` and `SayGoodbye`, each from
//! a name to a greeting, together with its descriptors and its server.
use vstd::prelude::*;
use vstd::string::StringExecFns;

use crate::call::{Async, ClientFuture, ServerFuture};
use crate::codec::WireMessage;
use crate::descriptor::{MethodDescriptor, ServiceDescriptor};
use crate::error::Error;

verus! {

/// The service descriptor of the greeting service.
#[derive(Clone, Copy, Debug, PartialEq, Eq)]
pub struct GreetingDescriptor;

/// A method of the greeting service.
#[derive(Clone, Copy, Debug, PartialEq, Eq, Structural)]
pub enum GreetingMethodDescriptor {
    /// Greets a name on arrival.
    SayHello,
    /// Greets a name on departure.
    SayGoodbye,
}

impl MethodDescriptor for GreetingMethodDescriptor {
    open spec fn spec_name(&self) -> Seq<char> {
        match self {
            GreetingMethodDescriptor::SayHello => "say_hello"@,
            GreetingMethodDescriptor::SayGoodbye => "say_goodbye"@,
        }
    }

    open spec fn spec_proto_name(&self) -> Seq<char> {
        match self {
            GreetingMethodDescriptor::SayHello => "SayHello"@,
            GreetingMethodDescriptor::SayGoodbye => "SayGoodbye"@,
        }
    }

    open spec fn spec_input_proto_type(&self) -> Seq<char> {
        match self {
            GreetingMethodDescriptor::SayHello => ".greeting.SayHelloRequest"@,
            GreetingMethodDescriptor::SayGoodbye => ".greeting.SayGoodbyeRequest"@,
        }
    }

    open spec fn spec_output_proto_type(&self) -> Seq<char> {
        match self {
            GreetingMethodDescriptor::SayHello => ".greeting.SayHelloResponse"@,
            GreetingMethodDescriptor::SayGoodbye => ".greeting.SayGoodbyeResponse"@,
        }
    }

    fn name(&self) -> (r: &'static str) {
        match self {
            GreetingMethodDescriptor::SayHello => "say_hello",
            GreetingMethodDescriptor::SayGoodbye => "say_goodbye",
        }
    }

    fn proto_name(&self) -> (r: &'static str) {
        match self {
            GreetingMethodDescriptor::SayHello => "SayHello",
            GreetingMethodDescriptor::SayGoodbye => "SayGoodbye",
        }
    }

    fn input_proto_type(&self) -> (r: &'static str) {
        match self {
            GreetingMethodDescriptor::SayHello => ".greeting.SayHelloRequest",
            GreetingMethodDescriptor::SayGoodbye => ".greeting.SayGoodbyeRequest",
        }
    }

    fn output_proto_type(&self) -> (r: &'static str) {
        match self {
            GreetingMethodDescriptor::SayHello => ".greeting.SayHelloResponse",
            GreetingMethodDescriptor::SayGoodbye => ".greeting.SayGoodbyeResponse",
        }
    }
}

impl ServiceDescriptor for GreetingDescriptor {
    type Method = GreetingMethodDescriptor;

    open spec fn spec_name() -> Seq<char> {
        "Greeting"@
    }

    open spec fn spec_proto_name() -> Seq<char> {
        "Greeting"@
    }

    open spec fn method_list() -> Seq<GreetingMethodDescriptor> {
        seq![GreetingMethodDescriptor::SayHello, GreetingMethodDescriptor::SayGoodbye]
    }

    fn name() -> (r: &'static str) {
        "Greeting"
    }

    fn proto_name() -> (r: &'static str) {
        "Greeting"
    }

    fn methods() -> (r: Vec<GreetingMethodDescriptor>) {
        let r = vec![GreetingMethodDescriptor::SayHello, GreetingMethodDescriptor::SayGoodbye];
        proof {
            assert(r@ =~= Self::method_list());
            assert forall|m: GreetingMethodDescriptor| #[trigger]
                Self::method_list().contains(m) by {
                match m {
                    GreetingMethodDescriptor::SayHello => assert(Self::method_list()[0] == m),
                    GreetingMethodDescriptor::SayGoodbye => assert(Self::method_list()[1] == m),
                }
            }
        }
        r
    }
}

/// The failure of the greeting service's business logic.
#[derive(Clone, Copy, Debug, PartialEq, Eq, Structural)]
pub struct GreetingError;

/// The greeting service's business logic, which can be told to fail.
#[derive(Clone, Copy, Debug, PartialEq, Eq, Structural)]
pub struct GreetingService {
    /// Whether `say_hello` fails.
    pub fail_hello: bool,
    /// Whether `say_goodbye` fails.
    pub fail_goodbye: bool,
}

/// The greeting that `method` gives for `name`.
pub open spec fn greeting_of(method: GreetingMethodDescriptor, name: Seq<char>) -> Seq<char> {
    match method {
        GreetingMethodDescriptor::SayHello => "Hello, "@ + name + "!"@,
        GreetingMethodDescriptor::SayGoodbye => "Goodbye, "@ + name + "!"@,
    }
}

impl GreetingService {
    /// Whether `method` is told to fail.
    pub open spec fn fails(self, method: GreetingMethodDescriptor) -> bool {
        match method {
            GreetingMethodDescriptor::SayHello => self.fail_hello,
            GreetingMethodDescriptor::SayGoodbye => self.fail_goodbye,
        }
    }

    /// Greets `name` on arrival: `Hello, <name>!`.
    pub fn say_hello(&self, name: String) -> (r: Result<String, GreetingError>)
        ensures
            self.fail_hello ==> r == Err::<String, GreetingError>(GreetingError),
            !self.fail_hello ==> r is Ok && r->Ok_0@ == greeting_of(
                GreetingMethodDescriptor::SayHello,
                name@,
            ),
    {
        if self.fail_hello {
            Err(GreetingError)
        } else {
            let mut greeting = String::from_str("Hello, ");
            greeting.append(name.as_str());
            greeting.append("!");
            Ok(greeting)
        }
    }

    /// Greets `name` on departure: `Goodbye, <name>!`.
    pub fn say_goodbye(&self, name: String) -> (r: Result<String, GreetingError>)
        ensures
            self.fail_goodbye ==> r == Err::<String, GreetingError>(GreetingError),
            !self.fail_goodbye ==> r is Ok && r->Ok_0@ == greeting_of(
                GreetingMethodDescriptor::SayGoodbye,
                name@,
            ),
    {
        if self.fail_goodbye {
            Err(GreetingError)
        } else {
            let mut greeting = String::from_str("Goodbye, ");
            greeting.append(name.as_str());
            greeting.append("!");
            Ok(greeting)
        }
    }

    /// Serves one raw call of `method`: decodes the name, runs the method's
    /// business logic and encodes the greeting.
    ///
    /// Every method of the service is served; a business failure comes back
    /// as an execution error and a malformed input as a decode error.
    pub fn serve(&self, method: GreetingMethodDescriptor, input: Vec<u8>) -> (r: Result<
        Vec<u8>,
        Error<GreetingError>,
    >)
        ensures
            String::parse(input@) matches Some(name) ==> {
                &&& self.fails(method) ==> r == Err::<Vec<u8>, Error<GreetingError>>(
                    Error::Execution { error: GreetingError },
                )
                &&& !self.fails(method) && String::wire(greeting_of(method, name)).len()
                    <= isize::MAX ==> r is Ok
                &&& r is Ok ==> r->Ok_0@ == String::wire(greeting_of(method, name))
            },
            r is Err ==> r->Err_0 is Decode || r->Err_0 is Encode || r == Err::<
                Vec<u8>,
                Error<GreetingError>,
            >(Error::Execution { error: GreetingError }),
    {
        let mut server = ServerFuture::<String, String>::new(input);
        let name = match server.start::<GreetingError>() {
            Ok(name) => name,
            Err(error) => {
                return Err(error);
            },
        };
        let outcome = match method {
            GreetingMethodDescriptor::SayHello => self.say_hello(name),
            GreetingMethodDescriptor::SayGoodbye => self.say_goodbye(name),
        };
        let answer = match outcome {
            Ok(greeting) => server.poll::<GreetingError>(Ok(Async::Ready(greeting))),
            Err(error) => server.poll::<GreetingError>(Err(error)),
        };
        match answer {
            Ok(Async::Ready(bytes)) => Ok(bytes),
            Ok(Async::NotReady) => Err(Error::Canceled),
            Err(error) => Err(error),
        }
    }
}

/// A client of the greeting service whose handler is a greeting server in
/// the same process.
#[derive(Clone, Copy, Debug, PartialEq, Eq, Structural)]
pub struct GreetingClient {
    /// The server that carries every call.
    pub server: GreetingService,
}

impl GreetingClient {
    /// Creates a client that hands every call to `server`.
    pub fn new(server: GreetingService) -> (r: GreetingClient)
        ensures
            r.server == server,
    {
        GreetingClient { server }
    }

    /// Calls `method` with `name` through the server.
    ///
    /// The caller gets exactly the greeting that the business logic produced;
    /// a business failure arrives wrapped once by the server and once by the
    /// client.
    pub fn call(&self, method: GreetingMethodDescriptor, name: String) -> (r: Result<
        String,
        Error<Error<GreetingError>>,
    >)
        ensures
            String::wire(name@).len() <= isize::MAX ==> {
                &&& self.server.fails(method) ==> r == Err::<String, Error<Error<GreetingError>>>(
                    Error::Execution { error: Error::Execution { error: GreetingError } },
                )
                &&& !self.server.fails(method) && String::wire(greeting_of(method, name@)).len()
                    <= isize::MAX ==> r is Ok && r->Ok_0@ == greeting_of(method, name@)
            },
            r is Err ==> r->Err_0 is Encode || r->Err_0 is Execution,
    {
        let ghost name_model = name@;
        let mut client = ClientFuture::<GreetingService, GreetingMethodDescriptor, String, String>::new(self.server, name, method);
        let (handler, method, bytes) = match client.start::<Error<GreetingError>>() {
            Ok(call) => call,
            Err(error) => {
                return Err(error);
            },
        };
        proof {
            String::lemma_round_trip(name_model);
            String::lemma_round_trip(greeting_of(method, name_model));
        }
        let answer = handler.serve(method, bytes);
        let reply = match answer {
            Ok(bytes) => client.poll::<Error<GreetingError>>(Ok(Async::Ready(bytes))),
            Err(error) => client.poll::<Error<GreetingError>>(Err(error)),
        };
        match reply {
            Ok(Async::Ready(greeting)) => Ok(greeting),
            Ok(Async::NotReady) => Err(Error::Canceled),
            Err(error) => Err(error),
        }
    }

    /// Calls `SayHello` with `name`.
    pub fn say_hello(&self, name: String) -> (r: Result<String, Error<Error<GreetingError>>>)
        ensures
            String::wire(name@).len() <= isize::MAX ==> {
                &&& self.server.fail_hello ==> r == Err::<String, Error<Error<GreetingError>>>(
                    Error::Execution { error: Error::Execution { error: GreetingError } },
                )
                &&& !self.server.fail_hello && String::wire(
                    greeting_of(GreetingMethodDescriptor::SayHello, name@),
                ).len() <= isize::MAX ==> r is Ok && r->Ok_0@ == greeting_of(
                    GreetingMethodDescriptor::SayHello,
                    name@,
                )
            },
    {
        self.call(GreetingMethodDescriptor::SayHello, name)
    }

    /// Calls `SayGoodbye` with `name`.
    pub fn say_goodbye(&self, name: String) -> (r: Result<String, Error<Error<GreetingError>>>)
        ensures
            String::wire(name@).len() <= isize::MAX ==> {
                &&& self.server.fail_goodbye ==> r == Err::<String, Error<Error<GreetingError>>>(
                    Error::Execution { error: Error::Execution { error: GreetingError } },
                )
                &&& !self.server.fail_goodbye && String::wire(
                    greeting_of(GreetingMethodDescriptor::SayGoodbye, name@),
                ).len() <= isize::MAX ==> r is Ok && r->Ok_0@ == greeting_of(
                    GreetingMethodDescriptor::SayGoodbye,
                    name@,
                )
            },
    {
        self.call(GreetingMethodDescriptor::SayGoodbye, name)
    }
}

} // verus!
