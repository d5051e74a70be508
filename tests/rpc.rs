use prost_simple_rpc::call::{call_in_process, Async, ClientFuture, ServerFuture};
use prost_simple_rpc::codec::{decode, encode, WireMessage};
use prost_simple_rpc::descriptor::{MethodDescriptor, ServiceDescriptor};
use prost_simple_rpc::error::Error;
use prost_simple_rpc::generator::{GenerateError, ServiceGenerator};
use prost_simple_rpc::greeting::{
    GreetingClient, GreetingDescriptor, GreetingError, GreetingMethodDescriptor, GreetingService,
};

#[derive(Debug, Eq, PartialEq)]
struct EchoError;

fn echo(fail: bool) -> impl Fn(Vec<u8>) -> Result<Vec<u8>, EchoError> {
    move |data| if fail { Err(EchoError) } else { Ok(data) }
}

#[test]
fn echo_success() {
    let response = call_in_process((), vec![1u8, 2, 3], echo(false));
    assert_eq!(response.as_ref().ok(), Some(&vec![1u8, 2, 3]));
    assert!(response.is_ok());
}

#[test]
fn echo_fail() {
    let response = call_in_process((), vec![1u8, 2, 3], echo(true));
    assert!(response.is_err());
    // Two layers of execution errors: one from the server and one from the client.
    assert_eq!(
        response,
        Err(Error::execution(Error::execution(EchoError)))
    );
}

#[test]
fn bytes_encode_exact() {
    let bytes = encode::<Vec<u8>, ()>(vec![1, 2, 3]).unwrap();
    assert_eq!(bytes, vec![0x0A, 3, 1, 2, 3]);
}

#[test]
fn empty_message_encodes_to_nothing() {
    assert_eq!(encode::<Vec<u8>, ()>(Vec::new()).unwrap(), Vec::<u8>::new());
    assert_eq!(encode::<String, ()>(String::new()).unwrap(), Vec::<u8>::new());
    assert_eq!(decode::<Vec<u8>, ()>(&[]).unwrap(), Vec::<u8>::new());
    assert_eq!(decode::<String, ()>(&[]).unwrap(), String::new());
}

#[test]
fn long_payload_uses_two_byte_varint() {
    let data = vec![7u8; 200];
    let bytes = encode::<Vec<u8>, ()>(data.clone()).unwrap();
    assert_eq!(&bytes[..3], &[0x0A, 0xC8, 0x01]);
    assert_eq!(bytes.len(), 203);
    assert_eq!(decode::<Vec<u8>, ()>(&bytes).unwrap(), data);
}

#[test]
fn string_encode_exact() {
    let bytes = encode::<String, ()>("hé".to_string()).unwrap();
    assert_eq!(bytes, vec![0x0A, 3, b'h', 0xC3, 0xA9]);
}

#[test]
fn round_trip_messages() {
    for data in [vec![], vec![0u8], vec![1, 2, 3], vec![255u8; 1000]] {
        let bytes = encode::<Vec<u8>, ()>(data.clone()).unwrap();
        assert_eq!(decode::<Vec<u8>, ()>(&bytes).unwrap(), data);
    }
    for text in ["", "dflemstr", "Grüße, 世界 🦀"] {
        let bytes = encode::<String, ()>(text.to_string()).unwrap();
        assert_eq!(decode::<String, ()>(&bytes).unwrap(), text);
    }
}

#[test]
fn wire_message_trait_round_trip() {
    let bytes = "abc".to_string().encode_message().unwrap();
    assert_eq!(String::decode_message(&bytes).unwrap(), "abc");
}

#[test]
fn truncated_input_is_decode_error() {
    let r = decode::<Vec<u8>, ()>(&[0x0A, 5, 1]);
    assert!(matches!(r, Err(Error::Decode { .. })));
}

#[test]
fn invalid_utf8_is_decode_error() {
    let r = decode::<String, ()>(&[0x0A, 2, 0xFF, 0xFE]);
    assert!(matches!(r, Err(Error::Decode { .. })));
}

#[test]
fn client_waits_then_wraps_handler_error() {
    let mut call = ClientFuture::<&str, u8, Vec<u8>, Vec<u8>>::new("handler", vec![4, 5], 9);
    let (handler, method, bytes) = call.start::<EchoError>().unwrap();
    assert_eq!(handler, "handler");
    assert_eq!(method, 9);
    assert_eq!(bytes, vec![0x0A, 2, 4, 5]);
    assert_eq!(call.poll::<EchoError>(Ok(Async::NotReady)), Ok(Async::NotReady));
    assert_eq!(
        call.poll::<EchoError>(Err(EchoError)),
        Err(Error::Execution { error: EchoError })
    );
}

#[test]
fn client_decodes_answer() {
    let mut call = ClientFuture::<(), (), Vec<u8>, String>::new((), vec![1], ());
    call.start::<EchoError>().unwrap();
    let answer = encode::<String, ()>("ok".to_string()).unwrap();
    assert_eq!(
        call.poll::<EchoError>(Ok(Async::Ready(answer))),
        Ok(Async::Ready("ok".to_string()))
    );
}

#[test]
fn client_reports_bad_answer_as_decode_error() {
    let mut call = ClientFuture::<(), (), Vec<u8>, Vec<u8>>::new((), vec![1], ());
    call.start::<EchoError>().unwrap();
    let r = call.poll::<EchoError>(Ok(Async::Ready(vec![0x0A, 9])));
    assert!(matches!(r, Err(Error::Decode { .. })));
}

#[test]
fn completed_client_refuses_repoll() {
    let mut call = ClientFuture::<(), (), Vec<u8>, Vec<u8>>::new((), vec![1], ());
    call.start::<EchoError>().unwrap();
    let first = call.poll::<EchoError>(Ok(Async::Ready(vec![0x0A, 1, 8])));
    assert_eq!(first, Ok(Async::Ready(vec![8])));
    let again = call.poll::<EchoError>(Ok(Async::Ready(vec![0x0A, 1, 8])));
    assert_eq!(again, Err(Error::AlreadyCompleted));
    let still = call.poll::<EchoError>(Ok(Async::NotReady));
    assert_eq!(still, Err(Error::AlreadyCompleted));
}

#[test]
fn server_runs_decode_execute_encode() {
    let mut server = ServerFuture::<Vec<u8>, Vec<u8>>::new(vec![0x0A, 2, 6, 7]);
    let input = server.start::<EchoError>().unwrap();
    assert_eq!(input, vec![6, 7]);
    assert_eq!(server.poll::<EchoError>(Ok(Async::NotReady)), Ok(Async::NotReady));
    assert_eq!(
        server.poll::<EchoError>(Ok(Async::Ready(vec![6, 7, 8]))),
        Ok(Async::Ready(vec![0x0A, 3, 6, 7, 8]))
    );
    assert_eq!(
        server.poll::<EchoError>(Ok(Async::NotReady)),
        Err(Error::AlreadyCompleted)
    );
}

#[test]
fn server_wraps_business_error_once() {
    let mut server = ServerFuture::<Vec<u8>, Vec<u8>>::new(vec![]);
    assert_eq!(server.start::<EchoError>().unwrap(), Vec::<u8>::new());
    assert_eq!(
        server.poll::<EchoError>(Err(EchoError)),
        Err(Error::Execution { error: EchoError })
    );
}

#[test]
fn server_reports_malformed_input_locally() {
    let mut server = ServerFuture::<String, String>::new(vec![0x0A, 3, b'a']);
    let r = server.start::<EchoError>();
    assert!(matches!(r, Err(Error::Decode { .. })));
}

#[test]
fn in_process_passthrough_returns_business_value() {
    let r = call_in_process((), "abc".to_string(), |s: String| {
        Ok::<String, EchoError>(format!("{}{}", s, s))
    });
    assert_eq!(r, Ok("abcabc".to_string()));
}

#[test]
fn greeting_say_hello() {
    let client = GreetingClient::new(GreetingService {
        fail_hello: false,
        fail_goodbye: false,
    });
    assert_eq!(client.say_hello("dflemstr".to_owned()), Ok("Hello, dflemstr!".to_owned()));
}

#[test]
fn greeting_say_goodbye() {
    let client = GreetingClient::new(GreetingService {
        fail_hello: false,
        fail_goodbye: false,
    });
    assert_eq!(
        client.say_goodbye("dflemstr".to_owned()),
        Ok("Goodbye, dflemstr!".to_owned())
    );
}

#[test]
fn greeting_failure_nests_once_per_layer() {
    let service = GreetingService {
        fail_hello: true,
        fail_goodbye: false,
    };
    let request = encode::<String, ()>("dflemstr".to_owned()).unwrap();
    assert_eq!(
        service.serve(GreetingMethodDescriptor::SayHello, request),
        Err(Error::execution(GreetingError))
    );
    let client = GreetingClient::new(service);
    assert_eq!(
        client.say_hello("dflemstr".to_owned()),
        Err(Error::execution(Error::execution(GreetingError)))
    );
    assert_eq!(client.say_goodbye("x".to_owned()), Ok("Goodbye, x!".to_owned()));
}

#[test]
fn greeting_serve_every_method() {
    let service = GreetingService {
        fail_hello: false,
        fail_goodbye: false,
    };
    for method in GreetingDescriptor::methods() {
        let request = encode::<String, ()>("ann".to_owned()).unwrap();
        let answer = service.serve(method, request).unwrap();
        let greeting = decode::<String, ()>(&answer).unwrap();
        assert!(greeting.ends_with("ann!"));
    }
}

#[test]
fn greeting_serve_rejects_malformed_input() {
    let service = GreetingService {
        fail_hello: false,
        fail_goodbye: false,
    };
    let r = service.serve(GreetingMethodDescriptor::SayGoodbye, vec![0x0A, 4]);
    assert!(matches!(r, Err(Error::Decode { .. })));
}

#[test]
fn greeting_descriptors() {
    assert_eq!(GreetingDescriptor::name(), "Greeting");
    assert_eq!(GreetingDescriptor::proto_name(), "Greeting");
    assert_eq!(
        GreetingDescriptor::methods(),
        vec![GreetingMethodDescriptor::SayHello, GreetingMethodDescriptor::SayGoodbye]
    );
    let m = GreetingMethodDescriptor::SayGoodbye;
    assert_eq!(m.name(), "say_goodbye");
    assert_eq!(m.proto_name(), "SayGoodbye");
    assert_eq!(m.input_proto_type(), ".greeting.SayGoodbyeRequest");
    assert_eq!(m.output_proto_type(), ".greeting.SayGoodbyeResponse");
    assert_eq!(GreetingMethodDescriptor::SayHello.name(), "say_hello");
}

#[test]
fn generator_accepts_only_unary_methods() {
    let g = ServiceGenerator::new();
    assert_eq!(g.check_method(false, false), Ok(()));
    assert_eq!(g.check_method(true, false), Err(GenerateError::ClientStreaming));
    assert_eq!(g.check_method(false, true), Err(GenerateError::ServerStreaming));
    assert_eq!(g.check_method(true, true), Err(GenerateError::ClientStreaming));
}
