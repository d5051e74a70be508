//! The state machines that carry one call through encode, dispatch and decode.
//!
//! Each machine is advanced by its driver: the driver performs the outside work
//! that a state asks for (calling a handler, running business logic) and hands
//! back what that work produced. A state owns its data and gives it up when the
//! machine moves on; no state is entered twice.
use core::marker::PhantomData;
use vstd::prelude::*;

use crate::codec::{decode, encode, WireMessage};
use crate::error::Error;

verus! {

/// The progress of an asynchronous operation.
#[derive(Debug, PartialEq, Eq)]
pub enum Async<T> {
    /// The operation completed with this value.
    Ready(T),
    /// The operation is still in flight.
    NotReady,
}

/// The caller's side of one call.
#[derive(Debug)]
pub enum ClientFuture<H, M, I, O> {
    /// The input has not been encoded yet.
    Encode(I, H, M),
    /// The encoded input was handed to the handler, whose answer is awaited.
    Call(PhantomData<O>),
    /// The result was handed to the caller.
    Done(PhantomData<O>),
}

impl<H, M, I: WireMessage, O: WireMessage> ClientFuture<H, M, I, O> {
    /// Starts a call of `method` with `input`, to be carried by `handler`.
    pub fn new(handler: H, input: I, method: M) -> (r: Self)
        ensures
            r == ClientFuture::<H, M, I, O>::Encode(input, handler, method),
    {
        ClientFuture::Encode(input, handler, method)
    }

    /// Encodes the input; on success the call waits for the handler and the
    /// handler, the method and the encoded input are handed back for the
    /// driver to make the handler call with.
    pub fn start<E>(&mut self) -> (r: core::result::Result<(H, M, Vec<u8>), Error<E>>)
        requires
            (*old(self)) is Encode,
        ensures
            match *old(self) {
                ClientFuture::Encode(input, handler, method) => {
                    &&& I::wire(input@).len() <= isize::MAX ==> r is Ok
                    &&& r matches Ok((h, m, b)) ==> h == handler && m == method && b@ == I::wire(
                        input@,
                    ) && (*final(self)) is Call
                    &&& r is Err ==> r->Err_0 is Encode && (*final(self)) is Done
                },
                _ => false,
            },
    {
        let mut state = ClientFuture::Done(PhantomData);
        core::mem::swap(self, &mut state);
        match state {
            ClientFuture::Encode(input, handler, method) => {
                match encode::<I, E>(input) {
                    Ok(bytes) => {
                        *self = ClientFuture::Call(PhantomData);
                        Ok((handler, method, bytes))
                    },
                    Err(error) => Err(error),
                }
            },
            _ => Err(Error::AlreadyCompleted),
        }
    }

    /// Advances the call with what the handler's operation reported.
    ///
    /// A handler failure is wrapped whole as an execution error; an answer is
    /// decoded as the output. A call that has completed reports
    /// `AlreadyCompleted` on every further poll.
    pub fn poll<E>(&mut self, outcome: core::result::Result<Async<Vec<u8>>, E>) -> (r:
        core::result::Result<Async<O>, Error<E>>)
        requires
            !((*old(self)) is Encode),
        ensures
            (*old(self)) is Done ==> r == Err::<Async<O>, Error<E>>(Error::AlreadyCompleted)
                && (*final(self)) is Done,
            (*old(self)) is Call ==> match outcome {
                Ok(Async::NotReady) => {
                    &&& r == Ok::<Async<O>, Error<E>>(Async::NotReady)
                    &&& (*final(self)) is Call
                },
                Err(e) => r == Err::<Async<O>, Error<E>>(Error::Execution { error: e })
                    && (*final(self)) is Done,
                Ok(Async::Ready(b)) => {
                    &&& (*final(self)) is Done
                    &&& O::parse(b@) is Some ==> r is Ok && r->Ok_0 is Ready && r->Ok_0->Ready_0@
                        == O::parse(b@)->Some_0
                    &&& r is Ok ==> r->Ok_0 is Ready
                    &&& r is Err ==> r->Err_0 is Decode
                },
            },
    {
        let mut state = ClientFuture::Done(PhantomData);
        core::mem::swap(self, &mut state);
        match state {
            ClientFuture::Call(p) => match outcome {
                Ok(Async::Ready(bytes)) => match decode::<O, E>(bytes.as_slice()) {
                    Ok(output) => Ok(Async::Ready(output)),
                    Err(error) => Err(error),
                },
                Ok(Async::NotReady) => {
                    *self = ClientFuture::Call(p);
                    Ok(Async::NotReady)
                },
                Err(error) => Err(Error::execution(error)),
            },
            _ => Err(Error::AlreadyCompleted),
        }
    }
}

/// The callee's side of one call.
#[derive(Debug)]
pub enum ServerFuture<I, O> {
    /// The raw input has not been decoded yet.
    Decode(Vec<u8>),
    /// The business logic runs on the decoded input, and its result is awaited.
    Execute(PhantomData<I>),
    /// The result was handed to the caller.
    Done(PhantomData<O>),
}

impl<I: WireMessage, O: WireMessage> ServerFuture<I, O> {
    /// Starts serving a call whose raw input is `input`.
    pub fn new(input: Vec<u8>) -> (r: Self)
        ensures
            r == ServerFuture::<I, O>::Decode(input),
    {
        ServerFuture::Decode(input)
    }

    /// Decodes the raw input; on success the call waits for the business logic,
    /// which the driver runs on the decoded input handed back.
    pub fn start<E>(&mut self) -> (r: core::result::Result<I, Error<E>>)
        requires
            (*old(self)) is Decode,
        ensures
            match *old(self) {
                ServerFuture::Decode(bytes) => {
                    &&& I::parse(bytes@) is Some ==> r is Ok && r->Ok_0@ == I::parse(
                        bytes@,
                    )->Some_0
                    &&& r is Ok ==> (*final(self)) is Execute
                    &&& r is Err ==> r->Err_0 is Decode && (*final(self)) is Done
                },
                _ => false,
            },
    {
        let mut state = ServerFuture::Done(PhantomData);
        core::mem::swap(self, &mut state);
        match state {
            ServerFuture::Decode(bytes) => match decode::<I, E>(bytes.as_slice()) {
                Ok(input) => {
                    *self = ServerFuture::Execute(PhantomData);
                    Ok(input)
                },
                Err(error) => Err(error),
            },
            _ => Err(Error::AlreadyCompleted),
        }
    }

    /// Advances the call with what the business logic reported.
    ///
    /// A business failure is wrapped whole as an execution error; a value is
    /// encoded as the answer. A call that has completed reports
    /// `AlreadyCompleted` on every further poll.
    pub fn poll<E>(&mut self, outcome: core::result::Result<Async<O>, E>) -> (r:
        core::result::Result<Async<Vec<u8>>, Error<E>>)
        requires
            !((*old(self)) is Decode),
        ensures
            (*old(self)) is Done ==> r == Err::<Async<Vec<u8>>, Error<E>>(Error::AlreadyCompleted)
                && (*final(self)) is Done,
            (*old(self)) is Execute ==> match outcome {
                Ok(Async::NotReady) => {
                    &&& r == Ok::<Async<Vec<u8>>, Error<E>>(Async::NotReady)
                    &&& (*final(self)) is Execute
                },
                Err(e) => r == Err::<Async<Vec<u8>>, Error<E>>(Error::Execution { error: e })
                    && (*final(self)) is Done,
                Ok(Async::Ready(o)) => {
                    &&& (*final(self)) is Done
                    &&& O::wire(o@).len() <= isize::MAX ==> r is Ok
                    &&& r is Ok ==> r->Ok_0 is Ready && r->Ok_0->Ready_0@ == O::wire(o@)
                    &&& r is Err ==> r->Err_0 is Encode
                },
            },
    {
        let mut state = ServerFuture::Done(PhantomData);
        core::mem::swap(self, &mut state);
        match state {
            ServerFuture::Execute(p) => match outcome {
                Ok(Async::Ready(output)) => match encode::<O, E>(output) {
                    Ok(bytes) => Ok(Async::Ready(bytes)),
                    Err(error) => Err(error),
                },
                Ok(Async::NotReady) => {
                    *self = ServerFuture::Execute(p);
                    Ok(Async::NotReady)
                },
                Err(error) => Err(Error::execution(error)),
            },
            _ => Err(Error::AlreadyCompleted),
        }
    }
}

/// Runs one call in process: a client layer whose handler is a server layer
/// that runs `business` on the decoded input.
///
/// The caller gets exactly what the business logic produced; a business
/// failure `e` reaches the caller as `Execution(Execution(e))`, one wrapper for
/// each layer it crossed.
pub fn call_in_process<M, I: WireMessage, O: WireMessage, E, F: Fn(I) -> core::result::Result<
    O,
    E,
>>(method: M, input: I, business: F) -> (r: core::result::Result<O, Error<Error<E>>>)
    requires
        forall|i: I| #[trigger] business.requires((i,)),
    ensures
        I::wire(input@).len() <= isize::MAX ==> exists|i: I, res: core::result::Result<O, E>|
            i@ == input@ && #[trigger] business.ensures((i,), res) && match res {
                Ok(o) => O::wire(o@).len() <= isize::MAX ==> r is Ok && r->Ok_0@ == o@,
                Err(e) => r == Err::<O, Error<Error<E>>>(
                    Error::Execution { error: Error::Execution { error: e } },
                ),
            },
        r is Err ==> r->Err_0 is Encode || r->Err_0 is Execution,
{
    let ghost input_model = input@;
    let mut client = ClientFuture::<(), M, I, O>::new((), input, method);
    let (_, _, bytes) = match client.start::<Error<E>>() {
        Ok(call) => call,
        Err(error) => {
            return Err(error);
        },
    };
    proof {
        I::lemma_round_trip(input_model);
    }
    let mut server = ServerFuture::<I, O>::new(bytes);
    let answer = match server.start::<E>() {
        Ok(decoded) => {
            let ghost decoded_model = decoded@;
            let res = business(decoded);
            let ghost outcome = res;
            let answer = match res {
                Ok(output) => server.poll::<E>(Ok(Async::Ready(output))),
                Err(error) => server.poll::<E>(Err(error)),
            };
            proof {
                match outcome {
                    Ok(o) => {
                        O::lemma_round_trip(o@);
                    },
                    Err(e) => {},
                }
            }
            answer
        },
        Err(error) => Err(error),
    };
    let reply = match answer {
        Ok(Async::Ready(out)) => client.poll::<Error<E>>(Ok(Async::Ready(out))),
        Ok(Async::NotReady) => client.poll::<Error<E>>(Ok(Async::NotReady)),
        Err(error) => client.poll::<Error<E>>(Err(error)),
    };
    match reply {
        Ok(Async::Ready(output)) => Ok(output),
        Ok(Async::NotReady) => Err(Error::Canceled),
        Err(error) => Err(error),
    }
}

} // verus!
