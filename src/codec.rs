//! Encoding and decoding of single protobuf messages.
//!
//! A payload is one message with no framing: its length is the length of the buffer.
use vstd::prelude::*;
use vstd::utf8::{decode_utf8, encode_utf8, encode_utf8_decode_utf8, encode_utf8_valid_utf8, valid_utf8};

use crate::error::Error;

verus! {

/// The protobuf base-128 varint of `n`: seven bits per byte, least significant
/// group first, the high bit set on every byte but the last.
pub open spec fn varint(n: nat) -> Seq<u8>
    decreases n,
{
    if n < 128 {
        seq![n as u8]
    } else {
        seq![(n % 128 + 128) as u8] + varint(n / 128)
    }
}

/// Field number 1 of a message, length-delimited, holding `payload`; a default
/// (empty) payload is not written at all.
pub open spec fn field_one_wire(payload: Seq<u8>) -> Seq<u8> {
    if payload.len() == 0 {
        Seq::empty()
    } else {
        seq![0x0Au8] + varint(payload.len()) + payload
    }
}

/// The payload whose field-one encoding is `b`, if `b` is such an encoding.
pub open spec fn field_one_payload(b: Seq<u8>) -> Option<Seq<u8>> {
    if exists|d: Seq<u8>| #[trigger] field_one_wire(d) == b {
        Some(choose|d: Seq<u8>| #[trigger] field_one_wire(d) == b)
    } else {
        None
    }
}

/// The string held by a field-one encoding `b` of UTF-8 bytes, if `b` is one.
pub open spec fn string_payload(b: Seq<u8>) -> Option<Seq<char>> {
    match field_one_payload(b) {
        Some(bytes) => if valid_utf8(bytes) {
            Some(decode_utf8(bytes))
        } else {
            None
        },
        None => None,
    }
}

/// A varint followed by anything determines both the number and what follows.
pub proof fn lemma_varint_prefix(a: nat, b: nat, x: Seq<u8>, y: Seq<u8>)
    requires
        varint(a) + x == varint(b) + y,
    ensures
        a == b,
        x == y,
    decreases a,
{
    let va = varint(a);
    let vb = varint(b);
    assert((va + x)[0] == (vb + y)[0]);
    if a < 128 && b < 128 {
        assert(x =~= (va + x).subrange(1, (va + x).len() as int));
        assert(y =~= (vb + y).subrange(1, (vb + y).len() as int));
    } else if a >= 128 && b >= 128 {
        let ra = varint(a / 128);
        let rb = varint(b / 128);
        assert(va + x =~= seq![va[0]] + (ra + x));
        assert(vb + y =~= seq![vb[0]] + (rb + y));
        assert((ra + x) =~= (va + x).subrange(1, (va + x).len() as int));
        assert((rb + y) =~= (vb + y).subrange(1, (vb + y).len() as int));
        lemma_varint_prefix(a / 128, b / 128, x, y);
    }
}

/// Field-one encodings of different payloads differ.
pub proof fn lemma_field_one_injective(d: Seq<u8>, e: Seq<u8>)
    requires
        field_one_wire(d) == field_one_wire(e),
    ensures
        d == e,
{
    if d.len() != 0 && e.len() != 0 {
        let wd = field_one_wire(d);
        let we = field_one_wire(e);
        assert(varint(d.len()) + d =~= wd.subrange(1, wd.len() as int));
        assert(varint(e.len()) + e =~= we.subrange(1, we.len() as int));
        lemma_varint_prefix(d.len(), e.len(), d, e);
    } else if d.len() != 0 {
        assert(field_one_wire(d).len() > 0);
    } else if e.len() != 0 {
        assert(field_one_wire(e).len() > 0);
    }
}

/// The payload of the field-one encoding of `d` is `d`.
pub proof fn lemma_field_one_payload(d: Seq<u8>)
    ensures
        field_one_payload(field_one_wire(d)) == Some(d),
{
    let b = field_one_wire(d);
    assert(exists|x: Seq<u8>| #[trigger] field_one_wire(x) == b);
    let c = choose|x: Seq<u8>| #[trigger] field_one_wire(x) == b;
    lemma_field_one_injective(c, d);
}

/// A message type with a binary protobuf encoding.
///
/// `wire` is the canonical encoding of a message's model and `parse` reads a
/// model back from its canonical encoding.
pub trait WireMessage: Sized + View {
    /// The canonical encoding of the message whose model is `m`.
    spec fn wire(m: Self::V) -> Seq<u8>;

    /// The model whose canonical encoding is `b`, if there is one.
    spec fn parse(b: Seq<u8>) -> Option<Self::V>;

    /// Parsing the canonical encoding of a message gives back that message.
    proof fn lemma_round_trip(m: Self::V)
        ensures
            Self::parse(Self::wire(m)) == Some(m),
    ;

    /// Encodes this message.
    fn encode_message(&self) -> (r: core::result::Result<Vec<u8>, prost::EncodeError>)
        ensures
            r matches Ok(b) ==> b@ == Self::wire(self@),
            Self::wire(self@).len() <= isize::MAX ==> r is Ok,
    ;

    /// Decodes a message from a whole buffer.
    fn decode_message(buf: &[u8]) -> (r: core::result::Result<Self, prost::DecodeError>)
        ensures
            Self::parse(buf@) is Some ==> r is Ok && r->Ok_0@ == Self::parse(buf@)->Some_0,
    ;
}

/// Relies on prost's `Message::encoded_len` and `Message::encode` for `Vec<u8>`
/// (google.protobuf.BytesValue): a non-empty value is written as field 1 with
/// its length; the only failure is a buffer with less room than needed, and a
/// `Vec` buffer has room for `isize::MAX` bytes.
#[verifier::external_body]
fn prost_encode_bytes(m: &Vec<u8>) -> (r: core::result::Result<Vec<u8>, prost::EncodeError>)
    ensures
        r matches Ok(b) ==> b@ == field_one_wire(m@),
        field_one_wire(m@).len() <= isize::MAX ==> r is Ok,
{
    let mut buf = Vec::with_capacity(prost::Message::encoded_len(m));
    prost::Message::encode(m, &mut buf).map(|_| buf)
}

/// Relies on prost's `Message::decode` for `Vec<u8>` (google.protobuf.BytesValue):
/// field 1 is the value, and an empty buffer is the empty value.
#[verifier::external_body]
fn prost_decode_bytes(buf: &[u8]) -> (r: core::result::Result<Vec<u8>, prost::DecodeError>)
    ensures
        field_one_payload(buf@) is Some ==> r is Ok && r->Ok_0@ == field_one_payload(buf@)->Some_0,
{
    <Vec<u8> as prost::Message>::decode(buf)
}

/// Relies on prost's `Message::encoded_len` and `Message::encode` for `String`
/// (google.protobuf.StringValue): a non-empty value is written as field 1 with
/// the length of its UTF-8 bytes; the only failure is a buffer with less room
/// than needed, and a `Vec` buffer has room for `isize::MAX` bytes.
#[verifier::external_body]
fn prost_encode_string(m: &String) -> (r: core::result::Result<Vec<u8>, prost::EncodeError>)
    ensures
        r matches Ok(b) ==> b@ == field_one_wire(encode_utf8(m@)),
        field_one_wire(encode_utf8(m@)).len() <= isize::MAX ==> r is Ok,
{
    let mut buf = Vec::with_capacity(prost::Message::encoded_len(m));
    prost::Message::encode(m, &mut buf).map(|_| buf)
}

/// Relies on prost's `Message::decode` for `String` (google.protobuf.StringValue):
/// field 1 holds the UTF-8 bytes of the value, and an empty buffer is the empty
/// string.
#[verifier::external_body]
fn prost_decode_string(buf: &[u8]) -> (r: core::result::Result<String, prost::DecodeError>)
    ensures
        string_payload(buf@) is Some ==> r is Ok && r->Ok_0@ == string_payload(buf@)->Some_0,
{
    <String as prost::Message>::decode(buf)
}

impl WireMessage for Vec<u8> {
    open spec fn wire(m: Seq<u8>) -> Seq<u8> {
        field_one_wire(m)
    }

    open spec fn parse(b: Seq<u8>) -> Option<Seq<u8>> {
        field_one_payload(b)
    }

    proof fn lemma_round_trip(m: Seq<u8>) {
        lemma_field_one_payload(m);
    }

    fn encode_message(&self) -> (r: core::result::Result<Vec<u8>, prost::EncodeError>) {
        prost_encode_bytes(self)
    }

    fn decode_message(buf: &[u8]) -> (r: core::result::Result<Vec<u8>, prost::DecodeError>) {
        prost_decode_bytes(buf)
    }
}

impl WireMessage for String {
    open spec fn wire(m: Seq<char>) -> Seq<u8> {
        field_one_wire(encode_utf8(m))
    }

    open spec fn parse(b: Seq<u8>) -> Option<Seq<char>> {
        string_payload(b)
    }

    proof fn lemma_round_trip(m: Seq<char>) {
        lemma_field_one_payload(encode_utf8(m));
        encode_utf8_valid_utf8(m);
        encode_utf8_decode_utf8(m);
    }

    fn encode_message(&self) -> (r: core::result::Result<Vec<u8>, prost::EncodeError>) {
        prost_encode_string(self)
    }

    fn decode_message(buf: &[u8]) -> (r: core::result::Result<String, prost::DecodeError>) {
        prost_decode_string(buf)
    }
}

/// Decodes a message of type `M` from a whole buffer.
///
/// The encoding of a message decodes to that message; any failure is a local
/// decode error.
pub fn decode<M: WireMessage, E>(buf: &[u8]) -> (r: core::result::Result<M, Error<E>>)
    ensures
        M::parse(buf@) is Some ==> r is Ok && r->Ok_0@ == M::parse(buf@)->Some_0,
        r is Err ==> r->Err_0 is Decode,
{
    match M::decode_message(buf) {
        Ok(message) => Ok(message),
        Err(error) => Err(Error::Decode { error }),
    }
}

/// Encodes a message into a buffer of exactly the needed size.
///
/// Encoding succeeds whenever the encoding fits in memory; any failure is a
/// local encode error.
pub fn encode<M: WireMessage, E>(message: M) -> (r: core::result::Result<Vec<u8>, Error<E>>)
    ensures
        r matches Ok(b) ==> b@ == M::wire(message@),
        M::wire(message@).len() <= isize::MAX ==> r is Ok,
        r is Err ==> r->Err_0 is Encode,
{
    match message.encode_message() {
        Ok(bytes) => Ok(bytes),
        Err(error) => Err(Error::Encode { error }),
    }
}

} // verus!
