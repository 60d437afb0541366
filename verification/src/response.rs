//! What a provider answers: a frame around a MessagePack value.

use vstd::prelude::*;

use crate::msgpack::{decode_bool, decode_i32, decode_nil};

verus! {

use crate::msgpack::{big_endian, leading_bool, leading_i32, leading_nil};

/// Why an answer could not be read.
#[derive(Clone, Copy, Debug, PartialEq, Eq, Structural)]
pub enum DecodeError {
    /// The answer is marked as CBOR.
    Cbor,
    /// The answer does not hold the value that was expected.
    Malformed,
}

impl DecodeError {
    pub open spec fn text(self) -> Seq<char> {
        match self {
            DecodeError::Cbor => "CBOR responses are not supported"@,
            DecodeError::Malformed => "failed to decode response"@,
        }
    }

    pub fn message(&self) -> (r: String)
        ensures
            r@ == self.text(),
    {
        match self {
            DecodeError::Cbor => "CBOR responses are not supported".to_owned(),
            DecodeError::Malformed => "failed to decode response".to_owned(),
        }
    }
}

/// The MessagePack part of an answer. The byte `0x7f` in front marks CBOR, of
/// which nothing is read; `0xc1` in front marks MessagePack and is passed over;
/// an answer without a mark is MessagePack as it stands.
pub open spec fn body_of(buf: Seq<u8>) -> Result<Seq<u8>, DecodeError> {
    if buf.len() > 0 && buf[0] == 0x7f {
        Err(DecodeError::Cbor)
    } else if buf.len() > 0 && buf[0] == 0xc1 {
        Ok(buf.subrange(1, buf.len() as int))
    } else {
        Ok(buf)
    }
}

/// Takes the frame off an answer.
pub fn response_body(buf: &Vec<u8>) -> (r: Result<Vec<u8>, DecodeError>)
    ensures
        match r {
            Ok(body) => body_of(buf@) == Ok::<Seq<u8>, DecodeError>(body@),
            Err(e) => body_of(buf@) == Err::<Seq<u8>, DecodeError>(e),
        },
{
    let skip: usize = if buf.len() > 0 && buf[0] == 0x7f {
        return Err(DecodeError::Cbor);
    } else if buf.len() > 0 && buf[0] == 0xc1 {
        1
    } else {
        0
    };
    let mut body: Vec<u8> = Vec::new();
    let mut i: usize = skip;
    while i < buf.len()
        invariant
            skip <= i <= buf@.len(),
            body@ =~= buf@.subrange(skip as int, i as int),
        decreases buf@.len() - i,
    {
        body.push(buf[i]);
        i = i + 1;
    }
    assert(skip == 0 ==> body@ =~= buf@);
    Ok(body)
}

/// What an answer with nothing in it stands for: nothing at all, or the empty
/// value in a frame.
pub open spec fn empty_answer(buf: Seq<u8>) -> Result<(), DecodeError> {
    if buf.len() == 0 {
        Ok(())
    } else {
        match body_of(buf) {
            Ok(body) => if leading_nil(body) {
                Ok(())
            } else {
                Err(DecodeError::Malformed)
            },
            Err(e) => Err(e),
        }
    }
}

/// Reads an answer that holds nothing.
pub fn decode_empty_provider_response(buf: &Vec<u8>) -> (r: Result<(), DecodeError>)
    ensures
        r == empty_answer(buf@),
{
    if buf.len() == 0 {
        return Ok(());
    }
    match response_body(buf) {
        Ok(body) => match decode_nil(body.as_slice()) {
            Some(_) => Ok(()),
            None => Err(DecodeError::Malformed),
        },
        Err(e) => Err(e),
    }
}

pub open spec fn bool_answer(buf: Seq<u8>) -> Result<bool, DecodeError> {
    match body_of(buf) {
        Ok(body) => match leading_bool(body) {
            Some(b) => Ok(b),
            None => Err(DecodeError::Malformed),
        },
        Err(e) => Err(e),
    }
}

/// Reads an answer that holds a truth value.
pub fn decode_bool_response(buf: &Vec<u8>) -> (r: Result<bool, DecodeError>)
    ensures
        r == bool_answer(buf@),
{
    match response_body(buf) {
        Ok(body) => match decode_bool(body.as_slice()) {
            Some(b) => Ok(b),
            None => Err(DecodeError::Malformed),
        },
        Err(e) => Err(e),
    }
}

pub open spec fn i32_answer(buf: Seq<u8>) -> Result<i32, DecodeError> {
    match body_of(buf) {
        Ok(body) => match leading_i32(body) {
            Some(n) => Ok(n),
            None => Err(DecodeError::Malformed),
        },
        Err(e) => Err(e),
    }
}

/// Reads an answer that holds a 32-bit integer.
pub fn decode_i32_response(buf: &Vec<u8>) -> (r: Result<i32, DecodeError>)
    ensures
        r == i32_answer(buf@),
{
    match response_body(buf) {
        Ok(body) => match decode_i32(body.as_slice()) {
            Some(n) => Ok(n),
            None => Err(DecodeError::Malformed),
        },
        Err(e) => Err(e),
    }
}

/// The mark of MessagePack changes nothing: a marked answer is read as the
/// same answer without the mark, as long as that one is not taken for a marked
/// one itself.
pub proof fn mark_is_transparent(body: Seq<u8>)
    requires
        body.len() > 0,
        body[0] != 0x7f,
        body[0] != 0xc1,
    ensures
        empty_answer(seq![0xc1u8] + body) == empty_answer(body),
        bool_answer(seq![0xc1u8] + body) == bool_answer(body),
        i32_answer(seq![0xc1u8] + body) == i32_answer(body),
{
    let marked = seq![0xc1u8] + body;
    assert(marked.subrange(1, marked.len() as int) =~= body);
}

/// An answer that is marked as CBOR is not read, whatever was expected.
pub proof fn cbor_is_not_read(buf: Seq<u8>)
    requires
        buf.len() > 0,
        buf[0] == 0x7f,
    ensures
        empty_answer(buf) == Err::<(), DecodeError>(DecodeError::Cbor),
        bool_answer(buf) == Err::<bool, DecodeError>(DecodeError::Cbor),
        i32_answer(buf) == Err::<i32, DecodeError>(DecodeError::Cbor),
{
}

/// How an answer without a mark is read: nothing, or the empty value, stands for
/// nothing; `0xc3` for yes and `0xc2` for no.
pub proof fn answers_are_read_from_their_first_byte(buf: Seq<u8>)
    requires
        buf.len() > 0 ==> buf[0] != 0x7f && buf[0] != 0xc1,
    ensures
        empty_answer(buf) is Ok <==> buf.len() == 0 || buf[0] == 0xc0,
        empty_answer(buf) is Err ==> empty_answer(buf)->Err_0 == DecodeError::Malformed,
        bool_answer(buf) == Ok::<bool, DecodeError>(true) <==> buf.len() > 0 && buf[0] == 0xc3,
        bool_answer(buf) == Ok::<bool, DecodeError>(false) <==> buf.len() > 0 && buf[0] == 0xc2,
        bool_answer(buf) is Err ==> bool_answer(buf)->Err_0 == DecodeError::Malformed,
        buf.len() == 0 ==> i32_answer(buf) == Err::<i32, DecodeError>(DecodeError::Malformed),
{
}

/// Every 32-bit integer can be answered, marked or not: four bytes behind
/// `0xd2`, the highest first, or one byte where it is from -32 to 127. What
/// follows is not looked at.
pub proof fn every_number_can_be_answered(n: i32, rest: Seq<u8>)
    ensures
        ({
            let u: int = if n < 0 {
                n + 0x1_0000_0000
            } else {
                n as int
            };
            let bytes = seq![
                0xd2u8,
                (u / 0x100_0000) as u8,
                (u / 0x1_0000 % 0x100) as u8,
                (u / 0x100 % 0x100) as u8,
                (u % 0x100) as u8,
            ] + rest;
            &&& i32_answer(bytes) == Ok::<i32, DecodeError>(n)
            &&& i32_answer(seq![0xc1u8] + bytes) == Ok::<i32, DecodeError>(n)
        }),
        0 <= n < 127 ==> i32_answer(seq![n as u8] + rest) == Ok::<i32, DecodeError>(n),
        0 <= n <= 127 ==> i32_answer(seq![0xc1u8, n as u8] + rest) == Ok::<i32, DecodeError>(n),
        -32 <= n < 0 ==> i32_answer(seq![(n + 256) as u8] + rest) == Ok::<i32, DecodeError>(n),
{
    let u: int = if n < 0 {
        n + 0x1_0000_0000
    } else {
        n as int
    };
    let bytes = seq![
        0xd2u8,
        (u / 0x100_0000) as u8,
        (u / 0x1_0000 % 0x100) as u8,
        (u / 0x100 % 0x100) as u8,
        (u % 0x100) as u8,
    ] + rest;
    assert(bytes[0] == 0xd2u8);
    assert(bytes[1] == (u / 0x100_0000) as u8);
    assert(bytes[2] == (u / 0x1_0000 % 0x100) as u8);
    assert(bytes[3] == (u / 0x100 % 0x100) as u8);
    assert(bytes[4] == (u % 0x100) as u8);
    reveal_with_fuel(big_endian, 5);
    assert(big_endian(bytes, 1, 4) == u);
    let marked = seq![0xc1u8] + bytes;
    assert(marked.subrange(1, marked.len() as int) =~= bytes);
    if 0 <= n <= 127 {
        let short = seq![0xc1u8, n as u8] + rest;
        assert(short.subrange(1, short.len() as int) =~= seq![n as u8] + rest);
    }
}

/// What is reported of an answer that cannot be read.
pub proof fn unread_answers_are_told()
    ensures
        DecodeError::Cbor.text() == "CBOR responses are not supported"@,
        DecodeError::Malformed.text() == "failed to decode response"@,
{
}

/// A mark with nothing behind it holds no value, not even the empty one.
pub proof fn lone_marks_hold_nothing(buf: Seq<u8>)
    requires
        buf.len() == 1,
        buf[0] == 0xc1,
    ensures
        empty_answer(buf) == Err::<(), DecodeError>(DecodeError::Malformed),
        bool_answer(buf) == Err::<bool, DecodeError>(DecodeError::Malformed),
        i32_answer(buf) == Err::<i32, DecodeError>(DecodeError::Malformed),
{
}

} // verus!
