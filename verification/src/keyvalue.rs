//! What a key-value store is asked, and what its answers stand for.

use vstd::prelude::*;
use vstd::string::*;

use crate::response::{decode_bool_response, decode_i32_response, DecodeError};

verus! {

use crate::response::{bool_answer, i32_answer};
use vstd::utf8::encode_utf8;

/// Why a key-value store is not asked, or its answer not taken.
#[derive(Clone, Copy, Debug, PartialEq, Eq, Structural)]
pub enum KeyValueError {
    /// There are no buckets.
    Buckets,
    /// The step is too large.
    Delta,
    /// The new value is negative.
    Negative,
    /// There is no such key.
    KeyNotFound,
    /// The operation is not offered.
    NotSupported,
    /// The answer cannot be read.
    Decode(DecodeError),
}

impl KeyValueError {
    pub open spec fn text(self) -> Seq<char> {
        match self {
            KeyValueError::Buckets => "buckets not currently supported"@,
            KeyValueError::Delta => "delta does not fit in `i32`"@,
            KeyValueError::Negative => "result does not fit in `u64`"@,
            KeyValueError::KeyNotFound => "key not found"@,
            KeyValueError::NotSupported => "not supported"@,
            KeyValueError::Decode(e) => e.text(),
        }
    }

    pub fn message(&self) -> (r: String)
        ensures
            r@ == self.text(),
    {
        match self {
            KeyValueError::Buckets => "buckets not currently supported".to_owned(),
            KeyValueError::Delta => "delta does not fit in `i32`".to_owned(),
            KeyValueError::Negative => "result does not fit in `u64`".to_owned(),
            KeyValueError::KeyNotFound => "key not found".to_owned(),
            KeyValueError::NotSupported => "not supported".to_owned(),
            KeyValueError::Decode(e) => e.message(),
        }
    }
}

/// Asks to add to a number.
#[derive(Debug)]
pub struct IncrementRequest {
    pub key: String,
    pub value: i32,
}

/// Asks to set a value. One that never expires has `expires` 0.
#[derive(Debug)]
pub struct SetRequest {
    pub key: String,
    pub value: String,
    pub expires: u32,
}

#[derive(Debug)]
pub struct GetResponse {
    pub value: String,
    pub exists: bool,
}

/// Only the bucket without a name is there.
pub fn check_bucket(bucket: &String) -> (r: Result<(), KeyValueError>)
    ensures
        r == if bucket@.len() == 0 {
            Ok(())
        } else {
            Err(KeyValueError::Buckets)
        },
{
    if bucket.as_str().is_empty() {
        Ok(())
    } else {
        Err(KeyValueError::Buckets)
    }
}

/// Asks to add to a number.
pub fn increment_request(bucket: &String, key: String, delta: u64) -> (r: Result<
    IncrementRequest,
    KeyValueError,
>)
    ensures
        if bucket@.len() > 0 {
            r == Err::<IncrementRequest, KeyValueError>(KeyValueError::Buckets)
        } else if delta > i32::MAX {
            r == Err::<IncrementRequest, KeyValueError>(KeyValueError::Delta)
        } else {
            r matches Ok(request) && request.key == key && request.value == delta
        },
{
    match check_bucket(bucket) {
        Ok(()) => {},
        Err(e) => {
            return Err(e);
        },
    }
    match i32::try_from(delta) {
        Ok(value) => Ok(IncrementRequest { key, value }),
        Err(_) => Err(KeyValueError::Delta),
    }
}

/// The number that adding came to.
pub fn increment_result(buf: &Vec<u8>) -> (r: Result<u64, KeyValueError>)
    ensures
        match i32_answer(buf@) {
            Ok(n) => if n < 0 {
                r == Err::<u64, KeyValueError>(KeyValueError::Negative)
            } else {
                r matches Ok(v) && v == n
            },
            Err(e) => r == Err::<u64, KeyValueError>(KeyValueError::Decode(e)),
        },
{
    match decode_i32_response(buf) {
        Ok(n) => match u64::try_from(n) {
            Ok(v) => Ok(v),
            Err(_) => Err(KeyValueError::Negative),
        },
        Err(e) => Err(KeyValueError::Decode(e)),
    }
}

/// Values cannot be swapped.
pub fn compare_and_swap() -> (r: Result<bool, KeyValueError>)
    ensures
        r == Err::<bool, KeyValueError>(KeyValueError::NotSupported),
{
    Err(KeyValueError::NotSupported)
}

/// The value of a key and how many bytes it has.
pub fn get_result(response: GetResponse) -> (r: Result<(String, u64), KeyValueError>)
    ensures
        if response.exists {
            r matches Ok(found) && found.0 == response.value && found.1 == encode_utf8(
                response.value@,
            ).len()
        } else {
            r == Err::<(String, u64), KeyValueError>(KeyValueError::KeyNotFound)
        },
{
    if !response.exists {
        return Err(KeyValueError::KeyNotFound);
    }
    let size: u64 = response.value.as_str().as_bytes().len() as u64;
    Ok((response.value, size))
}

/// Asks to set the value of a key for good.
pub fn set_request(bucket: &String, key: String, value: String) -> (r: Result<
    SetRequest,
    KeyValueError,
>)
    ensures
        if bucket@.len() > 0 {
            r == Err::<SetRequest, KeyValueError>(KeyValueError::Buckets)
        } else {
            r matches Ok(request) && request.key == key && request.value == value
                && request.expires == 0
        },
{
    match check_bucket(bucket) {
        Ok(()) => Ok(SetRequest { key, value, expires: 0 }),
        Err(e) => Err(e),
    }
}

/// Whether a key was deleted. One that was not there was not.
pub fn delete_result(buf: &Vec<u8>) -> (r: Result<(), KeyValueError>)
    ensures
        r == match bool_answer(buf@) {
            Ok(true) => Ok(()),
            Ok(false) => Err(KeyValueError::KeyNotFound),
            Err(e) => Err(KeyValueError::Decode(e)),
        },
{
    match decode_bool_response(buf) {
        Ok(deleted) => {
            if deleted {
                Ok(())
            } else {
                Err(KeyValueError::KeyNotFound)
            }
        },
        Err(e) => Err(KeyValueError::Decode(e)),
    }
}

/// Whether a key is there.
pub fn exists_result(buf: &Vec<u8>) -> (r: Result<bool, KeyValueError>)
    ensures
        r == match bool_answer(buf@) {
            Ok(there) => Ok(there),
            Err(e) => Err(KeyValueError::Decode(e)),
        },
{
    match decode_bool_response(buf) {
        Ok(there) => Ok(there),
        Err(e) => Err(KeyValueError::Decode(e)),
    }
}

/// What the caller of a key-value store is told of each failure.
pub proof fn failed_keys_are_told(e: DecodeError)
    ensures
        KeyValueError::Buckets.text() == "buckets not currently supported"@,
        KeyValueError::Delta.text() == "delta does not fit in `i32`"@,
        KeyValueError::Negative.text() == "result does not fit in `u64`"@,
        KeyValueError::KeyNotFound.text() == "key not found"@,
        KeyValueError::NotSupported.text() == "not supported"@,
        KeyValueError::Decode(e).text() == e.text(),
{
}

} // verus!
