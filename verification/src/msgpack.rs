//! The few MessagePack values that calls carry on their own.

use vstd::prelude::*;

verus! {

/// An unsigned number of `n` bytes from place `at`, the highest byte first.
pub open spec fn big_endian(bytes: Seq<u8>, at: int, n: nat) -> int
    decreases n,
{
    if n == 0 {
        0
    } else {
        big_endian(bytes, at, (n - 1) as nat) * 256 + bytes[at + n - 1]
    }
}

/// The number behind a marker of `n` bytes, if all of them are there.
pub open spec fn unsigned_behind_marker(bytes: Seq<u8>, n: nat) -> Option<int> {
    if bytes.len() > n {
        Some(big_endian(bytes, 1, n))
    } else {
        None
    }
}

/// The same, read with a sign; `half` is half of the range.
pub open spec fn signed_behind_marker(bytes: Seq<u8>, n: nat, half: int) -> Option<int> {
    match unsigned_behind_marker(bytes, n) {
        Some(v) => Some(
            if v < half {
                v
            } else {
                v - 2 * half
            },
        ),
        None => None,
    }
}

/// The integer that a sequence of bytes starts with, if it starts with one.
pub open spec fn leading_integer(bytes: Seq<u8>) -> Option<int> {
    if bytes.len() == 0 {
        None
    } else if bytes[0] <= 0x7f {
        Some(bytes[0] as int)
    } else if bytes[0] >= 0xe0 {
        Some(bytes[0] - 256)
    } else if bytes[0] == 0xcc {
        unsigned_behind_marker(bytes, 1)
    } else if bytes[0] == 0xcd {
        unsigned_behind_marker(bytes, 2)
    } else if bytes[0] == 0xce {
        unsigned_behind_marker(bytes, 4)
    } else if bytes[0] == 0xcf {
        unsigned_behind_marker(bytes, 8)
    } else if bytes[0] == 0xd0 {
        signed_behind_marker(bytes, 1, 0x80)
    } else if bytes[0] == 0xd1 {
        signed_behind_marker(bytes, 2, 0x8000)
    } else if bytes[0] == 0xd2 {
        signed_behind_marker(bytes, 4, 0x8000_0000)
    } else if bytes[0] == 0xd3 {
        signed_behind_marker(bytes, 8, 0x8000_0000_0000_0000)
    } else {
        None
    }
}

/// The 32-bit integer that a sequence of bytes starts with.
pub open spec fn leading_i32(bytes: Seq<u8>) -> Option<i32> {
    match leading_integer(bytes) {
        Some(v) => if i32::MIN <= v <= i32::MAX {
            Some(v as i32)
        } else {
            None
        },
        None => None,
    }
}

/// The truth value that a sequence of bytes starts with.
pub open spec fn leading_bool(bytes: Seq<u8>) -> Option<bool> {
    if bytes.len() > 0 && bytes[0] == 0xc2 {
        Some(false)
    } else if bytes.len() > 0 && bytes[0] == 0xc3 {
        Some(true)
    } else {
        None
    }
}

/// Whether a sequence of bytes starts with the empty value.
pub open spec fn leading_nil(bytes: Seq<u8>) -> bool {
    bytes.len() > 0 && bytes[0] == 0xc0
}

/// `rmp_serde::from_slice` at type `i32`: an integer of any width in front,
/// where it fits. What follows it is not looked at.
#[verifier::external_body]
pub(crate) fn decode_i32(bytes: &[u8]) -> (r: Option<i32>)
    ensures
        r == leading_i32(bytes@),
{
    rmp_serde::from_slice::<i32>(bytes).ok()
}

/// `rmp_serde::from_slice` at type `bool`: a truth value in front. What
/// follows it is not looked at.
#[verifier::external_body]
pub(crate) fn decode_bool(bytes: &[u8]) -> (r: Option<bool>)
    ensures
        r == leading_bool(bytes@),
{
    rmp_serde::from_slice::<bool>(bytes).ok()
}

/// `rmp_serde::from_slice` at the unit type: the empty value in front. What
/// follows it is not looked at.
#[verifier::external_body]
pub(crate) fn decode_nil(bytes: &[u8]) -> (r: Option<()>)
    ensures
        r is Some == leading_nil(bytes@),
{
    rmp_serde::from_slice::<()>(bytes).ok()
}

/// What stands before the bytes of a text: a marker with its length.
pub open spec fn text_marker(n: int) -> Seq<u8> {
    if n < 32 {
        seq![(0xa0 + n) as u8]
    } else if n < 0x100 {
        seq![0xd9u8, n as u8]
    } else if n < 0x1_0000 {
        seq![0xdau8, (n / 0x100) as u8, (n % 0x100) as u8]
    } else {
        seq![
            0xdbu8,
            (n / 0x100_0000) as u8,
            (n / 0x1_0000 % 0x100) as u8,
            (n / 0x100 % 0x100) as u8,
            (n % 0x100) as u8,
        ]
    }
}

/// A text: its marker, then its bytes. The marker counts them modulo 2^32.
pub open spec fn encoded_text(bytes: Seq<u8>) -> Seq<u8> {
    text_marker(bytes.len() as int % 0x1_0000_0000) + bytes
}

/// `rmp_serde::to_vec_named` on a text. It fails where there is no memory for
/// the result; whether there is, is not stated.
#[verifier::external_body]
pub(crate) fn encode_text(text: &str) -> (r: Option<Vec<u8>>)
    ensures
        r matches Some(bytes) ==> bytes@ == encoded_text(vstd::utf8::encode_utf8(text@)),
{
    rmp_serde::to_vec_named(text).ok()
}

/// The length of a text can be read back from what stands before it, and the
/// bytes of the text follow.
pub proof fn texts_follow_their_length(bytes: Seq<u8>)
    requires
        bytes.len() <= u32::MAX,
    ensures
        ({
            let n = bytes.len();
            let text = encoded_text(bytes);
            let from = text.len() - n;
            &&& n < 32 ==> from == 1 && text[0] == 0xa0 + n
            &&& 32 <= n < 0x100 ==> from == 2 && text[0] == 0xd9 && text[1] == n
            &&& 0x100 <= n < 0x1_0000 ==> from == 3 && text[0] == 0xda && text[1] * 0x100 + text[2]
                == n
            &&& 0x1_0000 <= n ==> from == 5 && text[0] == 0xdb && text[1] * 0x100_0000 + text[2]
                * 0x1_0000 + text[3] * 0x100 + text[4] == n
            &&& text.subrange(from, text.len() as int) == bytes
        }),
{
    let n = bytes.len() as int;
    let text = encoded_text(bytes);
    assert(n % 0x1_0000_0000 == n);
    assert(text.subrange(text.len() - n, text.len() as int) =~= bytes);
}

/// A number of one or two bytes is read as its bytes give it, the higher first,
/// with a sign behind some markers and without behind others.
pub proof fn numbers_are_read_behind_their_marker(a: u8, b: u8, rest: Seq<u8>)
    ensures
        leading_integer(seq![0xccu8, a] + rest) == Some(a as int),
        leading_integer(seq![0xcdu8, a, b] + rest) == Some(a * 256 + b),
        leading_integer(seq![0xd0u8, a] + rest) == Some(
            if a < 128 {
                a as int
            } else {
                a - 256
            },
        ),
        leading_integer(seq![0xd1u8, a, b] + rest) == Some(
            if a < 128 {
                a * 256 + b
            } else {
                a * 256 + b - 65536
            },
        ),
        leading_integer(seq![0xccu8]) is None,
        leading_integer(seq![0xcdu8, a]) is None,
        leading_integer(seq![0xd0u8]) is None,
        leading_integer(seq![0xd1u8, a]) is None,
{
    reveal_with_fuel(big_endian, 3);
    let one = seq![0xccu8, a] + rest;
    let two = seq![0xcdu8, a, b] + rest;
    let signed_one = seq![0xd0u8, a] + rest;
    let signed_two = seq![0xd1u8, a, b] + rest;
    assert(one[0] == 0xccu8 && one[1] == a);
    assert(two[0] == 0xcdu8 && two[1] == a && two[2] == b);
    assert(signed_one[0] == 0xd0u8 && signed_one[1] == a);
    assert(signed_two[0] == 0xd1u8 && signed_two[1] == a && signed_two[2] == b);
}

proof fn lemma_four_bytes(bytes: Seq<u8>, n: int)
    requires
        0 <= n <= u32::MAX,
        bytes.len() > 4,
        bytes[1] == n / 0x100_0000,
        bytes[2] == n / 0x1_0000 % 0x100,
        bytes[3] == n / 0x100 % 0x100,
        bytes[4] == n % 0x100,
    ensures
        big_endian(bytes, 1, 4) == n,
{
    reveal_with_fuel(big_endian, 5);
}

proof fn lemma_eight_bytes(bytes: Seq<u8>, high: int, low: int)
    requires
        0 <= high <= u32::MAX,
        0 <= low <= u32::MAX,
        bytes.len() > 8,
        bytes[1] == high / 0x100_0000,
        bytes[2] == high / 0x1_0000 % 0x100,
        bytes[3] == high / 0x100 % 0x100,
        bytes[4] == high % 0x100,
        bytes[5] == low / 0x100_0000,
        bytes[6] == low / 0x1_0000 % 0x100,
        bytes[7] == low / 0x100 % 0x100,
        bytes[8] == low % 0x100,
    ensures
        big_endian(bytes, 1, 8) == high * 0x1_0000_0000 + low,
{
    lemma_four_bytes(bytes, high);
    let four = big_endian(bytes, 1, 4);
    assert(big_endian(bytes, 1, 5) == four * 256 + bytes[5]);
    assert(big_endian(bytes, 1, 6) == big_endian(bytes, 1, 5) * 256 + bytes[6]);
    assert(big_endian(bytes, 1, 7) == big_endian(bytes, 1, 6) * 256 + bytes[7]);
    assert(big_endian(bytes, 1, 8) == big_endian(bytes, 1, 7) * 256 + bytes[8]);
}

/// Numbers of four and eight bytes are read the same way.
pub proof fn wide_numbers_are_read_behind_their_marker(bytes: Seq<u8>, high: int, low: int)
    requires
        0 <= high <= u32::MAX,
        0 <= low <= u32::MAX,
        bytes.len() > 8,
        bytes[1] == high / 0x100_0000,
        bytes[2] == high / 0x1_0000 % 0x100,
        bytes[3] == high / 0x100 % 0x100,
        bytes[4] == high % 0x100,
        bytes[5] == low / 0x100_0000,
        bytes[6] == low / 0x1_0000 % 0x100,
        bytes[7] == low / 0x100 % 0x100,
        bytes[8] == low % 0x100,
    ensures
        bytes[0] == 0xce ==> leading_integer(bytes) == Some(high),
        bytes[0] == 0xd2 ==> leading_integer(bytes) == Some(
            if high < 0x8000_0000 {
                high
            } else {
                high - 0x1_0000_0000
            },
        ),
        bytes[0] == 0xcf ==> leading_integer(bytes) == Some(high * 0x1_0000_0000 + low),
        bytes[0] == 0xd3 ==> leading_integer(bytes) == Some(
            if high < 0x8000_0000 {
                high * 0x1_0000_0000 + low
            } else {
                high * 0x1_0000_0000 + low - 0x1_0000_0000_0000_0000
            },
        ),
{
    lemma_four_bytes(bytes, high);
    lemma_eight_bytes(bytes, high, low);
}

/// A number that is cut short is not read, and neither is any other value.
pub proof fn other_values_are_no_numbers(bytes: Seq<u8>)
    ensures
        leading_integer(bytes) is Some <==> {
            &&& bytes.len() > 0
            &&& {
                ||| bytes[0] <= 0x7f
                ||| bytes[0] >= 0xe0
                ||| (bytes[0] == 0xcc || bytes[0] == 0xd0) && bytes.len() > 1
                ||| (bytes[0] == 0xcd || bytes[0] == 0xd1) && bytes.len() > 2
                ||| (bytes[0] == 0xce || bytes[0] == 0xd2) && bytes.len() > 4
                ||| (bytes[0] == 0xcf || bytes[0] == 0xd3) && bytes.len() > 8
            }
        },
        leading_i32(bytes) is Some <==> leading_integer(bytes) is Some && i32::MIN
            <= leading_integer(bytes)->0 <= i32::MAX,
        leading_i32(bytes) is Some ==> leading_i32(bytes)->0 == leading_integer(bytes)->0,
{
}

} // verus!
