//! Digests, text encodings of bytes, and identifiers.

use vstd::arithmetic::power::pow;
use vstd::prelude::*;
use vstd::utf8::encode_utf8;

verus! {

/// The digit of a number below sixteen.
pub open spec fn hex_digit(n: int, upper: bool) -> char {
    if n < 10 {
        ('0' as int + n) as char
    } else if upper {
        ('A' as int + n - 10) as char
    } else {
        ('a' as int + n - 10) as char
    }
}

/// Two capital hexadecimal digits for each byte.
pub open spec fn hex_upper(bytes: Seq<u8>) -> Seq<char> {
    Seq::new(
        2 * bytes.len(),
        |i: int|
            {
                let byte = bytes[i / 2] as int;
                hex_digit(
                    if i % 2 == 0 {
                        byte / 16
                    } else {
                        byte % 16
                    },
                    true,
                )
            },
    )
}

/// `hex::encode_upper`: two capital hexadecimal digits for each byte, the
/// higher half first.
#[verifier::external_body]
pub(crate) fn encode_hex_upper(bytes: &[u8]) -> (r: String)
    ensures
        r@ == hex_upper(bytes@),
{
    hex::encode_upper(bytes)
}

/// The SHA-256 digest of a sequence of bytes, as `sha2` computes it.
pub uninterp spec fn sha256(bytes: Seq<u8>) -> Seq<u8>;

/// `sha2::Sha256` by way of `sha2::Digest::digest`: a digest of 32 bytes that
/// depends on the bytes alone.
#[verifier::external_body]
pub(crate) fn sha256_digest(bytes: &[u8]) -> (r: Vec<u8>)
    ensures
        r@ == sha256(bytes@),
        r@.len() == 32,
{
    <sha2::Sha256 as sha2::Digest>::digest(bytes).to_vec()
}

/// The hexadecimal digits `from` to `to` of the 32 digits of an identifier.
pub open spec fn id_digits(id: u128, from: int, to: int) -> Seq<char> {
    Seq::new(
        (to - from) as nat,
        |i: int| hex_digit((id as int / pow(16, (31 - from - i) as nat)) % 16, false),
    )
}

/// An identifier in the form of a UUID: groups of 8, 4, 4, 4 and 12 small
/// hexadecimal digits.
pub open spec fn uuid_form(id: u128) -> Seq<char> {
    id_digits(id, 0, 8) + seq!['-'] + id_digits(id, 8, 12) + seq!['-'] + id_digits(id, 12, 16)
        + seq!['-'] + id_digits(id, 16, 20) + seq!['-'] + id_digits(id, 20, 32)
}

/// `uuid::Uuid::from_u128` and the `Display` of its result: the 32 small
/// hexadecimal digits of the number, from the highest, in groups of 8, 4, 4, 4
/// and 12 with a hyphen between them.
#[verifier::external_body]
pub(crate) fn uuid_text(id: u128) -> (r: String)
    ensures
        r@ == uuid_form(id),
{
    uuid::Uuid::from_u128(id).to_string()
}

/// `ulid::Ulid::new`: an identifier made of the time and of chance. Nothing is
/// claimed of it.
#[verifier::external_body]
pub(crate) fn new_ulid() -> (r: u128) {
    ulid::Ulid::new().into()
}

/// The digits of base64 with the standard alphabet.
pub open spec fn base64_digit(n: int) -> char {
    if n < 26 {
        ('A' as int + n) as char
    } else if n < 52 {
        ('a' as int + n - 26) as char
    } else if n < 62 {
        ('0' as int + n - 52) as char
    } else if n == 62 {
        '+'
    } else {
        '/'
    }
}

/// The byte at a place, and zero behind the end.
pub open spec fn byte_or_zero(bytes: Seq<u8>, i: int) -> int {
    if i < bytes.len() {
        bytes[i] as int
    } else {
        0
    }
}

/// Base64: four digits for each three bytes, filled up with `=`.
pub open spec fn base64(bytes: Seq<u8>) -> Seq<char> {
    Seq::new(
        ((bytes.len() + 2) / 3) * 4,
        |i: int|
            {
                let at = i / 4 * 3;
                let a = byte_or_zero(bytes, at);
                let b = byte_or_zero(bytes, at + 1);
                let c = byte_or_zero(bytes, at + 2);
                if i % 4 == 0 {
                    base64_digit(a / 4)
                } else if i % 4 == 1 {
                    base64_digit(a % 4 * 16 + b / 16)
                } else if i % 4 == 2 {
                    if at + 1 < bytes.len() {
                        base64_digit(b % 16 * 4 + c / 64)
                    } else {
                        '='
                    }
                } else {
                    if at + 2 < bytes.len() {
                        base64_digit(c % 64)
                    } else {
                        '='
                    }
                }
            },
    )
}

/// `base64::engine::general_purpose::STANDARD.encode`: the standard alphabet,
/// with padding. It panics where the length of its result does not fit in
/// `usize`; `requires` leaves those inputs out.
#[verifier::external_body]
pub(crate) fn encode_base64(bytes: &[u8]) -> (r: String)
    requires
        (bytes@.len() + 2) / 3 * 4 <= usize::MAX,
    ensures
        r@ == base64(bytes@),
{
    base64::Engine::encode(&base64::engine::general_purpose::STANDARD, bytes)
}

/// A character as it stands in a JSON string: quotes, backslashes and control
/// characters are escaped, and nothing else is.
pub open spec fn json_escaped(c: char) -> Seq<char> {
    let n = c as int;
    if c == '"' {
        seq!['\\', '"']
    } else if c == '\\' {
        seq!['\\', '\\']
    } else if n == 8 {
        seq!['\\', 'b']
    } else if n == 9 {
        seq!['\\', 't']
    } else if n == 10 {
        seq!['\\', 'n']
    } else if n == 12 {
        seq!['\\', 'f']
    } else if n == 13 {
        seq!['\\', 'r']
    } else if n < 32 {
        seq!['\\', 'u', '0', '0', hex_digit(n / 16, false), hex_digit(n % 16, false)]
    } else {
        seq![c]
    }
}

/// The characters of a text, each as it stands in a JSON string.
pub open spec fn json_characters(s: Seq<char>) -> Seq<char>
    decreases s.len(),
{
    if s.len() == 0 {
        Seq::empty()
    } else {
        json_characters(s.drop_last()) + json_escaped(s.last())
    }
}

/// A text as a JSON string.
pub open spec fn json_string(s: Seq<char>) -> Seq<char> {
    seq!['"'] + json_characters(s) + seq!['"']
}

/// The JSON text of an object with one member, a text.
pub open spec fn json_member(key: Seq<char>, value: Seq<char>) -> Seq<u8> {
    encode_utf8(seq!['{'] + json_string(key) + seq![':'] + json_string(value) + seq!['}'])
}

/// `serde_json::to_vec` on a `serde_json::Map` with one entry, a text: the
/// object with that one member, without spaces. Of the characters of its two
/// strings, quotes, backslashes and those below 32 are escaped.
#[verifier::external_body]
pub(crate) fn encode_json_member(key: &str, value: &str) -> (r: Option<Vec<u8>>)
    ensures
        r is Some,
        r->0@ == json_member(key@, value@),
{
    let mut object = serde_json::Map::new();
    object.insert(key.to_owned(), serde_json::Value::String(value.to_owned()));
    serde_json::to_vec(&object).ok()
}

/// The number that a digit of base64 stands for.
pub open spec fn base64_value(c: char) -> int {
    if 'A' <= c <= 'Z' {
        c as int - 'A' as int
    } else if 'a' <= c <= 'z' {
        c as int - 'a' as int + 26
    } else if '0' <= c <= '9' {
        c as int - '0' as int + 52
    } else if c == '+' {
        62
    } else {
        63
    }
}

proof fn lemma_base64_digit(n: int)
    requires
        0 <= n < 64,
    ensures
        base64_value(base64_digit(n)) == n,
{
}

/// Every byte can be read back from its base64: four digits stand for three
/// bytes, and the digits that are missing at the end are equals signs.
pub proof fn base64_can_be_read_back(bytes: Seq<u8>, i: int)
    requires
        0 <= i < bytes.len(),
    ensures
        ({
            let text = base64(bytes);
            let at = i / 3 * 4;
            let end = text.len() as int;
            &&& text.len() == (bytes.len() + 2) / 3 * 4
            &&& i % 3 == 0 ==> bytes[i] == base64_value(text[at]) * 4 + base64_value(text[at + 1])
                / 16
            &&& i % 3 == 1 ==> bytes[i] == base64_value(text[at + 1]) % 16 * 16 + base64_value(
                text[at + 2],
            ) / 4
            &&& i % 3 == 2 ==> bytes[i] == base64_value(text[at + 2]) % 4 * 64 + base64_value(
                text[at + 3],
            )
            &&& bytes.len() % 3 == 1 ==> text[end - 1] == '=' && text[end - 2] == '='
                && base64_value(text[end - 3]) % 16 == 0
            &&& bytes.len() % 3 == 2 ==> text[end - 1] == '=' && base64_value(text[end - 2]) % 4
                == 0
        }),
{
    let text = base64(bytes);
    let first = i / 3 * 3;
    let a = byte_or_zero(bytes, first);
    let b = byte_or_zero(bytes, first + 1);
    let c = byte_or_zero(bytes, first + 2);
    assert(i / 3 * 4 / 4 * 3 == first);
    assert((i / 3 * 4 + 1) / 4 * 3 == first);
    assert((i / 3 * 4 + 2) / 4 * 3 == first);
    assert((i / 3 * 4 + 3) / 4 * 3 == first);
    lemma_base64_digit(a / 4);
    lemma_base64_digit(a % 4 * 16 + b / 16);
    lemma_base64_digit(b % 16 * 4 + c / 64);
    lemma_base64_digit(c % 64);
    let last = (bytes.len() - 1) / 3 * 3;
    let x = byte_or_zero(bytes, last);
    let y = byte_or_zero(bytes, last + 1);
    lemma_base64_digit(x % 4 * 16 + y / 16);
    lemma_base64_digit(y % 16 * 4);
}

/// The digits of hexadecimal numbers, in capital or small letters.
pub proof fn hex_digits_are_numbered(n: int)
    requires
        0 <= n < 16,
    ensures
        n < 10 ==> hex_digit(n, true) as int == '0' as int + n,
        n < 10 ==> hex_digit(n, false) as int == '0' as int + n,
        n >= 10 ==> hex_digit(n, true) as int == 'A' as int + n - 10,
        n >= 10 ==> hex_digit(n, false) as int == 'a' as int + n - 10,
{
}

/// A byte is written as two hexadecimal digits in capital letters, the higher
/// one first.
pub proof fn bytes_are_written_in_two_digits(bytes: Seq<u8>, i: int)
    requires
        0 <= i < bytes.len(),
    ensures
        hex_upper(bytes).len() == 2 * bytes.len(),
        hex_upper(bytes)[2 * i] == hex_digit(bytes[i] as int / 16, true),
        hex_upper(bytes)[2 * i + 1] == hex_digit(bytes[i] as int % 16, true),
{
}

/// An identifier is written as 32 hexadecimal digits in small letters, the
/// highest first, in groups of 8, 4, 4, 4 and 12 with hyphens between.
pub proof fn identifiers_are_written_in_groups(id: u128, i: int)
    requires
        0 <= i < 32,
    ensures
        uuid_form(id).len() == 36,
        uuid_form(id)[8] == '-',
        uuid_form(id)[13] == '-',
        uuid_form(id)[18] == '-',
        uuid_form(id)[23] == '-',
        uuid_form(id)[if i < 8 {
            i
        } else if i < 12 {
            i + 1
        } else if i < 16 {
            i + 2
        } else if i < 20 {
            i + 3
        } else {
            i + 4
        }] == hex_digit((id as int / pow(16, (31 - i) as nat)) % 16, false),
{
}

/// A text in JSON stands in quotes, character by character. Quotes, backslashes
/// and control characters are escaped, and no others.
pub proof fn texts_are_escaped_in_json(s: Seq<char>, c: char)
    ensures
        json_string(s) == "\""@ + json_characters(s) + "\""@,
        json_characters(Seq::empty()).len() == 0,
        json_characters(s.push(c)) == json_characters(s) + json_escaped(c),
        c == '"' || c == '\\' ==> json_escaped(c) == seq!['\\', c],
        c == '\n' ==> json_escaped(c) == seq!['\\', 'n'],
        c == '\r' ==> json_escaped(c) == seq!['\\', 'r'],
        c == '\t' ==> json_escaped(c) == seq!['\\', 't'],
        c as int == 8 ==> json_escaped(c) == seq!['\\', 'b'],
        c as int == 12 ==> json_escaped(c) == seq!['\\', 'f'],
        c as int >= 32 && c != '"' && c != '\\' ==> json_escaped(c) == seq![c],
        (c as int) < 32 && c as int != 8 && c != '\t' && c != '\n' && c as int != 12 && c != '\r'
            ==> json_escaped(c) == seq![
            '\\',
            'u',
            '0',
            '0',
            hex_digit(c as int / 16, false),
            hex_digit(c as int % 16, false),
        ],
{
    reveal_strlit("\"");
    assert("\""@ =~= seq!['"']);
    assert(s.push(c).drop_last() =~= s);
}

/// An object of one member in JSON: the key and the value, each as a text.
pub proof fn members_are_written_in_json(key: Seq<char>, value: Seq<char>)
    ensures
        json_member(key, value) == encode_utf8(
            "{"@ + json_string(key) + ":"@ + json_string(value) + "}"@,
        ),
{
    reveal_strlit("{");
    reveal_strlit(":");
    reveal_strlit("}");
    assert("{"@ =~= seq!['{']);
    assert(":"@ =~= seq![':']);
    assert("}"@ =~= seq!['}']);
}

} // verus!
