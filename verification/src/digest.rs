use sha2::{Digest, Sha256};
use vstd::prelude::*;

use crate::identity;

verus! {

/// The 32 bytes that SHA-256 gives for a message.
pub uninterp spec fn sha256(message: Seq<u8>) -> Seq<u8>;

/// The hexadecimal digit of a value below sixteen, in lower case.
pub open spec fn hex_digit(n: int) -> char {
    if n < 10 {
        (0x30 + n) as char
    } else {
        (0x57 + n) as char
    }
}

/// Two lower-case hexadecimal digits for each byte, the high half first.
pub open spec fn lower_hex(bytes: Seq<u8>) -> Seq<char> {
    Seq::new(
        2 * bytes.len(),
        |i: int|
            if i % 2 == 0 {
                hex_digit(bytes[i / 2] as int / 16)
            } else {
                hex_digit(bytes[i / 2] as int % 16)
            },
    )
}

/// The SHA-256 of a message, written as lower-case hexadecimal.
pub open spec fn sha256_hex(message: Seq<u8>) -> Seq<char> {
    lower_hex(sha256(message))
}

/// `sha2::Sha256::digest` on the whole message: the result is the message's SHA-256, which is
/// always 32 bytes long. The function itself is not spelled out here.
#[verifier::external_body]
fn sha256_digest(message: &[u8]) -> (r: Vec<u8>)
    ensures
        r@ == sha256(message@),
        r@.len() == 32,
{
    Sha256::digest(message).to_vec()
}

/// The digit of a number below sixteen.
pub fn hex_char(n: u8) -> (r: char)
    requires
        n < 16,
    ensures
        r == hex_digit(n as int),
{
    match n {
        0 => '0',
        1 => '1',
        2 => '2',
        3 => '3',
        4 => '4',
        5 => '5',
        6 => '6',
        7 => '7',
        8 => '8',
        9 => '9',
        10 => 'a',
        11 => 'b',
        12 => 'c',
        13 => 'd',
        14 => 'e',
        _ => 'f',
    }
}

/// The SHA-256 of a message, written as lower-case hexadecimal. It always has the shape of a
/// digest.
pub fn sha256_bytes(bytes: &[u8]) -> (r: String)
    ensures
        r@ == sha256_hex(bytes@),
        identity::digest_text(r@),
{
    let raw = sha256_digest(bytes);
    let mut out: String = String::new();
    let mut i: usize = 0;
    while i < raw.len()
        invariant
            i <= raw@.len(),
            out@.len() == 2 * i,
            forall|j: int| 0 <= j < 2 * i ==> out@[j] == lower_hex(raw@)[j],
        decreases raw@.len() - i,
    {
        let b: u8 = raw[i];
        out.push(hex_char(b / 16));
        out.push(hex_char(b % 16));
        i += 1;
    }
    assert(out@ =~= lower_hex(raw@));
    assert forall|j: int| 0 <= j < out@.len() implies identity::hex_text_char(out@[j]) by {
        let b = raw@[j / 2];
        assert(0 <= b as int / 16 < 16 && 0 <= b as int % 16 < 16);
    }
    out
}

/// The number that a hexadecimal digit stands for.
pub open spec fn digit_value(c: char) -> int {
    if '0' <= c <= '9' {
        c as int - '0' as int
    } else {
        c as int - 'a' as int + 10
    }
}

/// A digit reads back as the number below sixteen that it was written for, and is written with
/// one of the characters from `0` to `9` and from `a` to `f`.
pub proof fn digits_read_back(n: int)
    requires
        0 <= n < 16,
    ensures
        digit_value(hex_digit(n)) == n,
        '0' <= hex_digit(n) <= '9' || 'a' <= hex_digit(n) <= 'f',
        n < 10 <==> '0' <= hex_digit(n) <= '9',
{
}

/// Hexadecimal text reads back: every byte is two digits, the higher half first.
pub proof fn hexadecimal_reads_back(bytes: Seq<u8>, i: int)
    requires
        0 <= i < bytes.len(),
    ensures
        lower_hex(bytes).len() == 2 * bytes.len(),
        16 * digit_value(lower_hex(bytes)[2 * i]) + digit_value(lower_hex(bytes)[2 * i + 1])
            == bytes[i],
        0 <= digit_value(lower_hex(bytes)[2 * i]) < 16,
        0 <= digit_value(lower_hex(bytes)[2 * i + 1]) < 16,
{
    let b = bytes[i] as int;
    digits_read_back(b / 16);
    digits_read_back(b % 16);
    assert((2 * i) / 2 == i && (2 * i + 1) / 2 == i);
}

} // verus!
