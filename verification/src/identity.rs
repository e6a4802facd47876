use vstd::prelude::*;
use vstd::string::*;
use vstd::utf8::*;

use crate::digest;
use crate::error::{failure, LegacyUploadEvidenceError};
use crate::text;
use crate::text::{chars_of, text_before};

verus! {

/// The most bytes that an identity may have.
pub const MAX_IDENTITY_BYTES: usize = 1_024;

/// The number of characters of a digest.
pub const DIGEST_CHARS: usize = 64;

/// A decimal digit or one of `a` to `f`.
pub open spec fn hex_text_char(c: char) -> bool {
    '0' <= c <= '9' || 'a' <= c <= 'f'
}

/// A digest as it is written in evidence: 64 lower-case hexadecimal characters.
pub open spec fn digest_text(s: Seq<char>) -> bool {
    &&& s.len() == DIGEST_CHARS
    &&& forall|i: int| 0 <= i < s.len() ==> hex_text_char(#[trigger] s[i])
}

/// An identity that may stand in evidence: not empty, no white space at either end, at most
/// 1024 bytes of UTF-8, and no control character in it.
pub open spec fn identity_text(s: Seq<char>) -> bool {
    &&& s.len() > 0
    &&& !text::blank(s.first())
    &&& !text::blank(s.last())
    &&& encode_utf8(s).len() <= MAX_IDENTITY_BYTES
    &&& forall|i: int| 0 <= i < s.len() ==> !text::control(#[trigger] s[i])
}

/// Valid identities in strictly ascending order.
pub open spec fn ordered_identities(values: Seq<Seq<char>>) -> bool {
    &&& forall|i: int| 0 <= i < values.len() ==> identity_text(#[trigger] values[i])
    &&& forall|i: int, j: int|
        0 <= i < values.len() && j == i + 1 && j < values.len() ==> text::before(
            #[trigger] values[i],
            #[trigger] values[j],
        )
}

/// Whether a text is a digest.
pub fn is_digest(value: &str) -> (r: bool)
    ensures
        r == digest_text(value@),
{
    let chars = chars_of(value);
    if chars.len() != DIGEST_CHARS {
        return false;
    }
    let mut i: usize = 0;
    while i < chars.len()
        invariant
            i <= chars@.len(),
            chars@ == value@,
            forall|j: int| 0 <= j < i ==> hex_text_char(#[trigger] chars@[j]),
        decreases chars@.len() - i,
    {
        let c: char = chars[i];
        if !(('0' <= c && c <= '9') || ('a' <= c && c <= 'f')) {
            assert(!hex_text_char(chars@[i as int]));
            return false;
        }
        i += 1;
    }
    true
}

fn is_control(c: char) -> (r: bool)
    ensures
        r == text::control(c),
{
    let u: u32 = c as u32;
    u <= 0x1f || (0x7f <= u && u <= 0x9f)
}

fn is_blank(c: char) -> (r: bool)
    ensures
        r == text::blank(c),
{
    let u: u32 = c as u32;
    (0x09 <= u && u <= 0x0d) || u == 0x20 || u == 0x85 || u == 0xa0 || u == 0x1680 || (0x2000 <= u
        && u <= 0x200a) || u == 0x2028 || u == 0x2029 || u == 0x202f || u == 0x205f || u == 0x3000
}

/// Whether a text is a valid identity.
pub fn valid_identity(value: &str) -> (r: bool)
    ensures
        r == identity_text(value@),
{
    let chars = chars_of(value);
    if chars.len() == 0 || value.as_bytes().len() > MAX_IDENTITY_BYTES {
        return false;
    }
    if is_blank(chars[0]) || is_blank(chars[chars.len() - 1]) {
        return false;
    }
    let mut i: usize = 0;
    while i < chars.len()
        invariant
            i <= chars@.len(),
            chars@ == value@,
            forall|j: int| 0 <= j < i ==> !text::control(#[trigger] chars@[j]),
        decreases chars@.len() - i,
    {
        if is_control(chars[i]) {
            return false;
        }
        i += 1;
    }
    true
}

/// The characters of each text.
pub open spec fn views(values: Seq<&str>) -> Seq<Seq<char>> {
    values.map_values(|s: &str| s@)
}

/// Accepts texts that are valid identities in strictly ascending order, and refuses all others
/// as `asset_order`.
pub fn validate_ordered_unique(values: &[&str]) -> (r: Result<(), LegacyUploadEvidenceError>)
    ensures
        r is Ok <==> ordered_identities(views(values@)),
        r matches Err(e) ==> e@ == "asset_order"@,
{
    let mut i: usize = 0;
    while i < values.len()
        invariant
            i <= values@.len(),
            forall|j: int| 0 <= j < i ==> identity_text(#[trigger] views(values@)[j]),
        decreases values@.len() - i,
    {
        if !valid_identity(values[i]) {
            assert(!identity_text(views(values@)[i as int]));
            return Err(failure("asset_order"));
        }
        i += 1;
    }
    let mut k: usize = 1;
    while k < values.len()
        invariant
            1 <= k,
            forall|a: int, b: int|
                0 <= a < k && b == a + 1 && b < k && b < values@.len() ==> text::before(
                    #[trigger] views(values@)[a],
                    #[trigger] views(values@)[b],
                ),
        decreases values@.len() - k,
    {
        if !text_before(values[k - 1], values[k]) {
            assert(!text::before(views(values@)[k - 1], views(values@)[k as int]));
            return Err(failure("asset_order"));
        }
        k += 1;
    }
    Ok(())
}

/// In an accepted list every earlier identity comes before every later one.
pub proof fn ordered_identities_ascend(values: Seq<Seq<char>>, i: int, j: int)
    requires
        ordered_identities(values),
        0 <= i < j < values.len(),
    ensures
        text::before(values[i], values[j]),
    decreases j - i,
{
    if j > i + 1 {
        ordered_identities_ascend(values, i, j - 1);
        assert(text::before(values[j - 1], values[j]));
        text::before_is_transitive(values[i], values[j - 1], values[j]);
    }
}

/// An accepted list names nothing twice.
pub proof fn ordered_identities_are_distinct(values: Seq<Seq<char>>)
    requires
        ordered_identities(values),
    ensures
        values.no_duplicates(),
{
    assert forall|i: int, j: int|
        0 <= i < values.len() && 0 <= j < values.len() && i != j implies values[i] != values[j] by {
        if i < j {
            ordered_identities_ascend(values, i, j);
        } else {
            ordered_identities_ascend(values, j, i);
        }
        text::before_is_irreflexive(values[i]);
    }
}

/// A digest is written with exactly 64 characters, each one of `0` to `9` or `a` to `f`.
pub proof fn digests_have_one_shape(s: Seq<char>)
    ensures
        digest_text(s) <==> s.len() == 64 && forall|i: int|
            0 <= i < s.len() ==> ('0' <= #[trigger] s[i] && s[i] <= '9') || ('a' <= s[i] && s[i]
                <= 'f'),
{
    if digest_text(s) {
        assert forall|i: int| 0 <= i < s.len() implies ('0' <= #[trigger] s[i] && s[i] <= '9') || (
        'a' <= s[i] && s[i] <= 'f') by {
            assert(hex_text_char(s[i]));
        }
    }
}

/// The hexadecimal text of 32 bytes is a digest.
pub proof fn hexadecimal_of_32_bytes_is_a_digest(bytes: Seq<u8>)
    requires
        bytes.len() == 32,
    ensures
        digest_text(digest::lower_hex(bytes)),
{
    let s = digest::lower_hex(bytes);
    assert forall|i: int| 0 <= i < s.len() implies hex_text_char(#[trigger] s[i]) by {
        let b = bytes[i / 2] as int;
        digest::digits_read_back(b / 16);
        digest::digits_read_back(b % 16);
    }
}

proof fn ascii_takes_one_byte_each(s: Seq<char>)
    requires
        forall|i: int| 0 <= i < s.len() ==> (#[trigger] s[i]) as u32 <= 127,
    ensures
        encode_utf8(s).len() == s.len(),
    decreases s.len(),
{
    reveal_with_fuel(encode_utf8, 2);
    if s.len() > 0 {
        assert(s[0] as u32 <= 127);
        assert forall|i: int| 0 <= i < s.drop_first().len() implies (
        #[trigger] s.drop_first()[i]) as u32 <= 127 by {
            assert(s[i + 1] as u32 <= 127);
        }
        ascii_takes_one_byte_each(s.drop_first());
    }
}

/// Every text of one to 1024 printable ASCII characters that neither begins nor ends with a space
/// is an identity.
pub proof fn printable_texts_are_identities(s: Seq<char>)
    requires
        0 < s.len() <= 1024,
        forall|i: int| 0 <= i < s.len() ==> 32 <= (#[trigger] s[i]) as u32 && s[i] as u32 <= 126,
        s[0] as u32 != 32,
        s[s.len() - 1] as u32 != 32,
    ensures
        identity_text(s),
{
    ascii_takes_one_byte_each(s);
    assert(32 <= s[0] as u32 && 32 <= s[s.len() - 1] as u32);
    assert(s.first() == s[0]);
    assert(s.last() == s[s.len() - 1]);
    assert forall|i: int| 0 <= i < s.len() implies !text::control(#[trigger] s[i]) by {
        assert(32 <= s[i] as u32);
    }
}

/// A text is no identity that is empty, takes more than 1024 bytes, holds a control character, or
/// begins or ends with white space.
pub proof fn identities_have_no_loose_ends(s: Seq<char>)
    ensures
        s.len() == 0 ==> !identity_text(s),
        encode_utf8(s).len() > 1024 ==> !identity_text(s),
        s.len() > 0 && (text::blank(s[0]) || text::blank(s[s.len() - 1])) ==> !identity_text(s),
        forall|i: int|
            0 <= i < s.len() && ((#[trigger] s[i]) as u32 <= 31 || s[i] as u32 == 127)
                ==> !identity_text(s),
        identity_text(s) <==> {
            &&& 0 < encode_utf8(s).len() <= 1024
            &&& 0 < s.len()
            &&& !text::blank(s[0])
            &&& !text::blank(s[s.len() - 1])
            &&& forall|i: int| 0 <= i < s.len() ==> !text::control(#[trigger] s[i])
        },
{
    reveal_with_fuel(encode_utf8, 2);
    if s.len() > 0 {
        assert(s.first() == s[0] && s.last() == s[s.len() - 1]);
        assert(encode_utf8(s).len() > 0);
    }
}

/// Identities in strictly ascending order are accepted, however many there are.
pub proof fn ascending_identities_are_accepted(values: Seq<Seq<char>>)
    requires
        forall|i: int| 0 <= i < values.len() ==> identity_text(#[trigger] values[i]),
        forall|i: int, j: int|
            0 <= i < j < values.len() ==> text::before(#[trigger] values[i], #[trigger] values[j]),
    ensures
        ordered_identities(values),
{
}

} // verus!
