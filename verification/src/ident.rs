//! Record identifiers: 128-bit values, their text form, and where they come from.
use vstd::prelude::*;
use vstd::utf8::{encode_utf8, is_ascii_chars, is_ascii_chars_encode_utf8};

verus! {

/// The lower-case hexadecimal digit for a value below sixteen.
pub open spec fn hex_digit(value: u128) -> char {
    seq!['0', '1', '2', '3', '4', '5', '6', '7', '8', '9', 'a', 'b', 'c', 'd', 'e', 'f'][value as int]
}

/// The hexadecimal digit of `id` at place `k`, counted from the most
/// significant one; `k` runs from 0 to 31.
pub open spec fn nibble(id: u128, k: int) -> u128 {
    (id >> ((4 * (31 - k)) as u128)) & 0xf
}

/// Whether position `p` of an identifier's text holds a hyphen.
pub open spec fn is_hyphen_position(p: int) -> bool {
    p == 8 || p == 13 || p == 18 || p == 23
}

/// Which hexadecimal digit stands at position `p` of an identifier's text,
/// where that position holds no hyphen.
pub open spec fn digit_place(p: int) -> int {
    if p < 8 {
        p
    } else if p < 13 {
        p - 1
    } else if p < 18 {
        p - 2
    } else if p < 23 {
        p - 3
    } else {
        p - 4
    }
}

/// The text form of an identifier: its 32 lower-case hexadecimal digits, most
/// significant first, in groups of 8, 4, 4, 4 and 12 with a hyphen between groups.
pub open spec fn hyphenated_text(id: u128) -> Seq<char> {
    Seq::new(
        36,
        |p: int|
            if is_hyphen_position(p) {
                '-'
            } else {
                hex_digit(nibble(id, digit_place(p)))
            },
    )
}

/// Whether `id` has the layout of a random identifier: version 4, and the
/// variant that begins with the bits 1 and 0.
pub open spec fn is_random_v4(id: u128) -> bool {
    id & 0x0000_0000_0000_f000_c000_0000_0000_0000 == 0x0000_0000_0000_4000_8000_0000_0000_0000
}

/// What `uuid::Uuid::parse_str` makes of a text: the identifier it reads, or
/// `None` where it rejects the text.
pub uninterp spec fn parsed_uuid(text: Seq<char>) -> Option<u128>;

/// Whether a text of `bytes` bytes has a length that the parser reads: 32 for
/// the digits alone, 36 with hyphens, 38 in braces, 45 as a URN.
pub open spec fn is_identifier_length(bytes: nat) -> bool {
    bytes == 32 || bytes == 36 || bytes == 38 || bytes == 45
}

/// Whether a byte is a hexadecimal digit, in either case, or a hyphen.
pub open spec fn is_identifier_byte(byte: u8) -> bool {
    (0x30 <= byte <= 0x39) || (0x41 <= byte <= 0x46) || (0x61 <= byte <= 0x66) || byte == 0x2d
}

/// Whether a text of 36 bytes holds a byte that is neither a hexadecimal
/// digit nor a hyphen.
pub open spec fn has_foreign_byte(bytes: Seq<u8>) -> bool {
    bytes.len() == 36 && exists|i: int| 0 <= i < 36 && !is_identifier_byte(#[trigger] bytes[i])
}

/// Whether `text` is the text form of some identifier.
pub open spec fn is_hyphenated(text: Seq<char>) -> bool {
    exists|id: u128| text == #[trigger] hyphenated_text(id)
}

/// The identifier that a text stands for. The text form of an identifier stands
/// for that identifier; a text of another length than the parser reads stands
/// for none, and so does one of 36 bytes with a byte that is neither a
/// hexadecimal digit nor a hyphen; any other text stands for what the parser
/// reads in it.
pub open spec fn id_of_text(text: Seq<char>) -> Option<u128> {
    if is_hyphenated(text) {
        Some(choose|id: u128| text == #[trigger] hyphenated_text(id))
    } else if !is_identifier_length(encode_utf8(text).len()) || has_foreign_byte(
        encode_utf8(text),
    ) {
        None
    } else {
        parsed_uuid(text)
    }
}

/// Calls `uuid::Uuid::new_v4`. Not proved: that every identifier it returns
/// carries version 4 and the variant bits 1 and 0. The call ends the process
/// where the operating system supplies no random bytes.
#[verifier::external_body]
pub(crate) fn random_uuid() -> (id: u128)
    ensures
        is_random_v4(id),
{
    uuid::Uuid::new_v4().as_u128()
}

/// Calls `to_string` of `uuid::Uuid`. Not proved: that the text is the
/// hyphenated lower-case form of the value.
#[verifier::external_body]
pub(crate) fn uuid_text(id: u128) -> (text: String)
    ensures
        text@ == hyphenated_text(id),
{
    uuid::Uuid::from_u128(id).to_string()
}

/// Calls `uuid::Uuid::parse_str`. Not proved: that its answer depends on the
/// text alone; that it reads the hyphenated lower-case form of an identifier
/// as that identifier; that it refuses a text whose length in bytes is none
/// of 32, 36, 38 and 45, and a text of 36 bytes that holds a byte which is
/// neither a hexadecimal digit nor a hyphen.
#[verifier::external_body]
pub(crate) fn parse_uuid(text: &str) -> (r: Option<u128>)
    ensures
        r == parsed_uuid(text@),
        forall|id: u128| text@ == #[trigger] hyphenated_text(id) ==> r == Some(id),
        !is_identifier_length(encode_utf8(text@).len()) ==> r is None,
        has_foreign_byte(encode_utf8(text@)) ==> r is None,
{
    match uuid::Uuid::parse_str(text) {
        Ok(value) => Some(value.as_u128()),
        Err(_) => None,
    }
}

/// A value below sixteen is known by its hexadecimal digit.
pub proof fn lemma_hex_digit_injective(a: u128, b: u128)
    requires
        a < 16,
        b < 16,
        hex_digit(a) == hex_digit(b),
    ensures
        a == b,
{
}

/// An identifier is known by its 32 hexadecimal digits.
proof fn lemma_nibbles_determine(a: u128, b: u128)
    requires
        forall|k: int| 0 <= k < 32 ==> nibble(a, k) == nibble(b, k),
    ensures
        a == b,
{
    assert(nibble(a, 0) == nibble(b, 0));
    assert(nibble(a, 1) == nibble(b, 1));
    assert(nibble(a, 2) == nibble(b, 2));
    assert(nibble(a, 3) == nibble(b, 3));
    assert(nibble(a, 4) == nibble(b, 4));
    assert(nibble(a, 5) == nibble(b, 5));
    assert(nibble(a, 6) == nibble(b, 6));
    assert(nibble(a, 7) == nibble(b, 7));
    assert(nibble(a, 8) == nibble(b, 8));
    assert(nibble(a, 9) == nibble(b, 9));
    assert(nibble(a, 10) == nibble(b, 10));
    assert(nibble(a, 11) == nibble(b, 11));
    assert(nibble(a, 12) == nibble(b, 12));
    assert(nibble(a, 13) == nibble(b, 13));
    assert(nibble(a, 14) == nibble(b, 14));
    assert(nibble(a, 15) == nibble(b, 15));
    assert(nibble(a, 16) == nibble(b, 16));
    assert(nibble(a, 17) == nibble(b, 17));
    assert(nibble(a, 18) == nibble(b, 18));
    assert(nibble(a, 19) == nibble(b, 19));
    assert(nibble(a, 20) == nibble(b, 20));
    assert(nibble(a, 21) == nibble(b, 21));
    assert(nibble(a, 22) == nibble(b, 22));
    assert(nibble(a, 23) == nibble(b, 23));
    assert(nibble(a, 24) == nibble(b, 24));
    assert(nibble(a, 25) == nibble(b, 25));
    assert(nibble(a, 26) == nibble(b, 26));
    assert(nibble(a, 27) == nibble(b, 27));
    assert(nibble(a, 28) == nibble(b, 28));
    assert(nibble(a, 29) == nibble(b, 29));
    assert(nibble(a, 30) == nibble(b, 30));
    assert(nibble(a, 31) == nibble(b, 31));
    assert(a == b) by (bit_vector)
        requires
            (a >> 124) & 0xf == (b >> 124) & 0xf,
            (a >> 120) & 0xf == (b >> 120) & 0xf,
            (a >> 116) & 0xf == (b >> 116) & 0xf,
            (a >> 112) & 0xf == (b >> 112) & 0xf,
            (a >> 108) & 0xf == (b >> 108) & 0xf,
            (a >> 104) & 0xf == (b >> 104) & 0xf,
            (a >> 100) & 0xf == (b >> 100) & 0xf,
            (a >> 96) & 0xf == (b >> 96) & 0xf,
            (a >> 92) & 0xf == (b >> 92) & 0xf,
            (a >> 88) & 0xf == (b >> 88) & 0xf,
            (a >> 84) & 0xf == (b >> 84) & 0xf,
            (a >> 80) & 0xf == (b >> 80) & 0xf,
            (a >> 76) & 0xf == (b >> 76) & 0xf,
            (a >> 72) & 0xf == (b >> 72) & 0xf,
            (a >> 68) & 0xf == (b >> 68) & 0xf,
            (a >> 64) & 0xf == (b >> 64) & 0xf,
            (a >> 60) & 0xf == (b >> 60) & 0xf,
            (a >> 56) & 0xf == (b >> 56) & 0xf,
            (a >> 52) & 0xf == (b >> 52) & 0xf,
            (a >> 48) & 0xf == (b >> 48) & 0xf,
            (a >> 44) & 0xf == (b >> 44) & 0xf,
            (a >> 40) & 0xf == (b >> 40) & 0xf,
            (a >> 36) & 0xf == (b >> 36) & 0xf,
            (a >> 32) & 0xf == (b >> 32) & 0xf,
            (a >> 28) & 0xf == (b >> 28) & 0xf,
            (a >> 24) & 0xf == (b >> 24) & 0xf,
            (a >> 20) & 0xf == (b >> 20) & 0xf,
            (a >> 16) & 0xf == (b >> 16) & 0xf,
            (a >> 12) & 0xf == (b >> 12) & 0xf,
            (a >> 8) & 0xf == (b >> 8) & 0xf,
            (a >> 4) & 0xf == (b >> 4) & 0xf,
            (a >> 0) & 0xf == (b >> 0) & 0xf,
    ;
}

/// Every hexadecimal digit of an identifier is below sixteen.
proof fn lemma_nibble_range(id: u128, k: int)
    requires
        0 <= k < 32,
    ensures
        nibble(id, k) < 16,
{
    let shift = (4 * (31 - k)) as u128;
    assert((id >> shift) & 0xf < 16) by (bit_vector);
}

/// The position in an identifier's text at which digit `k` stands.
pub open spec fn digit_position(k: int) -> int {
    if k < 8 {
        k
    } else if k < 12 {
        k + 1
    } else if k < 16 {
        k + 2
    } else if k < 20 {
        k + 3
    } else {
        k + 4
    }
}

/// Two identifiers with the same text form are the same identifier.
pub proof fn lemma_hyphenated_text_injective(a: u128, b: u128)
    requires
        hyphenated_text(a) == hyphenated_text(b),
    ensures
        a == b,
{
    assert forall|k: int| 0 <= k < 32 implies nibble(a, k) == nibble(b, k) by {
        let p = digit_position(k);
        assert(0 <= p < 36 && !is_hyphen_position(p) && digit_place(p) == k);
        assert(hyphenated_text(a)[p] == hex_digit(nibble(a, k)));
        assert(hyphenated_text(b)[p] == hex_digit(nibble(b, k)));
        lemma_nibble_range(a, k);
        lemma_nibble_range(b, k);
        lemma_hex_digit_injective(nibble(a, k), nibble(b, k));
    }
    lemma_nibbles_determine(a, b);
}

/// Whether a character is a decimal digit or a letter from `a` to `f`.
pub open spec fn is_lower_hex(c: char) -> bool {
    ('0' <= c && c <= '9') || ('a' <= c && c <= 'f')
}

/// The text form of an identifier has 36 characters: hyphens at the four
/// places between the groups, lower-case hexadecimal digits elsewhere. In the
/// text of a random identifier the third group begins with `4` and the fourth
/// with `8`, `9`, `a` or `b`.
pub proof fn lemma_text_shape(id: u128)
    ensures
        hyphenated_text(id).len() == 36,
        forall|p: int|
            0 <= p < 36 && is_hyphen_position(p) ==> #[trigger] hyphenated_text(id)[p] == '-',
        forall|p: int|
            0 <= p < 36 && !is_hyphen_position(p) ==> is_lower_hex(
                #[trigger] hyphenated_text(id)[p],
            ),
        is_random_v4(id) ==> hyphenated_text(id)[14] == '4' && (hyphenated_text(id)[19] == '8'
            || hyphenated_text(id)[19] == '9' || hyphenated_text(id)[19] == 'a'
            || hyphenated_text(id)[19] == 'b'),
{
    assert forall|p: int| 0 <= p < 36 && !is_hyphen_position(p) implies is_lower_hex(
        #[trigger] hyphenated_text(id)[p],
    ) by {
        lemma_nibble_range(id, digit_place(p));
    }
    if is_random_v4(id) {
        assert((id >> 76) & 0xf == 4 && 8 <= (id >> 60) & 0xf < 12) by (bit_vector)
            requires
                id & 0x0000_0000_0000_f000_c000_0000_0000_0000
                    == 0x0000_0000_0000_4000_8000_0000_0000_0000,
        ;
        assert(nibble(id, 12) == 4);
        assert(8 <= nibble(id, 16) < 12);
    }
}

/// The text form of an identifier stands for that identifier, and for no other.
pub proof fn lemma_text_reads_back(id: u128)
    ensures
        is_hyphenated(hyphenated_text(id)),
        id_of_text(hyphenated_text(id)) == Some(id),
{
    let text = hyphenated_text(id);
    assert(is_hyphenated(text));
    let chosen = choose|other: u128| text == #[trigger] hyphenated_text(other);
    lemma_hyphenated_text_injective(chosen, id);
}

/// The text form of an identifier is made of plain characters, so that it
/// takes 36 bytes, a length that the parser reads.
pub proof fn lemma_text_is_plain(id: u128)
    ensures
        is_ascii_chars(hyphenated_text(id)),
        encode_utf8(hyphenated_text(id)).len() == 36,
        is_identifier_length(encode_utf8(hyphenated_text(id)).len()),
{
    lemma_text_shape(id);
    let text = hyphenated_text(id);
    assert forall|p: int| 0 <= p < text.len() implies '\0' <= #[trigger] text[p] <= '\u{7f}' by {
        if !is_hyphen_position(p) {
            assert(is_lower_hex(text[p]));
        }
    }
    is_ascii_chars_encode_utf8(text);
}

/// A text of plain characters whose length is none of 32, 36, 38 and 45 stands
/// for no identifier.
pub proof fn lemma_other_length_is_no_identifier(text: Seq<char>)
    requires
        is_ascii_chars(text),
        !is_identifier_length(text.len()),
    ensures
        id_of_text(text) is None,
{
    is_ascii_chars_encode_utf8(text);
}

/// A text of 36 plain characters, one of which is neither a hexadecimal digit
/// nor a hyphen, stands for no identifier.
pub proof fn lemma_foreign_character_is_no_identifier(text: Seq<char>, at: int)
    requires
        is_ascii_chars(text),
        text.len() == 36,
        0 <= at < 36,
        !is_identifier_byte(text[at] as u8),
    ensures
        id_of_text(text) is None,
{
    is_ascii_chars_encode_utf8(text);
    assert(encode_utf8(text)[at] == text[at] as u8);
    if is_hyphenated(text) {
        let id = choose|id: u128| text == #[trigger] hyphenated_text(id);
        lemma_text_shape(id);
        if !is_hyphen_position(at) {
            assert(is_lower_hex(hyphenated_text(id)[at]));
        }
    }
}

/// Reads an identifier from its text.
pub fn parse_id(text: &str) -> (r: Option<u128>)
    ensures
        r == id_of_text(text@),
{
    parse_uuid(text)
}

/// Writes an identifier as text.
pub fn format_id(id: u128) -> (text: String)
    ensures
        text@ == hyphenated_text(id),
        id_of_text(text@) == Some(id),
{
    proof {
        lemma_text_reads_back(id);
    }
    uuid_text(id)
}

} // verus!
