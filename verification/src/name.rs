use vstd::prelude::*;

use crate::error::AccountsError;
use vstd::utf8::{
    encode_scalar,
    encode_utf8,
    has_width_1_encoding,
    has_width_2_encoding,
    has_width_3_encoding,
    is_ascii_chars,
    is_ascii_chars_encode_utf8,
};

verus! {

/// The longest profile name that is accepted, in characters.
pub const MAX_NAME_LEN: usize = 64;

/// An ASCII letter or digit.
pub open spec fn is_ascii_alnum(c: char) -> bool {
    ('0' <= c && c <= '9') || ('a' <= c && c <= 'z') || ('A' <= c && c <= 'Z')
}

/// A character that may follow the first one besides letters and digits.
pub open spec fn is_name_punct(c: char) -> bool {
    c == '.' || c == '-' || c == '_'
}

/// A profile name: 1 to 64 characters, the first an ASCII letter or digit,
/// the others ASCII letters, digits, '.', '-' or '_'.
pub open spec fn is_valid_name(s: Seq<char>) -> bool {
    &&& 1 <= s.len() <= MAX_NAME_LEN
    &&& is_ascii_alnum(s[0])
    &&& forall|i: int| 1 <= i < s.len() ==> #[trigger] is_ascii_alnum(s[i]) || is_name_punct(s[i])
}

/// An ASCII letter or digit, as a byte.
pub open spec fn is_ascii_alnum_byte(b: u8) -> bool {
    (48 <= b <= 57) || (97 <= b <= 122) || (65 <= b <= 90)
}

/// '.', '-' or '_', as a byte.
pub open spec fn is_name_punct_byte(b: u8) -> bool {
    b == 46 || b == 45 || b == 95
}

/// The profile-name rule over the name's UTF-8 bytes: 1 to 64 bytes, the
/// first an ASCII letter or digit, every one an ASCII letter, digit, '.',
/// '-' or '_'.
pub open spec fn is_valid_name_bytes(b: Seq<u8>) -> bool {
    &&& 1 <= b.len() <= MAX_NAME_LEN
    &&& is_ascii_alnum_byte(b[0])
    &&& forall|i: int| 0 <= i < b.len() ==> #[trigger] is_ascii_alnum_byte(b[i]) || is_name_punct_byte(b[i])
}

proof fn lemma_ascii_char(c: char)
    requires
        (c as u32) < 128,
    ensures
        '\0' <= c <= '\u{7f}',
{
}

proof fn lemma_leading_byte_high(v: u32)
    requires
        !has_width_1_encoding(v),
    ensures
        encode_scalar(v)[0] >= 128,
{
    if has_width_2_encoding(v) {
        assert((0xC0u8 | ((v >> 6u32) & 0x1Fu32) as u8) >= 128u8) by (bit_vector);
    } else if has_width_3_encoding(v) {
        assert((0xE0u8 | ((v >> 12u32) & 0x0Fu32) as u8) >= 128u8) by (bit_vector);
    } else {
        assert((0xF0u8 | ((v >> 18u32) & 0x7u32) as u8) >= 128u8) by (bit_vector);
    }
}

proof fn lemma_low_bytes_mean_ascii(s: Seq<char>)
    requires
        forall|i: int| 0 <= i < encode_utf8(s).len() ==> #[trigger] encode_utf8(s)[i] < 128,
    ensures
        is_ascii_chars(s),
    decreases s.len(),
{
    if s.len() > 0 {
        let head = encode_scalar(s[0] as u32);
        let rest = encode_utf8(s.drop_first());
        assert(encode_utf8(s) == head + rest);
        if !has_width_1_encoding(s[0] as u32) {
            lemma_leading_byte_high(s[0] as u32);
            assert(encode_utf8(s)[0] == head[0]);
        }
        assert forall|i: int| 0 <= i < rest.len() implies #[trigger] rest[i] < 128 by {
            assert(encode_utf8(s)[head.len() + i] == rest[i]);
        }
        lemma_low_bytes_mean_ascii(s.drop_first());
        assert forall|i: int| 0 <= i < s.len() implies '\0' <= #[trigger] s[i] <= '\u{7f}' by {
            if i > 0 {
                assert(s[i] == s.drop_first()[i - 1]);
            } else {
                lemma_ascii_char(s[0]);
            }
        }
    }
}

/// The profile-name rule over characters and over UTF-8 bytes agree: a
/// character outside ASCII is refused either way, since its encoding holds
/// bytes of 128 and above.
pub proof fn lemma_name_rule_on_bytes(s: Seq<char>)
    ensures
        is_valid_name(s) <==> is_valid_name_bytes(encode_utf8(s)),
{
    let b = encode_utf8(s);
    if is_valid_name(s) {
        lemma_valid_name_is_single_component(s);
        assert forall|i: int| 0 <= i < s.len() implies '\0' <= #[trigger] s[i] <= '\u{7f}' by {
            lemma_ascii_char(s[i]);
        }
    }
    if is_valid_name_bytes(b) {
        assert forall|i: int| 0 <= i < b.len() implies #[trigger] b[i] < 128 by {
            assert(is_ascii_alnum_byte(b[i]) || is_name_punct_byte(b[i]));
        }
        lemma_low_bytes_mean_ascii(s);
    }
    if is_ascii_chars(s) {
        is_ascii_chars_encode_utf8(s);
        assert forall|i: int| 0 <= i < s.len() implies (is_ascii_alnum(s[i]) <==> is_ascii_alnum_byte(
            #[trigger] b[i],
        )) && (is_name_punct(s[i]) <==> is_name_punct_byte(b[i])) by {
            assert(s[i] as u8 == b[i]);
            assert('\0' <= s[i] <= '\u{7f}');
        }
    }
}

/// A character is an ASCII letter of either case or an ASCII digit.
pub open spec fn letter_or_digit(c: char) -> bool {
    ('0' <= c && c <= '9') || ('a' <= c && c <= 'z') || ('A' <= c && c <= 'Z')
}

/// Every string of 1 to 64 ASCII letters (of either case) and digits is a
/// valid profile name.
pub proof fn lemma_letters_and_digits_are_valid(s: Seq<char>)
    requires
        1 <= s.len() <= 64,
        forall|i: int| 0 <= i < s.len() ==> letter_or_digit(#[trigger] s[i]),
    ensures
        is_valid_name(s),
{
    assert(letter_or_digit(s[0]));
    assert forall|i: int| 1 <= i < s.len() implies #[trigger] is_ascii_alnum(s[i]) || is_name_punct(
        s[i],
    ) by {
        assert(letter_or_digit(s[i]));
    }
}

/// Putting any ASCII letter (of either case) or digit at any position of a
/// valid name gives a valid name; in particular changing the case of a
/// letter keeps a name valid.
pub proof fn lemma_letter_or_digit_substitution(s: Seq<char>, i: int, c: char)
    requires
        is_valid_name(s),
        0 <= i < s.len(),
        letter_or_digit(c),
    ensures
        is_valid_name(s.update(i, c)),
{
    let t = s.update(i, c);
    assert forall|j: int| 1 <= j < t.len() implies #[trigger] is_ascii_alnum(t[j]) || is_name_punct(
        t[j],
    ) by {
        if j != i {
            assert(t[j] == s[j]);
            assert(is_ascii_alnum(s[j]) || is_name_punct(s[j]));
        }
    }
}

/// '.', '-' and '_' may stand anywhere but first: a valid name stays valid
/// with one of them put after its first character, and no name starting
/// with one of them is valid.
pub proof fn lemma_punctuation_after_first(s: Seq<char>, i: int, c: char)
    requires
        is_valid_name(s),
        1 <= i < s.len(),
        c == '.' || c == '-' || c == '_',
    ensures
        is_valid_name(s.update(i, c)),
        !is_valid_name(s.update(0, c)),
{
    let t = s.update(i, c);
    assert forall|j: int| 1 <= j < t.len() implies #[trigger] is_ascii_alnum(t[j]) || is_name_punct(
        t[j],
    ) by {
        if j != i {
            assert(t[j] == s[j]);
            assert(is_ascii_alnum(s[j]) || is_name_punct(s[j]));
        }
    }
}

/// No name is valid that is empty, longer than 64 characters, or holds a
/// character other than an ASCII letter, digit, '.', '-' or '_'.
pub proof fn lemma_invalid_names(s: Seq<char>)
    ensures
        s.len() == 0 ==> !is_valid_name(s),
        s.len() > 64 ==> !is_valid_name(s),
        (exists|i: int|
            0 <= i < s.len() && !letter_or_digit(#[trigger] s[i]) && s[i] != '.' && s[i] != '-'
                && s[i] != '_') ==> !is_valid_name(s),
{
    if exists|i: int|
        0 <= i < s.len() && !letter_or_digit(#[trigger] s[i]) && s[i] != '.' && s[i] != '-' && s[i]
            != '_' {
        let i = choose|i: int|
            0 <= i < s.len() && !letter_or_digit(#[trigger] s[i]) && s[i] != '.' && s[i] != '-'
                && s[i] != '_';
        if is_valid_name(s) && i >= 1 {
            assert(is_ascii_alnum(s[i]) || is_name_punct(s[i]));
        }
    }
}

/// Executable form of `is_ascii_alnum`.
pub fn char_is_ascii_alnum(c: char) -> (b: bool)
    ensures
        b == is_ascii_alnum(c),
{
    ('0' <= c && c <= '9') || ('a' <= c && c <= 'z') || ('A' <= c && c <= 'Z')
}

/// Checks a profile name. The name is accepted exactly when it is 1 to 64
/// characters long, begins with an ASCII letter or digit, and holds only
/// ASCII letters, digits, '.', '-' and '_'.
pub fn validate_name(name: &str) -> (r: Result<(), AccountsError>)
    ensures
        r is Ok <==> is_valid_name(name@),
        r is Ok <==> is_valid_name_bytes(encode_utf8(name@)),
        r matches Err(e) ==> e == AccountsError::InvalidProfileName,
{
    proof {
        lemma_name_rule_on_bytes(name@);
    }
    let n = name.unicode_len();
    if n < 1 || n > MAX_NAME_LEN || !char_is_ascii_alnum(name.get_char(0)) {
        return Err(AccountsError::InvalidProfileName);
    }
    let mut i: usize = 1;
    while i < n
        invariant
            n == name@.len(),
            1 <= i <= n,
            is_valid_name(name@) <==> is_valid_name_bytes(encode_utf8(name@)),
            forall|j: int| 1 <= j < i ==> #[trigger] is_ascii_alnum(name@[j]) || is_name_punct(
                name@[j],
            ),
        decreases n - i,
    {
        let c = name.get_char(i);
        if !(char_is_ascii_alnum(c) || c == '.' || c == '-' || c == '_') {
            return Err(AccountsError::InvalidProfileName);
        }
        i = i + 1;
    }
    Ok(())
}

/// A valid profile name names exactly one directory entry below the profile
/// root: it holds no path separator, is neither "." nor "..", does not begin
/// with '.', '-' or '_', is pure ASCII and is at most 64 characters long.
pub proof fn lemma_valid_name_is_single_component(s: Seq<char>)
    requires
        is_valid_name(s),
    ensures
        forall|i: int| 0 <= i < s.len() ==> s[i] != '/' && s[i] != '\\' && s[i] != '\0',
        forall|i: int| 0 <= i < s.len() ==> (s[i] as u32) < 128,
        s != seq!['.'],
        s != seq!['.', '.'],
        s[0] != '.' && s[0] != '-' && s[0] != '_',
        1 <= s.len() <= 64,
{
    assert forall|i: int| 0 <= i < s.len() implies s[i] != '/' && s[i] != '\\' && s[i] != '\0'
        && (s[i] as u32) < 128 by {
        if i >= 1 {
            assert(is_ascii_alnum(s[i]) || is_name_punct(s[i]));
        }
    }
    if s == seq!['.'] {
        assert(s[0] == '.');
    }
    if s == seq!['.', '.'] {
        assert(s[0] == '.');
    }
}

} // verus!
