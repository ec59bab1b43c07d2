//! Text primitives over `Seq<char>`, and the trusted wrappers through which
//! the library reaches std's and the `uuid` crate's string functions.

use vstd::arithmetic::power::pow;
use vstd::prelude::*;

verus! {

/// `s` with every non-overlapping occurrence of the non-empty pattern `p`
/// replaced by `r`, scanning from the left: at each position either `p`
/// starts there (it is replaced and the scan resumes after it) or the
/// character is kept.
pub open spec fn replace_all(s: Seq<char>, p: Seq<char>, r: Seq<char>) -> Seq<char>
    decreases s.len(),
{
    if p.len() == 0 || s.len() < p.len() {
        s
    } else if s.take(p.len() as int) == p {
        r + replace_all(s.skip(p.len() as int), p, r)
    } else {
        seq![s[0]] + replace_all(s.skip(1), p, r)
    }
}

/// Whether every character of `s` is ASCII.
pub open spec fn all_ascii(s: Seq<char>) -> bool {
    forall|i: int| 0 <= i < s.len() ==> (#[trigger] s[i] as u32) < 128
}

/// ASCII lowercase of one character: `A`..=`Z` become `a`..=`z`, the rest
/// stays.
pub open spec fn ascii_lower_char(c: char) -> char {
    if 65 <= (c as u32) && (c as u32) <= 90 {
        ((c as u32) + 32) as char
    } else {
        c
    }
}

/// ASCII lowercase of a whole sequence, character by character.
pub open spec fn ascii_lower(s: Seq<char>) -> Seq<char> {
    s.map_values(|c: char| ascii_lower_char(c))
}

/// What std's `str::to_lowercase` returns for a string with these characters
/// (Unicode lowercase mapping).
pub uninterp spec fn lowercase(s: Seq<char>) -> Seq<char>;

/// The text of a decimal digit `0 <= d < 10`.
pub open spec fn digit_char(d: int) -> char {
    (48 + d) as char
}

/// The decimal digits of a natural number, most significant first, without
/// leading zeros (`0` is `"0"`).
pub open spec fn nat_digits(n: nat) -> Seq<char>
    decreases n,
{
    if n < 10 {
        seq![digit_char(n as int)]
    } else {
        nat_digits(n / 10).push(digit_char((n % 10) as int))
    }
}

/// How std formats an integer in decimal: a `-` for negative numbers, then
/// the digits of its magnitude.
pub open spec fn decimal_text(n: int) -> Seq<char> {
    if n < 0 {
        seq!['-'] + nat_digits((-n) as nat)
    } else {
        nat_digits(n as nat)
    }
}

/// What std's `Debug` for `str` writes for a string with these characters:
/// the string in double quotes with `escape_debug` applied to each character.
pub uninterp spec fn str_debug(s: Seq<char>) -> Seq<char>;

/// Printable ASCII that `escape_debug` leaves as it is inside a string.
pub open spec fn plain_debug_char(c: char) -> bool {
    32 <= (c as u32) && (c as u32) < 127 && c != '"' && c != '\\'
}

/// A lowercase hexadecimal digit `0 <= d < 16`.
pub open spec fn hex_lower(d: int) -> char {
    if d < 10 {
        (48 + d) as char
    } else {
        (87 + d) as char
    }
}

/// The `k`-th hexadecimal digit (from the most significant one, `0 <= k < 32`)
/// of a 128-bit number.
pub open spec fn nibble(x: u128, k: int) -> int {
    (x as int / pow(16, (31 - k) as nat)) % 16
}

/// How many hyphens the hyphenated UUID form has before position `i`.
pub open spec fn hyphens_before(i: int) -> int {
    if i < 8 {
        0
    } else if i < 13 {
        1
    } else if i < 18 {
        2
    } else if i < 23 {
        3
    } else {
        4
    }
}

/// The hyphenated lowercase form of the UUID whose 128 bits, most significant
/// first, are `x`: 32 hexadecimal digits in groups of 8-4-4-4-12.
pub open spec fn uuid_hyphenated(x: u128) -> Seq<char> {
    Seq::new(
        36,
        |i: int|
            if i == 8 || i == 13 || i == 18 || i == 23 {
                '-'
            } else {
                hex_lower(nibble(x, i - hyphens_before(i)))
            },
    )
}

/// Calls std's `str::replace`. Its documentation: it returns a new `String`
/// with all matches of the pattern replaced; matches are found left to right
/// and do not overlap, which `replace_all` states. An empty pattern (which
/// matches between every pair of characters) is not admitted.
#[verifier::external_body]
pub(crate) fn replace_text(s: &str, from: &str, to: &str) -> (res: String)
    requires
        from@.len() > 0,
    ensures
        res@ == replace_all(s@, from@, to@),
{
    s.replace(from, to)
}

/// Calls std's `str::to_lowercase`. The result is named `lowercase`; what is
/// stated is that on ASCII input the Unicode lowercase mapping is the ASCII
/// one, character by character. Its result on other characters is not stated.
#[verifier::external_body]
pub(crate) fn to_lowercase_text(s: &str) -> (res: String)
    ensures
        res@ == lowercase(s@),
        all_ascii(s@) ==> res@ == ascii_lower(s@),
{
    s.to_lowercase()
}

/// Calls `==` on two `str`s (std's `PartialEq` for `str`), which compares
/// their characters.
#[verifier::external_body]
pub(crate) fn str_eq(a: &str, b: &str) -> (res: bool)
    ensures
        res == (a@ == b@),
{
    a == b
}

/// Calls std's `to_string` (`Display`) on an `i128`, which writes it in
/// decimal.
#[verifier::external_body]
pub(crate) fn decimal_string(n: i128) -> (res: String)
    ensures
        res@ == decimal_text(n as int),
{
    n.to_string()
}

/// Calls std's `Debug` for `str` (`format!("{:?}", s)`). The result is named
/// `str_debug`; what is stated is that a string of printable ASCII other than
/// `"` and `\` comes out between double quotes unchanged. Escapes of other
/// characters are not stated.
#[verifier::external_body]
pub(crate) fn debug_string(s: &str) -> (res: String)
    ensures
        res@ == str_debug(s@),
        (forall|i: int| 0 <= i < s@.len() ==> plain_debug_char(#[trigger] s@[i])) ==> res@
            == seq!['"'] + s@ + seq!['"'],
{
    format!("{:?}", s)
}

/// Calls `uuid::Uuid::from_u128` then its `Display` (`to_string`), which the
/// crate's source writes as the hyphenated lowercase form of the UUID's 16
/// bytes, most significant byte first.
#[verifier::external_body]
pub(crate) fn uuid_string(x: u128) -> (res: String)
    ensures
        res@ == uuid_hyphenated(x),
{
    uuid::Uuid::from_u128(x).to_string()
}

} // verus!

