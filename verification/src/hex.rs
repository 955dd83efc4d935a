//! Hex text forms of the 32-byte identifiers that the indexer uses: object
//! and slab IDs and sector roots (`Hash256`), and host keys (`PublicKey`,
//! written with an `ed25519:` prefix).
//!
//! Formatting and parsing are done by `sia_core`; this module states what
//! they compute and proves that a formatted identifier parses back to the
//! same bytes.
use vstd::prelude::*;

use hex::FromHexError;
use sia_core::types::HexParseError;

verus! {

/// Why text is not a well-formed identifier: one variant for each way
/// `sia_core`'s `HexParseError` (and, inside it, `hex`'s `FromHexError`)
/// can report it, with the same fields.
#[derive(Debug, PartialEq, Eq)]
pub enum HexFault {
    MissingPrefix,
    InvalidLength(usize),
    InvalidPrefix(String),
    InvalidChecksum,
    InvalidHexCharacter(char, usize),
    OddLength,
    InvalidStringLength,
}

/// Whether every character of `s` is ASCII, so that its characters are its bytes.
pub open spec fn is_ascii_text(s: Seq<char>) -> bool {
    forall|i: int| 0 <= i < s.len() ==> (#[trigger] s[i] as int) < 128
}

/// The position of the first character of `t` that is not a hex digit
/// (`t.len()` if there is none).
pub open spec fn first_non_hex(t: Seq<char>) -> int
    decreases t.len(),
{
    if t.len() == 0 {
        0
    } else if !is_hex_char(t[0]) {
        0
    } else {
        1 + first_non_hex(t.skip(1))
    }
}

/// The part of `s` that `Hash256::from_str` reads as hex: what follows
/// the first `:`, or all of `s`.
pub open spec fn hash256_digits(s: Seq<char>) -> Seq<char> {
    match after_first(s, ':') {
        Some(rest) => rest,
        None => s,
    }
}

/// Why `Hash256::from_str` refuses the ASCII text `s`: the hex part is not
/// 64 characters long, or else its first character that is not a hex digit.
pub open spec fn spec_hash256_fault(s: Seq<char>) -> HexFault {
    let t = hash256_digits(s);
    if t.len() != 64 {
        HexFault::InvalidLength(t.len() as usize)
    } else {
        HexFault::InvalidHexCharacter(t[first_non_hex(t)], first_non_hex(t) as usize)
    }
}

/// Why `PublicKey::from_str` refuses the text `s` (ASCII, past the prefix
/// check): no `ed25519:` prefix, an odd number of digits after it, a number
/// other than 64, or else the first character that is not a hex digit.
pub open spec fn spec_public_key_fault(s: Seq<char>) -> HexFault {
    if !(s.len() >= 8 && s.take(8) == ed25519_prefix()) {
        HexFault::MissingPrefix
    } else {
        let t = s.skip(8);
        if t.len() % 2 != 0 {
            HexFault::OddLength
        } else if t.len() != 64 {
            HexFault::InvalidStringLength
        } else {
            HexFault::InvalidHexCharacter(t[first_non_hex(t)], first_non_hex(t) as usize)
        }
    }
}

/// The decimal digits of `n`, without leading zeros.
pub open spec fn decimal(n: nat) -> Seq<char>
    decreases n,
{
    if n < 10 {
        seq![(48 + n) as char]
    } else {
        decimal(n / 10) + seq![(48 + n % 10) as char]
    }
}

/// A printable ASCII character that `char`'s `Debug` writes as itself
/// (everything from space to `~` but the quote `'` and the backslash).
pub open spec fn plain_char(c: char) -> bool {
    &&& 32 <= c as int <= 126
    &&& c != '\''
    &&& c != '\\'
}

/// The `Display` text of a fault, as `sia_core` and `hex` write it.
pub open spec fn hex_fault_message(f: HexFault) -> Seq<char> {
    match f {
        HexFault::MissingPrefix => "Missing prefix"@,
        HexFault::InvalidLength(_) => "Unexpected length"@,
        HexFault::InvalidPrefix(p) => "Invalid prefix "@ + p@,
        HexFault::InvalidChecksum => "Invalid checksum"@,
        HexFault::InvalidHexCharacter(c, i) => "Hex error: Invalid character '"@ + seq![c]
            + "' at position "@ + decimal(i as nat),
        HexFault::OddLength => "Hex error: Odd number of digits"@,
        HexFault::InvalidStringLength => "Hex error: Invalid string length"@,
    }
}

/// Whether [hex_fault_message] gives the text of `f`: always, but for a bad
/// character that `Debug` escapes.
pub open spec fn hex_fault_message_known(f: HexFault) -> bool {
    match f {
        HexFault::InvalidHexCharacter(c, _) => plain_char(c),
        _ => true,
    }
}

/// `d` is the message of the fault `f` found in the text `s`, where the
/// library states it: `s` is ASCII and the text of `f` is known.
pub open spec fn reports_fault(d: Seq<char>, s: Seq<char>, f: HexFault) -> bool {
    is_ascii_text(s) && hex_fault_message_known(f) ==> d == hex_fault_message(f)
}

/// The lower-case hex digit of a nibble.
pub open spec fn hex_digit(n: int) -> char {
    if n < 10 {
        (48 + n) as char
    } else {
        (87 + n) as char
    }
}

/// Whether `c` is a hex digit in either case.
pub open spec fn is_hex_char(c: char) -> bool {
    ||| 48 <= c as int <= 57
    ||| 97 <= c as int <= 102
    ||| 65 <= c as int <= 70
}

/// The value of a hex digit (meaningful where `is_hex_char(c)`).
pub open spec fn hex_value(c: char) -> int {
    if 48 <= c as int <= 57 {
        c as int - 48
    } else if 97 <= c as int <= 102 {
        c as int - 87
    } else {
        c as int - 55
    }
}

/// Lower-case hex encoding: two digits per byte, high nibble first.
pub open spec fn spec_hex_encode(b: Seq<u8>) -> Seq<char> {
    Seq::new(
        (2 * b.len()) as nat,
        |i: int|
            if i % 2 == 0 {
                hex_digit((b[i / 2] / 16) as int)
            } else {
                hex_digit((b[i / 2] % 16) as int)
            },
    )
}

/// Whether every character of `s` is a hex digit.
pub open spec fn all_hex(s: Seq<char>) -> bool {
    forall|i: int| 0 <= i < s.len() ==> is_hex_char(#[trigger] s[i])
}

/// The bytes that a string of hex digit pairs stands for.
pub open spec fn spec_hex_decode(s: Seq<char>) -> Seq<u8> {
    Seq::new(
        s.len() / 2,
        |i: int| (hex_value(s[2 * i]) * 16 + hex_value(s[2 * i + 1])) as u8,
    )
}

/// The text of `s` after its first occurrence of `c`, if `c` occurs.
pub open spec fn after_first(s: Seq<char>, c: char) -> Option<Seq<char>>
    decreases s.len(),
{
    if s.len() == 0 {
        None
    } else if s[0] == c {
        Some(s.skip(1))
    } else {
        after_first(s.skip(1), c)
    }
}

/// What `Hash256::from_str` accepts: an optional prefix ending in the first
/// `:`, then exactly 64 hex digits of either case.
pub open spec fn spec_parse_hash256(s: Seq<char>) -> Option<Seq<u8>> {
    let t = match after_first(s, ':') {
        Some(rest) => rest,
        None => s,
    };
    if t.len() == 64 && all_hex(t) {
        Some(spec_hex_decode(t))
    } else {
        None
    }
}

/// The prefix of a host key's text form.
pub open spec fn ed25519_prefix() -> Seq<char> {
    seq!['e', 'd', '2', '5', '5', '1', '9', ':']
}

/// The text form of a host key: the prefix, then the lower-case hex of its bytes.
pub open spec fn spec_public_key_text(b: Seq<u8>) -> Seq<char> {
    ed25519_prefix() + spec_hex_encode(b)
}

/// What `PublicKey::from_str` accepts: the `ed25519:` prefix, then exactly
/// 64 hex digits of either case.
pub open spec fn spec_parse_public_key(s: Seq<char>) -> Option<Seq<u8>> {
    if s.len() >= 8 && s.take(8) == ed25519_prefix() && s.len() == 72 && all_hex(s.skip(8)) {
        Some(spec_hex_decode(s.skip(8)))
    } else {
        None
    }
}

/// A hex digit decodes to the nibble it encodes.
pub proof fn lemma_hex_digit(n: int)
    requires
        0 <= n < 16,
    ensures
        is_hex_char(hex_digit(n)),
        hex_value(hex_digit(n)) == n,
        hex_digit(n) != ':',
{
}

/// The encoding of `b` has two hex digits per byte and no `:`.
pub proof fn lemma_encode_shape(b: Seq<u8>)
    ensures
        spec_hex_encode(b).len() == 2 * b.len(),
        all_hex(spec_hex_encode(b)),
        forall|i: int| 0 <= i < 2 * b.len() ==> #[trigger] spec_hex_encode(b)[i] != ':',
{
    let e = spec_hex_encode(b);
    assert forall|i: int| 0 <= i < e.len() implies is_hex_char(#[trigger] e[i]) && e[i] != ':' by {
        if i % 2 == 0 {
            lemma_hex_digit((b[i / 2] / 16) as int);
        } else {
            lemma_hex_digit((b[i / 2] % 16) as int);
        }
    }
}

/// Decoding the encoding of `b` gives `b` back.
pub proof fn lemma_decode_encode(b: Seq<u8>)
    ensures
        spec_hex_decode(spec_hex_encode(b)) == b,
{
    let e = spec_hex_encode(b);
    let d = spec_hex_decode(e);
    assert forall|i: int| 0 <= i < b.len() implies #[trigger] d[i] == b[i] by {
        assert((2 * i) / 2 == i);
        assert((2 * i + 1) / 2 == i);
        assert((2 * i) % 2 == 0);
        assert((2 * i + 1) % 2 == 1);
        lemma_hex_digit((b[i] / 16) as int);
        lemma_hex_digit((b[i] % 16) as int);
    }
    assert(d =~= b);
}

/// A text without `c` has nothing after a first `c`.
pub proof fn lemma_after_first_absent(s: Seq<char>, c: char)
    requires
        forall|i: int| 0 <= i < s.len() ==> s[i] != c,
    ensures
        after_first(s, c) is None,
    decreases s.len(),
{
    if s.len() > 0 {
        assert(s[0] != c);
        lemma_after_first_absent(s.skip(1), c);
    }
}

/// Law: the text form of a 32-byte hash parses back to the same bytes, so
/// an ID printed by the library can be handed back to it.
pub proof fn law_parse_hash256_of_text(b: Seq<u8>)
    requires
        b.len() == 32,
    ensures
        spec_parse_hash256(spec_hex_encode(b)) == Some(b),
{
    lemma_encode_shape(b);
    lemma_after_first_absent(spec_hex_encode(b), ':');
    lemma_decode_encode(b);
}

/// Law: the text form of a 32-byte host key parses back to the same bytes.
pub proof fn law_parse_public_key_of_text(b: Seq<u8>)
    requires
        b.len() == 32,
    ensures
        spec_parse_public_key(spec_public_key_text(b)) == Some(b),
{
    let s = spec_public_key_text(b);
    lemma_encode_shape(b);
    lemma_decode_encode(b);
    assert(s.take(8) =~= ed25519_prefix());
    assert(s.skip(8) =~= spec_hex_encode(b));
}

/// Whether `c` is a lower-case hex digit (`0`-`9`, `a`-`f`).
pub open spec fn is_lower_hex_char(c: char) -> bool {
    ||| 48 <= c as int <= 57
    ||| 97 <= c as int <= 102
}

/// Law: the hex text of `b` has two characters per byte, in the order of
/// the bytes: for each byte, first the lower-case digit of its high
/// nibble, then that of its low nibble.
pub proof fn law_hex_text_digits(b: Seq<u8>)
    ensures
        spec_hex_encode(b).len() == 2 * b.len(),
        forall|i: int|
            #![trigger b[i]]
            0 <= i < b.len() ==> is_lower_hex_char(spec_hex_encode(b)[2 * i]) && hex_value(
                spec_hex_encode(b)[2 * i],
            ) == b[i] / 16 && is_lower_hex_char(spec_hex_encode(b)[2 * i + 1]) && hex_value(
                spec_hex_encode(b)[2 * i + 1],
            ) == b[i] % 16,
{
    let e = spec_hex_encode(b);
    assert forall|i: int|
        #![trigger b[i]]
        0 <= i < b.len() implies is_lower_hex_char(e[2 * i]) && hex_value(e[2 * i]) == b[i] / 16
        && is_lower_hex_char(e[2 * i + 1]) && hex_value(e[2 * i + 1]) == b[i] % 16 by {
        assert((2 * i) / 2 == i);
        assert((2 * i + 1) / 2 == i);
        assert((2 * i) % 2 == 0);
        assert((2 * i + 1) % 2 == 1);
        lemma_hex_digit((b[i] / 16) as int);
        lemma_hex_digit((b[i] % 16) as int);
    }
}

/// Formats a hash as lower-case hex (`Hash256`'s `Display`).
#[verifier::external_body]
pub(crate) fn hash256_to_string(b: [u8; 32]) -> (s: String)
    ensures
        s@ == spec_hex_encode(b@),
{
    sia_core::types::Hash256::from(b).to_string()
}

/// Parses a hash from text (`Hash256::from_str`); returns its bytes, or
/// the error's variant and fields. `from_str` checks that the part after
/// the first `:` has 64 bytes, then `hex::decode_to_slice` reports the
/// first byte that is not a hex digit, so for ASCII text the error is
/// [spec_hash256_fault]. For other text the byte counts and the byte taken
/// as a character differ from the characters, and that is left unsaid.
#[verifier::external_body]
pub(crate) fn hash256_from_str(s: &str) -> (r: Result<[u8; 32], HexFault>)
    ensures
        r is Ok <==> spec_parse_hash256(s@) is Some,
        r matches Ok(b) ==> spec_parse_hash256(s@) == Some(b@),
        r is Err && is_ascii_text(s@) ==> r->Err_0 == spec_hash256_fault(s@),
{
    match <sia_core::types::Hash256 as std::str::FromStr>::from_str(s) {
        Ok(h) => Ok(h.into()),
        Err(HexParseError::MissingPrefix) => Err(HexFault::MissingPrefix),
        Err(HexParseError::InvalidLength(n)) => Err(HexFault::InvalidLength(n)),
        Err(HexParseError::InvalidPrefix(p)) => Err(HexFault::InvalidPrefix(p)),
        Err(HexParseError::InvalidChecksum) => Err(HexFault::InvalidChecksum),
        Err(HexParseError::HexError(FromHexError::InvalidHexCharacter { c, index })) => Err(HexFault::InvalidHexCharacter(c, index)),
        Err(HexParseError::HexError(FromHexError::OddLength)) => Err(HexFault::OddLength),
        Err(HexParseError::HexError(FromHexError::InvalidStringLength)) => Err(HexFault::InvalidStringLength),
    }
}

/// Formats a host key as `ed25519:` followed by lower-case hex (`PublicKey`'s `Display`).
#[verifier::external_body]
pub(crate) fn public_key_to_string(b: [u8; 32]) -> (s: String)
    ensures
        s@ == spec_public_key_text(b@),
{
    sia_core::signing::PublicKey::new(b).to_string()
}

/// Parses a host key from text (`PublicKey::from_str`); returns its bytes,
/// or the error's variant and fields. `from_str` strips the `ed25519:`
/// prefix (`MissingPrefix` without it, whatever the text), then
/// `hex::decode_to_slice` checks for an even number of bytes, then for 64,
/// then reports the first byte that is not a hex digit, so for ASCII text
/// the error is [spec_public_key_fault]. For other text the byte counts
/// and the byte taken as a character are left unsaid.
#[verifier::external_body]
pub(crate) fn public_key_from_str(s: &str) -> (r: Result<[u8; 32], HexFault>)
    ensures
        r is Ok <==> spec_parse_public_key(s@) is Some,
        r matches Ok(b) ==> spec_parse_public_key(s@) == Some(b@),
        r is Err && is_ascii_text(s@) ==> r->Err_0 == spec_public_key_fault(s@),
        !(s@.len() >= 8 && s@.take(8) == ed25519_prefix()) ==> (r is Err && r->Err_0
            == HexFault::MissingPrefix),
{
    match <sia_core::signing::PublicKey as std::str::FromStr>::from_str(s) {
        Ok(k) => Ok(k.into()),
        Err(HexParseError::MissingPrefix) => Err(HexFault::MissingPrefix),
        Err(HexParseError::InvalidLength(n)) => Err(HexFault::InvalidLength(n)),
        Err(HexParseError::InvalidPrefix(p)) => Err(HexFault::InvalidPrefix(p)),
        Err(HexParseError::InvalidChecksum) => Err(HexFault::InvalidChecksum),
        Err(HexParseError::HexError(FromHexError::InvalidHexCharacter { c, index })) => Err(HexFault::InvalidHexCharacter(c, index)),
        Err(HexParseError::HexError(FromHexError::OddLength)) => Err(HexFault::OddLength),
        Err(HexParseError::HexError(FromHexError::InvalidStringLength)) => Err(HexFault::InvalidStringLength),
    }
}

/// The message of a hex parse error: `HexParseError`'s `Display` of the
/// error with the variant and fields of `f`. `thiserror` writes the texts of
/// [hex_fault_message]; a bad character is written by `char`'s `Debug`,
/// which quotes a plain character and escapes the others (what it writes
/// for those is left unsaid), and its position in decimal.
#[verifier::external_body]
pub(crate) fn hex_fault_text(f: HexFault) -> (r: String)
    ensures
        hex_fault_message_known(f) ==> r@ == hex_fault_message(f),
{
    let e = match f {
        HexFault::MissingPrefix => HexParseError::MissingPrefix,
        HexFault::InvalidLength(n) => HexParseError::InvalidLength(n),
        HexFault::InvalidPrefix(p) => HexParseError::InvalidPrefix(p),
        HexFault::InvalidChecksum => HexParseError::InvalidChecksum,
        HexFault::InvalidHexCharacter(c, index) => HexParseError::HexError(FromHexError::InvalidHexCharacter { c, index }),
        HexFault::OddLength => HexParseError::HexError(FromHexError::OddLength),
        HexFault::InvalidStringLength => HexParseError::HexError(FromHexError::InvalidStringLength),
    };
    format!("{e}")
}

} // verus!
