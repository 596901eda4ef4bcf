//! Verified text building: hexadecimal and decimal rendering, ASCII case
//! folding, and percent-encoding for the pairing URL.

use vstd::prelude::*;

verus! {

use vstd::string::StringSliceAdditionalSpecFns;

/// Relies on std's String::push: appends the given character to the string.
pub assume_specification[ String::push ](s: &mut String, ch: char)
    ensures
        final(s)@ == old(s)@.push(ch),
;

/// The sixteen lowercase hexadecimal digit characters, in value order.
pub open spec fn hex_chars_lower() -> Seq<char> {
    seq!['0', '1', '2', '3', '4', '5', '6', '7', '8', '9', 'a', 'b', 'c', 'd', 'e', 'f']
}

/// The sixteen uppercase hexadecimal digit characters, in value order.
pub open spec fn hex_chars_upper() -> Seq<char> {
    seq!['0', '1', '2', '3', '4', '5', '6', '7', '8', '9', 'A', 'B', 'C', 'D', 'E', 'F']
}

/// Two lowercase hex characters spelling the byte, high nibble first.
pub open spec fn hex_pair_lower(b: u8) -> Seq<char> {
    seq![hex_chars_lower()[b as int / 16], hex_chars_lower()[b as int % 16]]
}

/// Two uppercase hex characters spelling the byte, high nibble first.
pub open spec fn hex_pair_upper(b: u8) -> Seq<char> {
    seq![hex_chars_upper()[b as int / 16], hex_chars_upper()[b as int % 16]]
}

/// The lowercase hex digit for a nibble value.
pub fn hex_char_lower(n: u8) -> (c: char)
    requires
        n < 16,
    ensures
        c == hex_chars_lower()[n as int],
{
    match n {
        0 => '0',
        1 => '1',
        2 => '2',
        3 => '3',
        4 => '4',
        5 => '5',
        6 => '6',
        7 => '7',
        8 => '8',
        9 => '9',
        10 => 'a',
        11 => 'b',
        12 => 'c',
        13 => 'd',
        14 => 'e',
        _ => 'f',
    }
}

/// The uppercase hex digit for a nibble value.
pub fn hex_char_upper(n: u8) -> (c: char)
    requires
        n < 16,
    ensures
        c == hex_chars_upper()[n as int],
{
    match n {
        0 => '0',
        1 => '1',
        2 => '2',
        3 => '3',
        4 => '4',
        5 => '5',
        6 => '6',
        7 => '7',
        8 => '8',
        9 => '9',
        10 => 'A',
        11 => 'B',
        12 => 'C',
        13 => 'D',
        14 => 'E',
        _ => 'F',
    }
}

/// Appends the two lowercase hex digits of a byte.
pub fn push_hex_byte_lower(s: &mut String, b: u8)
    ensures
        final(s)@ == old(s)@ + hex_pair_lower(b),
{
    s.push(hex_char_lower(b / 16));
    s.push(hex_char_lower(b % 16));
    assert(final(s)@ =~= old(s)@ + hex_pair_lower(b));
}

/// Appends the two uppercase hex digits of a byte.
pub fn push_hex_byte_upper(s: &mut String, b: u8)
    ensures
        final(s)@ == old(s)@ + hex_pair_upper(b),
{
    s.push(hex_char_upper(b / 16));
    s.push(hex_char_upper(b % 16));
    assert(final(s)@ =~= old(s)@ + hex_pair_upper(b));
}

/// The decimal digit character for a value below ten.
pub open spec fn dec_char(d: int) -> char {
    hex_chars_lower()[d]
}

/// The decimal digit character of a value below ten.
pub fn dec_char_exec(d: u8) -> (c: char)
    requires
        d < 10,
    ensures
        c == dec_char(d as int),
{
    hex_char_lower(d)
}

/// The shortest decimal rendering of a nonnegative integer.
pub open spec fn dec_str(n: int) -> Seq<char>
    decreases n,
{
    if n < 10 {
        seq![dec_char(n)]
    } else {
        dec_str(n / 10).push(dec_char(n % 10))
    }
}

/// Appends the decimal rendering of `n`.
pub fn push_u32_decimal(s: &mut String, n: u32)
    ensures
        final(s)@ == old(s)@ + dec_str(n as int),
    decreases n,
{
    if n < 10 {
        s.push(dec_char_exec(n as u8));
        assert(final(s)@ =~= old(s)@ + dec_str(n as int));
    } else {
        push_u32_decimal(s, n / 10);
        s.push(dec_char_exec((n % 10) as u8));
        assert(final(s)@ =~= old(s)@ + dec_str(n as int));
    }
}

/// The decimal rendering of `n` as a fresh string.
pub fn u32_to_decimal(n: u32) -> (r: String)
    ensures
        r@ == dec_str(n as int),
{
    let mut s = String::new();
    push_u32_decimal(&mut s, n);
    assert(s@ =~= dec_str(n as int));
    s
}

/// The six-digit decimal rendering of a PIN value, leading zeros kept.
pub open spec fn pin_str(n: int) -> Seq<char> {
    seq![
        dec_char(n / 100000 % 10),
        dec_char(n / 10000 % 10),
        dec_char(n / 1000 % 10),
        dec_char(n / 100 % 10),
        dec_char(n / 10 % 10),
        dec_char(n % 10),
    ]
}

/// Renders a PIN value as exactly six decimal digits with leading zeros.
pub fn format_pin(n: u32) -> (r: String)
    requires
        n < 1000000,
    ensures
        r@ == pin_str(n as int),
        r@.len() == 6,
{
    let mut s = String::new();
    s.push(dec_char_exec((n / 100000 % 10) as u8));
    s.push(dec_char_exec((n / 10000 % 10) as u8));
    s.push(dec_char_exec((n / 1000 % 10) as u8));
    s.push(dec_char_exec((n / 100 % 10) as u8));
    s.push(dec_char_exec((n / 10 % 10) as u8));
    s.push(dec_char_exec((n % 10) as u8));
    assert(s@ =~= pin_str(n as int));
    s
}

/// ASCII lowercase of one byte.
pub open spec fn ascii_lower(b: u8) -> u8 {
    if 65 <= b <= 90 {
        (b + 32) as u8
    } else {
        b
    }
}

/// ASCII lowercase of a byte sequence.
pub open spec fn ascii_lower_bytes(s: Seq<u8>) -> Seq<u8> {
    s.map_values(|b: u8| ascii_lower(b))
}

/// Lowercases the ASCII letters of a byte slice.
pub fn to_ascii_lower(s: &[u8]) -> (r: Vec<u8>)
    ensures
        r@ == ascii_lower_bytes(s@),
{
    let mut r: Vec<u8> = Vec::new();
    let mut i: usize = 0;
    while i < s.len()
        invariant
            i <= s@.len(),
            r@ == ascii_lower_bytes(s@.take(i as int)),
        decreases s@.len() - i,
    {
        let b = s[i];
        if 65 <= b && b <= 90 {
            r.push(b + 32);
        } else {
            r.push(b);
        }
        assert(r@ =~= ascii_lower_bytes(s@.take(i as int + 1)));
        i = i + 1;
    }
    assert(s@.take(s@.len() as int) =~= s@);
    r
}

/// Whether two byte slices hold the same bytes.
pub fn bytes_eq(a: &[u8], b: &[u8]) -> (r: bool)
    ensures
        r == (a@ =~= b@),
{
    if a.len() != b.len() {
        return false;
    }
    let mut i: usize = 0;
    while i < a.len()
        invariant
            i <= a@.len(),
            a@.len() == b@.len(),
            forall|j: int| 0 <= j < i ==> a@[j] == b@[j],
        decreases a@.len() - i,
    {
        if a[i] != b[i] {
            return false;
        }
        i = i + 1;
    }
    true
}

/// Bytes left unchanged by percent-encoding: ASCII letters, digits,
/// `-`, `_`, `.` and `~`.
pub open spec fn is_unreserved(b: u8) -> bool {
    (65 <= b <= 90) || (97 <= b <= 122) || (48 <= b <= 57) || b == 45 || b == 95 || b == 46
        || b == 126
}

/// Percent-encoding of one byte: itself when unreserved, else `%` and
/// two uppercase hex digits.
pub open spec fn url_encode_byte(b: u8) -> Seq<char> {
    if is_unreserved(b) {
        seq![b as char]
    } else {
        seq!['%'] + hex_pair_upper(b)
    }
}

/// Percent-encoding of a byte sequence.
pub open spec fn url_encode_bytes(s: Seq<u8>) -> Seq<char>
    decreases s.len(),
{
    if s.len() == 0 {
        Seq::empty()
    } else {
        url_encode_byte(s[0]) + url_encode_bytes(s.drop_first())
    }
}

proof fn lemma_url_encode_push(s: Seq<u8>, x: u8)
    ensures
        url_encode_bytes(s.push(x)) == url_encode_bytes(s) + url_encode_byte(x),
    decreases s.len(),
{
    if s.len() == 0 {
        assert(s.push(x)[0] == x);
        assert(s.push(x).drop_first() =~= Seq::<u8>::empty());
        assert(url_encode_bytes(Seq::<u8>::empty()) == Seq::<char>::empty());
        assert(url_encode_bytes(s.push(x)) == url_encode_byte(x) + Seq::<char>::empty());
        assert(url_encode_bytes(s) == Seq::<char>::empty());
        assert(url_encode_byte(x) + Seq::<char>::empty() =~= Seq::<char>::empty()
            + url_encode_byte(x));
    } else {
        assert(s.push(x).drop_first() =~= s.drop_first().push(x));
        assert(s.push(x)[0] == s[0]);
        lemma_url_encode_push(s.drop_first(), x);
        assert(url_encode_bytes(s.push(x)) == url_encode_byte(s[0]) + (url_encode_bytes(
            s.drop_first(),
        ) + url_encode_byte(x)));
        assert(url_encode_byte(s[0]) + (url_encode_bytes(s.drop_first()) + url_encode_byte(x)) =~= (
        url_encode_byte(s[0]) + url_encode_bytes(s.drop_first())) + url_encode_byte(x));
        assert(url_encode_bytes(s) == url_encode_byte(s[0]) + url_encode_bytes(s.drop_first()));
    }
}

/// Percent-encodes the UTF-8 bytes of a string for use inside the
/// pairing URL.
pub fn urlencoding(s: &str) -> (r: String)
    ensures
        r@ == url_encode_bytes(s.spec_bytes()),
{
    let bytes = s.as_bytes();
    let mut r = String::new();
    let mut i: usize = 0;
    while i < bytes.len()
        invariant
            i <= bytes@.len(),
            bytes@ == s.spec_bytes(),
            r@ == url_encode_bytes(bytes@.take(i as int)),
        decreases bytes@.len() - i,
    {
        let b = bytes[i];
        let ghost prefix = bytes@.take(i as int);
        if (65 <= b && b <= 90) || (97 <= b && b <= 122) || (48 <= b && b <= 57) || b == 45
            || b == 95 || b == 46 || b == 126 {
            r.push(b as char);
        } else {
            r.push('%');
            push_hex_byte_upper(&mut r, b);
        }
        proof {
            lemma_url_encode_push(prefix, b);
            assert(bytes@.take(i as int + 1) =~= prefix.push(bytes@[i as int]));
            assert(r@ =~= url_encode_bytes(bytes@.take(i as int + 1)));
        }
        i = i + 1;
    }
    proof {
        assert(bytes@.take(bytes@.len() as int) =~= bytes@);
    }
    r
}

/// Percent-encodes a string; the same encoding as `urlencoding`.
pub fn encode(s: &str) -> (r: String)
    ensures
        r@ == url_encode_bytes(s.spec_bytes()),
{
    urlencoding(s)
}


/// Two strings whose UTF-8 bytes agree hold the same characters.
pub proof fn lemma_utf8_eq(a: Seq<char>, b: Seq<char>)
    requires
        vstd::utf8::encode_utf8(a) == vstd::utf8::encode_utf8(b),
    ensures
        a == b,
{
    vstd::utf8::encode_utf8_decode_utf8(a);
    vstd::utf8::encode_utf8_decode_utf8(b);
}

} // verus!
