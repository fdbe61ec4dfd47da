//! Character-level text helpers: decimal and hexadecimal rendering, ASCII case folding,
//! whitespace trimming and numeric parsing with the semantics of Rust's `from_str_radix`.

use vstd::prelude::*;
use crate::scan::{digit_value, digits_value, lemma_digits_value_push, parse_unsigned, unsigned_body};

verus! {

/// The character of a digit value in bases up to 16 (upper-case letters above 9).
pub open spec fn digit_char(d: int) -> char {
    if d < 10 {
        (48 + d) as char
    } else {
        (55 + d) as char
    }
}

/// The decimal rendering of a natural number, without leading zeros.
pub open spec fn dec_chars(n: nat) -> Seq<char>
    decreases n,
{
    if n < 10 {
        seq![digit_char(n as int)]
    } else {
        dec_chars(n / 10).push(digit_char((n % 10) as int))
    }
}

/// The upper-case hexadecimal rendering of a natural number, without leading zeros.
pub open spec fn hex_chars(n: nat) -> Seq<char>
    decreases n,
{
    if n < 16 {
        seq![digit_char(n as int)]
    } else {
        hex_chars(n / 16).push(digit_char((n % 16) as int))
    }
}

/// `k` zero characters.
pub open spec fn zero_chars(k: nat) -> Seq<char> {
    Seq::new(k, |i: int| '0')
}

/// The upper-case hexadecimal rendering of `n`, left-padded with zeros to at least `width`
/// characters (the `{:0width$X}` format).
pub open spec fn hex_width(n: nat, width: nat) -> Seq<char> {
    let h = hex_chars(n);
    if h.len() < width {
        zero_chars((width - h.len()) as nat) + h
    } else {
        h
    }
}

/// Appends a character to a string.
///
/// Calls `String::push`, which the standard library documents as appending the given
/// character to the end of the string; the contract states exactly that.
#[verifier::external_body]
pub(crate) fn push_char(s: &mut String, c: char)
    ensures
        final(s)@ == old(s)@.push(c),
{
    s.push(c)
}

/// The character of a digit value below 16.
pub fn digit(d: u8) -> (r: char)
    requires
        d < 16,
    ensures
        r == digit_char(d as int),
{
    if d < 10 {
        (48u8 + d) as char
    } else {
        (55u8 + d) as char
    }
}

/// Appends the decimal rendering of `n` to `s`.
pub fn push_decimal(s: &mut String, n: u64)
    ensures
        final(s)@ == old(s)@ + dec_chars(n as nat),
    decreases n,
{
    if n >= 10 {
        push_decimal(s, n / 10);
    }
    let d = digit((n % 10) as u8);
    push_char(s, d);
    proof {
        assert(dec_chars(n as nat) == if n < 10 {
            seq![digit_char(n as int)]
        } else {
            dec_chars((n / 10) as nat).push(digit_char((n % 10) as int))
        });
    }
}

/// Appends the upper-case hexadecimal rendering of `n` (no padding) to `s`.
pub fn push_hex(s: &mut String, n: u64)
    ensures
        final(s)@ == old(s)@ + hex_chars(n as nat),
    decreases n,
{
    if n >= 16 {
        push_hex(s, n / 16);
    }
    let d = digit((n % 16) as u8);
    push_char(s, d);
    proof {
        assert(hex_chars(n as nat) == if n < 16 {
            seq![digit_char(n as int)]
        } else {
            hex_chars((n / 16) as nat).push(digit_char((n % 16) as int))
        });
    }
}

/// `16^k`.
pub open spec fn pow16(k: nat) -> nat
    decreases k,
{
    if k == 0 {
        1
    } else {
        16 * pow16((k - 1) as nat)
    }
}

/// A number below `16^k` has at most `k` hexadecimal digits.
pub proof fn lemma_hex_chars_len_bound(n: nat, k: nat)
    requires
        k >= 1,
        n < pow16(k),
    ensures
        hex_chars(n).len() <= k,
    decreases n,
{
    if n >= 16 {
        if k == 1 {
            assert(pow16(1) == 16 * pow16(0));
        } else {
            let p = pow16((k - 1) as nat);
            assert(n / 16 < p) by (nonlinear_arith)
                requires
                    n < 16 * p,
            ;
            lemma_hex_chars_len_bound(n / 16, (k - 1) as nat);
        }
    }
}

/// Every `u64` has at most sixteen hexadecimal digits.
pub proof fn lemma_u64_hex_len(n: u64)
    ensures
        hex_chars(n as nat).len() <= 16,
{
    reveal_with_fuel(pow16, 17);
    assert(pow16(16) == 0x1_0000_0000_0000_0000);
    lemma_hex_chars_len_bound(n as nat, 16);
}

/// The number of hexadecimal digits of `n`.
pub fn hex_len(n: u64) -> (r: usize)
    ensures
        r == hex_chars(n as nat).len(),
        1 <= r <= 16,
    decreases n,
{
    proof {
        lemma_u64_hex_len(n);
    }
    if n >= 16 {
        let k = hex_len(n / 16);
        k + 1
    } else {
        1
    }
}

/// Appends `n` in upper-case hexadecimal, zero-padded to at least `width` digits.
pub fn push_hex_width(s: &mut String, n: u64, width: usize)
    ensures
        final(s)@ == old(s)@ + hex_width(n as nat, width as nat),
{
    let len = hex_len(n);
    let ghost start = s@;
    if len < width {
        let pad = width - len;
        let mut i: usize = 0;
        while i < pad
            invariant
                i <= pad,
                s@ == start + zero_chars(i as nat),
            decreases pad - i,
        {
            push_char(s, '0');
            i = i + 1;
            proof {
                assert(zero_chars(i as nat) =~= zero_chars((i - 1) as nat).push('0'));
            }
        }
    }
    let ghost mid = s@;
    push_hex(s, n);
    proof {
        if len < width {
            assert(s@ =~= start + hex_width(n as nat, width as nat));
        } else {
            assert(s@ =~= start + hex_width(n as nat, width as nat));
        }
    }
}

/// ASCII lower-casing of one character.
pub open spec fn lower_char(c: char) -> char {
    if 'A' <= c && c <= 'Z' {
        ((c as int) + 32) as char
    } else {
        c
    }
}

/// ASCII upper-casing of one character.
pub open spec fn upper_char(c: char) -> char {
    if 'a' <= c && c <= 'z' {
        ((c as int) - 32) as char
    } else {
        c
    }
}

/// ASCII lower-casing of a character sequence (non-ASCII characters are kept).
pub open spec fn lower_chars(s: Seq<char>) -> Seq<char> {
    Seq::new(s.len(), |i: int| lower_char(s[i]))
}

/// ASCII upper-casing of a character sequence (non-ASCII characters are kept).
pub open spec fn upper_chars(s: Seq<char>) -> Seq<char> {
    Seq::new(s.len(), |i: int| upper_char(s[i]))
}

/// Equality of two character sequences up to ASCII case.
pub open spec fn eq_ignore_case(a: Seq<char>, b: Seq<char>) -> bool {
    lower_chars(a) == lower_chars(b)
}

/// ASCII lower-casing of one character.
pub fn to_lower(c: char) -> (r: char)
    ensures
        r == lower_char(c),
{
    if 'A' <= c && c <= 'Z' {
        ((c as u32) + 32) as u8 as char
    } else {
        c
    }
}

/// ASCII upper-casing of one character.
pub fn to_upper(c: char) -> (r: char)
    ensures
        r == upper_char(c),
{
    if 'a' <= c && c <= 'z' {
        ((c as u32) - 32) as u8 as char
    } else {
        c
    }
}

/// The characters of a string slice, as a vector.
pub fn chars_of(s: &str) -> (r: Vec<char>)
    ensures
        r@ == s@,
{
    let n = s.unicode_len();
    let mut r: Vec<char> = Vec::new();
    let mut i: usize = 0;
    while i < n
        invariant
            n == s@.len(),
            i <= n,
            r@ == s@.take(i as int),
        decreases n - i,
    {
        let c = s.get_char(i);
        r.push(c);
        i = i + 1;
        proof {
            assert(r@ =~= s@.take(i as int));
        }
    }
    proof {
        assert(r@ =~= s@);
    }
    r
}

/// A string holding exactly the given characters.
pub fn string_from_chars(cs: &[char]) -> (r: String)
    ensures
        r@ == cs@,
{
    let mut r = String::new();
    let mut i: usize = 0;
    while i < cs.len()
        invariant
            i <= cs@.len(),
            r@ == cs@.take(i as int),
        decreases cs@.len() - i,
    {
        push_char(&mut r, cs[i]);
        i = i + 1;
        proof {
            assert(r@ =~= cs@.take(i as int));
        }
    }
    proof {
        assert(r@ =~= cs@);
    }
    r
}

/// Equality of two string slices by content.
pub fn str_eq(a: &str, b: &str) -> (r: bool)
    ensures
        r == (a@ == b@),
{
    let ca = chars_of(a);
    let cb = chars_of(b);
    if ca.len() != cb.len() {
        return false;
    }
    let mut i: usize = 0;
    while i < ca.len()
        invariant
            ca@ == a@,
            cb@ == b@,
            ca@.len() == cb@.len(),
            i <= ca@.len(),
            forall|j: int| 0 <= j < i ==> #[trigger] a@[j] == b@[j],
        decreases ca@.len() - i,
    {
        if ca[i] != cb[i] {
            return false;
        }
        i = i + 1;
    }
    proof {
        assert(a@ =~= b@);
    }
    true
}

/// ASCII lower-casing of a string (the behaviour of `str::to_ascii_lowercase`).
pub fn to_ascii_lowercase(s: &str) -> (r: String)
    ensures
        r@ == lower_chars(s@),
{
    let cs = chars_of(s);
    let mut out: Vec<char> = Vec::new();
    let mut i: usize = 0;
    while i < cs.len()
        invariant
            cs@ == s@,
            i <= cs@.len(),
            out@ == lower_chars(s@.take(i as int)),
        decreases cs@.len() - i,
    {
        out.push(to_lower(cs[i]));
        i = i + 1;
        proof {
            assert(out@ =~= lower_chars(s@.take(i as int)));
        }
    }
    proof {
        assert(s@.take(s@.len() as int) =~= s@);
    }
    string_from_chars(out.as_slice())
}

/// ASCII upper-casing of a string.
pub fn to_ascii_uppercase(s: &str) -> (r: String)
    ensures
        r@ == upper_chars(s@),
{
    let cs = chars_of(s);
    let mut out: Vec<char> = Vec::new();
    let mut i: usize = 0;
    while i < cs.len()
        invariant
            cs@ == s@,
            i <= cs@.len(),
            out@ == upper_chars(s@.take(i as int)),
        decreases cs@.len() - i,
    {
        out.push(to_upper(cs[i]));
        i = i + 1;
        proof {
            assert(out@ =~= upper_chars(s@.take(i as int)));
        }
    }
    proof {
        assert(s@.take(s@.len() as int) =~= s@);
    }
    string_from_chars(out.as_slice())
}

/// Equality of two strings up to ASCII case (the behaviour of `str::eq_ignore_ascii_case`).
pub fn eq_ignore_ascii_case(a: &str, b: &str) -> (r: bool)
    ensures
        r == eq_ignore_case(a@, b@),
{
    let ca = chars_of(a);
    let cb = chars_of(b);
    if ca.len() != cb.len() {
        proof {
            assert(lower_chars(a@).len() != lower_chars(b@).len());
        }
        return false;
    }
    let mut i: usize = 0;
    while i < ca.len()
        invariant
            ca@ == a@,
            cb@ == b@,
            ca@.len() == cb@.len(),
            i <= ca@.len(),
            forall|j: int| 0 <= j < i ==> lower_char(#[trigger] a@[j]) == lower_char(b@[j]),
        decreases ca@.len() - i,
    {
        if to_lower(ca[i]) != to_lower(cb[i]) {
            proof {
                assert(lower_chars(a@)[i as int] != lower_chars(b@)[i as int]);
            }
            return false;
        }
        i = i + 1;
    }
    proof {
        assert(lower_chars(a@) =~= lower_chars(b@));
    }
    true
}

/// `s` without its trailing NUL characters (the behaviour of `trim_end_matches('\0')`).
pub open spec fn trim_trailing_nul(s: Seq<char>) -> Seq<char>
    decreases s.len(),
{
    if s.len() > 0 && s.last() == '\0' {
        trim_trailing_nul(s.drop_last())
    } else {
        s
    }
}

/// Removes the trailing NUL characters of a string.
pub fn trim_end_nul(s: &str) -> (r: String)
    ensures
        r@ == trim_trailing_nul(s@),
{
    let cs = chars_of(s);
    let mut n = cs.len();
    proof {
        assert(s@.take(n as int) =~= s@);
    }
    while n > 0 && cs[n - 1] == '\0'
        invariant
            cs@ == s@,
            n <= cs@.len(),
            trim_trailing_nul(s@) == trim_trailing_nul(s@.take(n as int)),
        decreases n,
    {
        proof {
            assert(s@.take(n as int).drop_last() =~= s@.take(n - 1));
        }
        n = n - 1;
    }
    proof {
        assert(trim_trailing_nul(s@.take(n as int)) == s@.take(n as int));
    }
    let mut out: Vec<char> = Vec::new();
    let mut i: usize = 0;
    while i < n
        invariant
            cs@ == s@,
            n <= cs@.len(),
            i <= n,
            out@ == s@.take(i as int),
        decreases n - i,
    {
        out.push(cs[i]);
        i = i + 1;
        proof {
            assert(out@ =~= s@.take(i as int));
        }
    }
    string_from_chars(out.as_slice())
}

/// Decodes bytes as UTF-8, or `None` when they are not valid UTF-8.
///
/// Calls `String::from_utf8`, which the standard library documents as succeeding exactly
/// on valid UTF-8 and then holding the decoded characters; the contract states that over
/// vstd's model of UTF-8.
#[verifier::external_body]
pub(crate) fn utf8_decode(bytes: Vec<u8>) -> (r: Option<String>)
    ensures
        r is Some <==> vstd::utf8::valid_utf8(bytes@),
        r matches Some(s) ==> s@ == vstd::utf8::decode_utf8(bytes@),
{
    String::from_utf8(bytes).ok()
}

/// The upper-case hexadecimal rendering of bytes, two digits per byte, high nibble first.
pub open spec fn hex_upper(bytes: Seq<u8>) -> Seq<char> {
    Seq::new(
        2 * bytes.len(),
        |i: int|
            if i % 2 == 0 {
                digit_char(bytes[i / 2] as int / 16)
            } else {
                digit_char(bytes[i / 2] as int % 16)
            },
    )
}

/// Renders bytes in upper-case hexadecimal.
///
/// Calls `hex::encode_upper`, which writes each byte as two characters of
/// `0123456789ABCDEF`, high nibble first; the contract states exactly that.
#[verifier::external_body]
pub(crate) fn encode_upper(bytes: &[u8]) -> (r: String)
    ensures
        r@ == hex_upper(bytes@),
{
    hex::encode_upper(bytes)
}

/// The lower-case hexadecimal rendering of bytes, two digits per byte, high nibble first.
pub open spec fn hex_lower(bytes: Seq<u8>) -> Seq<char> {
    lower_chars(hex_upper(bytes))
}

/// Renders bytes in lower-case hexadecimal.
///
/// Calls `hex::encode`, which writes each byte as two characters of `0123456789abcdef`,
/// high nibble first; the contract states exactly that.
#[verifier::external_body]
pub(crate) fn encode_lower(bytes: &[u8]) -> (r: String)
    ensures
        r@ == hex_lower(bytes@),
{
    hex::encode(bytes)
}

/// The bytes a hexadecimal text stands for, or `None` when its length is odd or a
/// character is not a hexadecimal digit (either case accepted).
pub open spec fn hex_decoded(s: Seq<char>) -> Option<Seq<u8>> {
    if s.len() % 2 == 0 && forall|i: int| 0 <= i < s.len() ==> (#[trigger] digit_value(s[i])) is Some {
        Some(
            Seq::new(
                s.len() / 2,
                |j: int|
                    (digit_value(s[2 * j]).unwrap() * 16 + digit_value(s[2 * j + 1]).unwrap()) as u8,
            ),
        )
    } else {
        None
    }
}

/// The value of the digit character of a value below 16 is that value.
pub proof fn lemma_digit_char_value(d: int)
    requires
        0 <= d < 16,
    ensures
        digit_value(digit_char(d)) == Some(d as nat),
{
}

/// Decoding the upper-case hexadecimal rendering of bytes gives the bytes back.
pub proof fn law_hex_round_trip(bytes: Seq<u8>)
    ensures
        hex_decoded(hex_upper(bytes)) == Some(bytes),
{
    let h = hex_upper(bytes);
    assert forall|i: int| 0 <= i < h.len() implies (#[trigger] digit_value(h[i])) is Some by {
        if i % 2 == 0 {
            lemma_digit_char_value(bytes[i / 2] as int / 16);
        } else {
            lemma_digit_char_value(bytes[i / 2] as int % 16);
        }
    }
    assert(h.len() % 2 == 0);
    let d = hex_decoded(h).unwrap();
    assert forall|j: int| 0 <= j < bytes.len() implies d[j] == bytes[j] by {
        assert((2 * j) / 2 == j);
        assert((2 * j + 1) / 2 == j);
        assert((2 * j) % 2 == 0);
        assert((2 * j + 1) % 2 == 1);
        lemma_digit_char_value(bytes[j] as int / 16);
        lemma_digit_char_value(bytes[j] as int % 16);
    }
    assert(d =~= bytes);
}

/// Decodes hexadecimal text into bytes.
///
/// Calls `hex::decode`, which refuses input of odd length or with a character outside
/// `0-9`, `a-f`, `A-F`, and otherwise turns each pair of digits into one byte, high nibble
/// first; the contract states exactly that (the kind of error is dropped).
#[verifier::external_body]
pub(crate) fn hex_decode(s: &str) -> (r: Option<Vec<u8>>)
    ensures
        r is Some <==> hex_decoded(s@) is Some,
        r matches Some(v) ==> hex_decoded(s@) == Some(v@),
{
    hex::decode(s).ok()
}

/// An upper-case hexadecimal digit.
pub open spec fn is_upper_hex_char(c: char) -> bool {
    ('0' <= c && c <= '9') || ('A' <= c && c <= 'F')
}

/// Every character of `s` is an upper-case hexadecimal digit.
pub open spec fn is_upper_hex_text(s: Seq<char>) -> bool {
    forall|i: int| 0 <= i < s.len() ==> is_upper_hex_char(#[trigger] s[i])
}

/// The hexadecimal rendering of a number is upper-case hexadecimal digits, at least one.
pub proof fn lemma_hex_chars_text(n: nat)
    ensures
        is_upper_hex_text(hex_chars(n)),
        hex_chars(n).len() >= 1,
    decreases n,
{
    if n >= 16 {
        lemma_hex_chars_text(n / 16);
    }
}

/// The padded hexadecimal rendering of a number is upper-case hexadecimal digits.
pub proof fn lemma_hex_width_text(n: nat, width: nat)
    ensures
        is_upper_hex_text(hex_width(n, width)),
        hex_width(n, width).len() >= 1,
{
    lemma_hex_chars_text(n);
    let h = hex_chars(n);
    if h.len() < width {
        let z = zero_chars((width - h.len()) as nat);
        let t = z + h;
        assert forall|i: int| 0 <= i < t.len() implies is_upper_hex_char(#[trigger] t[i]) by {
            if i < z.len() {
            } else {
                assert(t[i] == h[i - z.len()]);
            }
        }
    }
}

/// The byte rendering is upper-case hexadecimal digits.
pub proof fn lemma_hex_upper_text(bytes: Seq<u8>)
    ensures
        is_upper_hex_text(hex_upper(bytes)),
{
}

/// Read back as a base-16 number, the rendering of `n` is `n`.
pub proof fn lemma_hex_chars_value(n: nat)
    ensures
        digits_value(hex_chars(n), 16) == n,
    decreases n,
{
    if n >= 16 {
        lemma_hex_chars_value(n / 16);
        lemma_digits_value_push(hex_chars(n / 16), digit_char((n % 16) as int), 16);
        lemma_digit_char_value((n % 16) as int);
    } else {
        lemma_digit_char_value(n as int);
        lemma_digits_value_push(Seq::<char>::empty(), digit_char(n as int), 16);
        assert(Seq::<char>::empty().push(digit_char(n as int)) =~= seq![digit_char(n as int)]);
    }
}

proof fn lemma_zero_prefix_value(k: nat, h: Seq<char>)
    ensures
        digits_value(zero_chars(k) + h, 16) == digits_value(h, 16),
    decreases h.len(),
{
    if h.len() == 0 {
        lemma_zeros_value(k);
        assert(zero_chars(k) + h =~= zero_chars(k));
    } else {
        lemma_zero_prefix_value(k, h.drop_last());
        assert((zero_chars(k) + h) =~= (zero_chars(k) + h.drop_last()).push(h.last()));
        assert(h =~= h.drop_last().push(h.last()));
        lemma_digits_value_push(zero_chars(k) + h.drop_last(), h.last(), 16);
        lemma_digits_value_push(h.drop_last(), h.last(), 16);
    }
}

proof fn lemma_zeros_value(k: nat)
    ensures
        digits_value(zero_chars(k), 16) == 0,
    decreases k,
{
    if k > 0 {
        lemma_zeros_value((k - 1) as nat);
        assert(zero_chars(k) =~= zero_chars((k - 1) as nat).push('0'));
        lemma_digits_value_push(zero_chars((k - 1) as nat), '0', 16);
    }
}

/// Parsed as a base-16 number, the padded rendering of a 32-bit number is that number.
pub proof fn lemma_parse_hex_width(n: u32, width: nat)
    ensures
        parse_unsigned(hex_width(n as nat, width), 16, 0xFFFF_FFFF) == Some(n as nat),
{
    let t = hex_width(n as nat, width);
    lemma_hex_width_text(n as nat, width);
    assert(t[0] != '+');
    assert(unsigned_body(t) == t);
    assert forall|i: int| 0 <= i < t.len() implies crate::scan::is_radix_digit(#[trigger] t[i], 16) by {
        assert(is_upper_hex_char(t[i]));
    }
    lemma_hex_chars_value(n as nat);
    let h = hex_chars(n as nat);
    if h.len() < width {
        lemma_zero_prefix_value((width - h.len()) as nat, h);
    }
}

} // verus!
