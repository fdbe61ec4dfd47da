//! Scanning text: Unicode whitespace trimming, substring search, splitting at separators,
//! and integer parsing with the rules of Rust's `from_str_radix`.

use vstd::prelude::*;
use crate::text::{chars_of, string_from_chars};

verus! {

/// The Unicode `White_Space` property, which `char::is_whitespace` tests.
pub open spec fn is_ws(c: char) -> bool {
    let n = c as u32;
    (0x09 <= n && n <= 0x0D) || n == 0x20 || n == 0x85 || n == 0xA0 || n == 0x1680 || (0x2000
        <= n && n <= 0x200A) || n == 0x2028 || n == 0x2029 || n == 0x202F || n == 0x205F || n
        == 0x3000
}

/// Whether `c` is Unicode whitespace.
pub fn is_whitespace(c: char) -> (r: bool)
    ensures
        r == is_ws(c),
{
    let n = c as u32;
    (0x09 <= n && n <= 0x0D) || n == 0x20 || n == 0x85 || n == 0xA0 || n == 0x1680 || (0x2000
        <= n && n <= 0x200A) || n == 0x2028 || n == 0x2029 || n == 0x202F || n == 0x205F || n
        == 0x3000
}

/// `s` without its leading whitespace.
pub open spec fn trim_front(s: Seq<char>) -> Seq<char>
    decreases s.len(),
{
    if s.len() > 0 && is_ws(s[0]) {
        trim_front(s.drop_first())
    } else {
        s
    }
}

/// `s` without its trailing whitespace.
pub open spec fn trim_back(s: Seq<char>) -> Seq<char>
    decreases s.len(),
{
    if s.len() > 0 && is_ws(s.last()) {
        trim_back(s.drop_last())
    } else {
        s
    }
}

/// `s` without leading and trailing whitespace (the behaviour of `str::trim`).
pub open spec fn trim_ws(s: Seq<char>) -> Seq<char> {
    trim_back(trim_front(s))
}

proof fn lemma_trim_front_skip(s: Seq<char>, i: int)
    requires
        0 <= i <= s.len(),
        forall|j: int| 0 <= j < i ==> is_ws(#[trigger] s[j]),
    ensures
        trim_front(s) == trim_front(s.skip(i)),
    decreases i,
{
    if i > 0 {
        assert(is_ws(s[0]));
        assert(s.drop_first().skip(i - 1) =~= s.skip(i));
        assert forall|j: int| 0 <= j < i - 1 implies is_ws(#[trigger] s.drop_first()[j]) by {
            assert(s.drop_first()[j] == s[j + 1]);
        }
        lemma_trim_front_skip(s.drop_first(), i - 1);
    } else {
        assert(s.skip(0) =~= s);
    }
}

proof fn lemma_trim_back_take(s: Seq<char>, i: int)
    requires
        0 <= i <= s.len(),
        forall|j: int| i <= j < s.len() ==> is_ws(#[trigger] s[j]),
    ensures
        trim_back(s) == trim_back(s.take(i)),
    decreases s.len() - i,
{
    if i < s.len() {
        assert(s.drop_last().take(i) =~= s.take(i));
        lemma_trim_back_take(s.drop_last(), i);
    } else {
        assert(s.take(i) =~= s);
    }
}

/// Copies the characters `start..end` of `cs` into a string.
pub fn string_of_range(cs: &Vec<char>, start: usize, end: usize) -> (r: String)
    requires
        start <= end <= cs@.len(),
    ensures
        r@ == cs@.subrange(start as int, end as int),
{
    let mut out: Vec<char> = Vec::new();
    let mut i = start;
    while i < end
        invariant
            start <= i <= end <= cs@.len(),
            out@ == cs@.subrange(start as int, i as int),
        decreases end - i,
    {
        out.push(cs[i]);
        i = i + 1;
        proof {
            assert(out@ =~= cs@.subrange(start as int, i as int));
        }
    }
    string_from_chars(out.as_slice())
}

/// Removes leading and trailing whitespace.
pub fn trim(s: &str) -> (r: String)
    ensures
        r@ == trim_ws(s@),
{
    let cs = chars_of(s);
    let mut start: usize = 0;
    while start < cs.len() && is_whitespace(cs[start])
        invariant
            cs@ == s@,
            start <= cs@.len(),
            forall|j: int| 0 <= j < start ==> is_ws(#[trigger] s@[j]),
        decreases cs@.len() - start,
    {
        start = start + 1;
    }
    proof {
        lemma_trim_front_skip(s@, start as int);
        let t = s@.skip(start as int);
        assert(trim_front(t) == t);
    }
    let ghost front = s@.skip(start as int);
    let mut end: usize = cs.len();
    while end > start && is_whitespace(cs[end - 1])
        invariant
            cs@ == s@,
            start <= end <= cs@.len(),
            front == s@.skip(start as int),
            forall|j: int| end <= j < cs@.len() ==> is_ws(#[trigger] s@[j]),
        decreases end - start,
    {
        end = end - 1;
    }
    proof {
        assert forall|j: int| (end - start) <= j < front.len() implies is_ws(
            #[trigger] front[j],
        ) by {
            assert(front[j] == s@[j + start]);
        }
        lemma_trim_back_take(front, end - start);
        let t = front.take(end - start);
        assert(t =~= s@.subrange(start as int, end as int));
        if t.len() > 0 {
            assert(t.last() == s@[end - 1]);
        }
        assert(trim_back(t) == t);
    }
    string_of_range(&cs, start, end)
}

/// `n` occurs in `h` at position `i`.
pub open spec fn occurs_at(h: Seq<char>, n: Seq<char>, i: int) -> bool {
    0 <= i && i + n.len() <= h.len() && h.subrange(i, i + n.len()) == n
}

/// `n` occurs in `h` (the behaviour of `str::contains` with a string pattern).
pub open spec fn contains_seq(h: Seq<char>, n: Seq<char>) -> bool {
    exists|i: int| occurs_at(h, n, i)
}

fn occurs_at_exec(h: &Vec<char>, n: &Vec<char>, i: usize) -> (r: bool)
    requires
        i + n@.len() <= h@.len(),
        h@.len() <= usize::MAX,
    ensures
        r == occurs_at(h@, n@, i as int),
{
    let mut k: usize = 0;
    while k < n.len()
        invariant
            i + n@.len() <= h@.len(),
            h@.len() <= usize::MAX,
            k <= n@.len(),
            forall|j: int| 0 <= j < k ==> h@[i + j] == #[trigger] n@[j],
        decreases n@.len() - k,
    {
        if h[i + k] != n[k] {
            proof {
                assert(h@.subrange(i as int, i + n@.len())[k as int] != n@[k as int]);
            }
            return false;
        }
        k = k + 1;
    }
    proof {
        assert(h@.subrange(i as int, i + n@.len()) =~= n@);
    }
    true
}

/// Whether `needle` occurs in `hay`.
pub fn str_contains(hay: &str, needle: &str) -> (r: bool)
    ensures
        r == contains_seq(hay@, needle@),
{
    let h = chars_of(hay);
    let n = chars_of(needle);
    if n.len() > h.len() {
        return false;
    }
    let last = h.len() - n.len();
    let mut i: usize = 0;
    while i < last
        invariant
            h@ == hay@,
            n@ == needle@,
            last == h@.len() - n@.len(),
            h@.len() <= usize::MAX,
            i <= last,
            forall|j: int| 0 <= j < i ==> !#[trigger] occurs_at(hay@, needle@, j),
        decreases last - i,
    {
        if occurs_at_exec(&h, &n, i) {
            return true;
        }
        i = i + 1;
    }
    let r = occurs_at_exec(&h, &n, last);
    proof {
        if !r {
            assert forall|j: int| !#[trigger] occurs_at(hay@, needle@, j) by {
                if 0 <= j < i {
                } else if j == last {
                } else {
                }
            }
        }
    }
    r
}

/// `p` is a prefix of `s`.
pub open spec fn starts_with_seq(s: Seq<char>, p: Seq<char>) -> bool {
    p.len() <= s.len() && s.take(p.len() as int) == p
}

/// Whether `s` starts with `prefix`.
pub fn str_starts_with(s: &str, prefix: &str) -> (r: bool)
    ensures
        r == starts_with_seq(s@, prefix@),
{
    let h = chars_of(s);
    let n = chars_of(prefix);
    if n.len() > h.len() {
        return false;
    }
    let hl = h.len();
    let r = occurs_at_exec(&h, &n, 0);
    proof {
        assert(s@.subrange(0, prefix@.len() as int) =~= s@.take(prefix@.len() as int));
    }
    r
}

/// The pieces of `s` between separators, the current piece having begun as `cur`.
pub open spec fn split_from(s: Seq<char>, sep: spec_fn(char) -> bool, cur: Seq<char>) -> Seq<
    Seq<char>,
>
    decreases s.len(),
{
    if s.len() == 0 {
        seq![cur]
    } else if sep(s[0]) {
        seq![cur] + split_from(s.drop_first(), sep, seq![])
    } else {
        split_from(s.drop_first(), sep, cur.push(s[0]))
    }
}

/// The pieces of `s` between the characters for which `sep` holds (the behaviour of
/// `str::split` with a character pattern): one more piece than separators.
pub open spec fn split_seq(s: Seq<char>, sep: spec_fn(char) -> bool) -> Seq<Seq<char>> {
    split_from(s, sep, seq![])
}

/// The pieces as character sequences.
pub open spec fn strings_view(v: Seq<String>) -> Seq<Seq<char>> {
    v.map_values(|s: String| s@)
}

/// Splits `s` at every occurrence of `sep` (or, when `line_breaks` is set, of `'\r'` and
/// `'\n'`).
fn split_impl(s: &str, sep: char, line_breaks: bool) -> (r: Vec<String>)
    ensures
        line_breaks ==> strings_view(r@) == split_seq(s@, |c: char| c == '\r' || c == '\n'),
        !line_breaks ==> strings_view(r@) == split_seq(s@, |c: char| c == sep),
{
    let ghost f: spec_fn(char) -> bool = if line_breaks {
        |c: char| c == '\r' || c == '\n'
    } else {
        |c: char| c == sep
    };
    let cs = chars_of(s);
    let mut pieces: Vec<String> = Vec::new();
    let mut cur: Vec<char> = Vec::new();
    let mut i: usize = 0;
    proof {
        assert(s@.skip(0) =~= s@);
        assert(strings_view(pieces@) =~= Seq::<Seq<char>>::empty());
        assert(Seq::<Seq<char>>::empty() + split_seq(s@, f) =~= split_seq(s@, f));
        assert(cur@ =~= Seq::<char>::empty());
    }
    while i < cs.len()
        invariant
            cs@ == s@,
            i <= cs@.len(),
            f == (if line_breaks {
                |c: char| c == '\r' || c == '\n'
            } else {
                |c: char| c == sep
            }),
            strings_view(pieces@) + split_from(s@.skip(i as int), f, cur@) == split_seq(s@, f),
        decreases cs@.len() - i,
    {
        let c = cs[i];
        let is_sep = if line_breaks {
            c == '\r' || c == '\n'
        } else {
            c == sep
        };
        let ghost before_pieces = strings_view(pieces@);
        let ghost before_cur = cur@;
        proof {
            assert(s@.skip(i as int).drop_first() =~= s@.skip(i + 1));
            assert(s@.skip(i as int)[0] == c);
            assert(is_sep == f(c));
        }
        if is_sep {
            let piece = string_from_chars(cur.as_slice());
            pieces.push(piece);
            cur = Vec::new();
            proof {
                assert(strings_view(pieces@) =~= before_pieces.push(before_cur));
                assert(before_pieces + (seq![before_cur] + split_from(
                    s@.skip(i + 1),
                    f,
                    seq![],
                )) =~= before_pieces.push(before_cur) + split_from(s@.skip(i + 1), f, seq![]));
                assert(cur@ =~= Seq::<char>::empty());
            }
        } else {
            cur.push(c);
        }
        i = i + 1;
    }
    proof {
        assert(s@.skip(i as int) =~= Seq::<char>::empty());
    }
    let last = string_from_chars(cur.as_slice());
    let ghost before_pieces = strings_view(pieces@);
    pieces.push(last);
    proof {
        assert(strings_view(pieces@) =~= before_pieces.push(cur@));
        assert(before_pieces + seq![cur@] =~= before_pieces.push(cur@));
    }
    pieces
}

/// Splits `s` at every occurrence of `sep`.
pub fn split_char(s: &str, sep: char) -> (r: Vec<String>)
    ensures
        strings_view(r@) == split_seq(s@, |c: char| c == sep),
{
    split_impl(s, sep, false)
}

/// Splits `s` at every carriage return and line feed.
pub fn split_lines(s: &str) -> (r: Vec<String>)
    ensures
        strings_view(r@) == split_seq(s@, |c: char| c == '\r' || c == '\n'),
{
    split_impl(s, '\n', true)
}

/// The value of a digit character in bases up to 16, if it is one.
pub open spec fn digit_value(c: char) -> Option<nat> {
    if '0' <= c && c <= '9' {
        Some((c as nat - 48) as nat)
    } else if 'a' <= c && c <= 'f' {
        Some((c as nat - 87) as nat)
    } else if 'A' <= c && c <= 'F' {
        Some((c as nat - 55) as nat)
    } else {
        None
    }
}

/// `c` is a digit of base `radix`.
pub open spec fn is_radix_digit(c: char, radix: nat) -> bool {
    digit_value(c) matches Some(d) && d < radix
}

/// The value of a string of base-`radix` digits.
pub open spec fn digits_value(s: Seq<char>, radix: nat) -> nat
    decreases s.len(),
{
    if s.len() == 0 {
        0
    } else {
        digits_value(s.drop_last(), radix) * radix + digit_value(s.last()).unwrap_or(0)
    }
}

/// The digits of an unsigned number: everything after an optional leading `+`.
pub open spec fn unsigned_body(s: Seq<char>) -> Seq<char> {
    if s.len() > 0 && s[0] == '+' {
        s.drop_first()
    } else {
        s
    }
}

/// The value of `s` parsed as an unsigned integer of base `radix` no larger than `max`
/// (the behaviour of `from_str_radix` for unsigned types), or `None` when it is empty, a
/// lone sign, holds a non-digit, or exceeds `max`.
pub open spec fn parse_unsigned(s: Seq<char>, radix: nat, max: nat) -> Option<nat> {
    let body = unsigned_body(s);
    if body.len() == 0 || exists|i: int| 0 <= i < body.len() && !is_radix_digit(body[i], radix) {
        None
    } else if digits_value(body, radix) > max {
        None
    } else {
        Some(digits_value(body, radix))
    }
}

proof fn lemma_digits_value_prefix(s: Seq<char>, radix: nat, i: int)
    requires
        0 <= i <= s.len(),
        radix >= 1,
    ensures
        digits_value(s.take(i), radix) <= digits_value(s, radix),
    decreases s.len() - i,
{
    if i < s.len() {
        assert(s.drop_last().take(i) =~= s.take(i));
        lemma_digits_value_prefix(s.drop_last(), radix, i);
        let p = digits_value(s.drop_last(), radix);
        assert(p * radix >= p) by (nonlinear_arith)
            requires
                radix >= 1,
        ;
    } else {
        assert(s.take(i) =~= s);
    }
}

fn digit_of(c: char) -> (r: Option<u32>)
    ensures
        r matches Some(d) ==> digit_value(c) == Some(d as nat),
        r is None ==> digit_value(c) is None,
{
    if '0' <= c && c <= '9' {
        Some((c as u32) - 48)
    } else if 'a' <= c && c <= 'f' {
        Some((c as u32) - 87)
    } else if 'A' <= c && c <= 'F' {
        Some((c as u32) - 55)
    } else {
        None
    }
}

/// Parses an unsigned integer of base 10 or 16 no larger than `max`.
pub fn parse_unsigned_radix(s: &str, radix: u32, max: u32) -> (r: Option<u32>)
    requires
        radix == 10 || radix == 16,
    ensures
        r matches Some(v) ==> parse_unsigned(s@, radix as nat, max as nat) == Some(v as nat),
        r is None ==> parse_unsigned(s@, radix as nat, max as nat) is None,
{
    let cs = chars_of(s);
    let mut start: usize = 0;
    if cs.len() > 0 && cs[0] == '+' {
        start = 1;
    }
    let ghost body = unsigned_body(s@);
    proof {
        assert(body =~= s@.skip(start as int));
    }
    if start >= cs.len() {
        return None;
    }
    let mut acc: u64 = 0;
    let mut i: usize = start;
    while i < cs.len()
        invariant
            cs@ == s@,
            start <= i <= cs@.len(),
            body == s@.skip(start as int),
            body == unsigned_body(s@),
            radix == 10 || radix == 16,
            acc == digits_value(body.take(i - start), radix as nat),
            acc <= max,
            forall|j: int| 0 <= j < i - start ==> is_radix_digit(#[trigger] body[j], radix as nat),
        decreases cs@.len() - i,
    {
        let c = cs[i];
        proof {
            assert(body[i - start] == c);
        }
        match digit_of(c) {
            Some(d) => {
                if d >= radix {
                    proof {
                        let k = i - start;
                        assert(0 <= k < body.len() && !is_radix_digit(body[k], radix as nat));
                        assert(exists|j: int| 0 <= j < body.len() && !is_radix_digit(body[j], radix as nat));
                    }
                    return None;
                }
                proof {
                    assert(body.take(i - start + 1).drop_last() =~= body.take(i - start));
                    assert(body.take(i - start + 1).last() == c);
                }
                assert(acc * (radix as u64) <= 0xFFFF_FFFFu64 * 16) by (nonlinear_arith)
                    requires
                        acc <= 0xFFFF_FFFFu64,
                        radix <= 16,
                ;
                let next: u64 = acc * (radix as u64) + (d as u64);
                if next > max as u64 {
                    proof {
                        assert(digits_value(body.take(i - start + 1), radix as nat) == next);
                        lemma_digits_value_prefix(body, radix as nat, i - start + 1);
                    }
                    return None;
                }
                acc = next;
            },
            None => {
                proof {
                    let k = i - start;
                    assert(0 <= k < body.len() && !is_radix_digit(body[k], radix as nat));
                    assert(exists|j: int| 0 <= j < body.len() && !is_radix_digit(body[j], radix as nat));
                }
                return None;
            },
        }
        i = i + 1;
    }
    proof {
        assert(body.take(i - start) =~= body);
    }
    Some(acc as u32)
}

/// The part of `s` before the first `sep` and the part after it, if `sep` occurs.
pub open spec fn split_once(s: Seq<char>, sep: char) -> Option<(Seq<char>, Seq<char>)> {
    if exists|i: int| 0 <= i < s.len() && s[i] == sep {
        let i = choose|i: int|
            0 <= i < s.len() && s[i] == sep && forall|j: int| 0 <= j < i ==> s[j] != sep;
        Some((s.take(i), s.skip(i + 1)))
    } else {
        None
    }
}

/// Splits `s` at the first occurrence of `sep`.
pub fn split_first(s: &str, sep: char) -> (r: Option<(String, String)>)
    ensures
        r is None ==> split_once(s@, sep) is None,
        r matches Some(p) ==> split_once(s@, sep) == Some((p.0@, p.1@)),
{
    let cs = chars_of(s);
    let mut i: usize = 0;
    while i < cs.len()
        invariant
            cs@ == s@,
            i <= cs@.len(),
            forall|j: int| 0 <= j < i ==> s@[j] != sep,
        decreases cs@.len() - i,
    {
        if cs[i] == sep {
            let before = string_of_range(&cs, 0, i);
            let after = string_of_range(&cs, i + 1, cs.len());
            proof {
                let w = choose|k: int|
                    0 <= k < s@.len() && s@[k] == sep && forall|j: int| 0 <= j < k ==> s@[j] != sep;
                assert(0 <= i < s@.len() && s@[i as int] == sep && forall|j: int|
                    0 <= j < i ==> s@[j] != sep);
                assert(w == i) by {
                    if w < i {
                        assert(s@[w] != sep);
                    }
                    if w > i {
                        assert(s@[i as int] != sep);
                    }
                }
                assert(before@ =~= s@.take(i as int));
                assert(after@ =~= s@.skip(i + 1));
            }
            return Some((before, after));
        }
        i = i + 1;
    }
    None
}

/// Without leading or trailing whitespace a text is its own trimming.
pub proof fn lemma_trim_untouched(s: Seq<char>)
    requires
        s.len() == 0 || (!is_ws(s[0]) && !is_ws(s.last())),
    ensures
        trim_ws(s) == s,
{
}

/// A text lacking one of the characters of `n` does not contain `n`.
pub proof fn lemma_lacks_char(h: Seq<char>, n: Seq<char>, k: int)
    requires
        0 <= k < n.len(),
        forall|i: int| 0 <= i < h.len() ==> h[i] != n[k],
    ensures
        !contains_seq(h, n),
{
    assert forall|i: int| !#[trigger] occurs_at(h, n, i) by {
        if occurs_at(h, n, i) {
            assert(h.subrange(i, i + n.len())[k] == n[k]);
            assert(h[i + k] == n[k]);
        }
    }
}

proof fn lemma_split_free(s: Seq<char>, sep: spec_fn(char) -> bool, cur: Seq<char>)
    requires
        forall|i: int| 0 <= i < s.len() ==> !sep(#[trigger] s[i]),
    ensures
        split_from(s, sep, cur) == seq![cur + s],
    decreases s.len(),
{
    if s.len() > 0 {
        assert(!sep(s[0]));
        assert forall|i: int| 0 <= i < s.drop_first().len() implies !sep(
            #[trigger] s.drop_first()[i],
        ) by {
            assert(s.drop_first()[i] == s[i + 1]);
        }
        lemma_split_free(s.drop_first(), sep, cur.push(s[0]));
        assert(cur.push(s[0]) + s.drop_first() =~= cur + s);
    } else {
        assert(cur + s =~= cur);
    }
}

proof fn lemma_split_at_first(
    a: Seq<char>,
    c: char,
    b: Seq<char>,
    sep: spec_fn(char) -> bool,
    cur: Seq<char>,
)
    requires
        sep(c),
        forall|i: int| 0 <= i < a.len() ==> !sep(#[trigger] a[i]),
    ensures
        split_from(a + seq![c] + b, sep, cur) == seq![cur + a] + split_from(b, sep, seq![]),
    decreases a.len(),
{
    let s = a + seq![c] + b;
    if a.len() > 0 {
        assert(s[0] == a[0]);
        assert(s.drop_first() =~= a.drop_first() + seq![c] + b);
        assert forall|i: int| 0 <= i < a.drop_first().len() implies !sep(
            #[trigger] a.drop_first()[i],
        ) by {
            assert(a.drop_first()[i] == a[i + 1]);
        }
        lemma_split_at_first(a.drop_first(), c, b, sep, cur.push(a[0]));
        assert(cur.push(a[0]) + a.drop_first() =~= cur + a);
    } else {
        assert(s[0] == c);
        assert(s.drop_first() =~= b);
        assert(cur + a =~= cur);
    }
}

/// Text made of two separator-free pieces around one separator splits into those pieces.
pub proof fn lemma_split_two(a: Seq<char>, c: char, b: Seq<char>)
    requires
        forall|i: int| 0 <= i < a.len() ==> a[i] != c,
        forall|i: int| 0 <= i < b.len() ==> b[i] != c,
    ensures
        split_seq(a + seq![c] + b, |x: char| x == c) == seq![a, b],
{
    let f = |x: char| x == c;
    lemma_split_at_first(a, c, b, f, seq![]);
    lemma_split_free(b, f, seq![]);
    assert(Seq::<char>::empty() + a =~= a);
    assert(Seq::<char>::empty() + b =~= b);
}

/// Appending a digit multiplies the value by the radix and adds the digit.
pub proof fn lemma_digits_value_push(s: Seq<char>, c: char, radix: nat)
    ensures
        digits_value(s.push(c), radix) == digits_value(s, radix) * radix + digit_value(
            c,
        ).unwrap_or(0),
{
    assert(s.push(c).drop_last() =~= s);
}

/// A line without line breaks followed by `\r\n` splits into the line and two empty
/// pieces.
pub proof fn lemma_split_lines_last_two(line: Seq<char>)
    requires
        forall|i: int| 0 <= i < line.len() ==> !(#[trigger] line[i] == '\r' || line[i] == '\n'),
    ensures
        split_seq(line + seq!['\r'] + seq!['\n'], |c: char| c == '\r' || c == '\n') == seq![
            line,
            Seq::<char>::empty(),
            Seq::<char>::empty(),
        ],
{
    let f = |c: char| c == '\r' || c == '\n';
    lemma_split_at_first(line, '\r', seq!['\n'], f, seq![]);
    lemma_split_at_first(Seq::<char>::empty(), '\n', Seq::<char>::empty(), f, seq![]);
    assert(Seq::<char>::empty() + seq!['\n'] + Seq::<char>::empty() =~= seq!['\n']);
    lemma_split_free(Seq::<char>::empty(), f, seq![]);
    assert(Seq::<char>::empty() + line =~= line);
    assert(Seq::<char>::empty() + Seq::<char>::empty() =~= Seq::<char>::empty());
}

/// Text with one `c` after a `c`-free prefix splits once at that `c`.
pub proof fn lemma_split_once_at(a: Seq<char>, c: char, b: Seq<char>)
    requires
        forall|i: int| 0 <= i < a.len() ==> a[i] != c,
    ensures
        split_once(a + seq![c] + b, c) == Some((a, b)),
{
    let s = a + seq![c] + b;
    let k = a.len() as int;
    assert(s[k] == c);
    assert forall|j: int| 0 <= j < k implies s[j] != c by {
        assert(s[j] == a[j]);
    }
    assert(exists|i: int| 0 <= i < s.len() && s[i] == c);
    let i = choose|i: int| 0 <= i < s.len() && s[i] == c && forall|j: int| 0 <= j < i ==> s[j] != c;
    assert(0 <= k < s.len() && s[k] == c && forall|j: int| 0 <= j < k ==> s[j] != c);
    assert(i == k) by {
        if i < k {
            assert(s[i] == a[i]);
        }
        if i > k {
            assert(s[k] != c);
        }
    }
    assert(s.take(k) =~= a);
    assert(s.skip(k + 1) =~= b);
}

} // verus!
