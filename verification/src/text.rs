//! Text building blocks shared by the rest of the library: comparisons, lower
//! case, trimming, and the spelling and reading of numbers.

use vstd::prelude::*;
use vstd::string::*;
use vstd::utf8::*;

verus! {

/// Appends `c` to `s`.
///
/// Trusted: the body is `String::push`, which appends the given character to
/// the end of the string.
#[verifier::external_body]
pub(crate) fn push_char(s: &mut String, c: char)
    ensures
        final(s)@ == old(s)@.push(c),
{
    s.push(c)
}

/// Whether two byte slices hold the same bytes.
pub fn bytes_eq(a: &[u8], b: &[u8]) -> (r: bool)
    ensures
        r == (a@ == b@),
{
    let n: usize = a.len();
    if n != b.len() {
        return false;
    }
    let mut i: usize = 0;
    while i < n
        invariant
            n == a@.len(),
            n == b@.len(),
            i <= n,
            forall|j: int| 0 <= j < i ==> a@[j] == b@[j],
        decreases n - i,
    {
        if a[i] != b[i] {
            return false;
        }
        i += 1;
    }
    assert(a@ =~= b@);
    true
}

/// Whether two strings hold the same characters.
pub fn str_eq(a: &str, b: &str) -> (r: bool)
    ensures
        r == (a@ == b@),
{
    let r = bytes_eq(a.as_bytes(), b.as_bytes());
    proof {
        encode_utf8_decode_utf8(a@);
        encode_utf8_decode_utf8(b@);
    }
    r
}

/// The characters of `s`, one by one.
pub fn chars_of(s: &str) -> (v: Vec<char>)
    ensures
        v@ == s@,
{
    let mut v: Vec<char> = Vec::new();
    let chars = s.chars();
    for c in it: chars
        invariant
            it.seq() == s@,
            v@ == s@.take(it.index() as int),
    {
        v.push(c);
        assert(s@.take(it.index() + 1) =~= s@.take(it.index() as int).push(c));
    }
    assert(s@.take(s@.len() as int) =~= s@);
    v
}

/// The string made of the characters of `v` from `start` up to `end`.
pub fn string_of(v: &Vec<char>, start: usize, end: usize) -> (s: String)
    requires
        start <= end <= v@.len(),
    ensures
        s@ == v@.subrange(start as int, end as int),
{
    let mut s = String::new();
    let mut i: usize = start;
    while i < end
        invariant
            start <= i <= end <= v@.len(),
            s@ == v@.subrange(start as int, i as int),
        decreases end - i,
    {
        push_char(&mut s, v[i]);
        assert(v@.subrange(start as int, i + 1) =~= v@.subrange(start as int, i as int).push(
            v@[i as int],
        ));
        i += 1;
    }
    s
}

/// The lower-case form of an ASCII letter; any other character is unchanged.
pub open spec fn lower_char(c: char) -> char {
    if 'A' <= c <= 'Z' {
        ((c as u8 + 32) as u8) as char
    } else {
        c
    }
}

/// `s` with its ASCII letters in lower case.
pub open spec fn lower_text(s: Seq<char>) -> Seq<char> {
    Seq::new(s.len(), |i: int| lower_char(s[i]))
}

fn to_lower_char(c: char) -> (r: char)
    ensures
        r == lower_char(c),
{
    if 'A' <= c && c <= 'Z' {
        (c as u8 + 32) as char
    } else {
        c
    }
}

/// A copy of `s` with its ASCII letters in lower case.
pub fn to_ascii_lowercase(s: &str) -> (r: String)
    ensures
        r@ == lower_text(s@),
{
    let mut r = String::new();
    let chars = s.chars();
    for c in it: chars
        invariant
            it.seq() == s@,
            r@ == lower_text(s@.take(it.index() as int)),
    {
        push_char(&mut r, to_lower_char(c));
        assert(lower_text(s@.take(it.index() + 1)) =~= lower_text(s@.take(it.index() as int)).push(
            lower_char(c),
        ));
    }
    assert(s@.take(s@.len() as int) =~= s@);
    r
}

/// The position of the first `c` in `s`, or the length of `s` where it has
/// none.
pub open spec fn position_of_char(s: Seq<char>, c: char) -> int
    decreases s.len(),
{
    if s.len() == 0 {
        0
    } else if s[0] == c {
        0
    } else {
        1 + position_of_char(s.drop_first(), c)
    }
}

/// The position of the first `c` in `v`, or the length of `v`.
pub fn find_char(v: &Vec<char>, c: char) -> (k: usize)
    ensures
        k == position_of_char(v@, c),
        k <= v@.len(),
{
    let n: usize = v.len();
    let mut i: usize = 0;
    assert(v@.skip(0) =~= v@);
    while i < n
        invariant
            n == v@.len(),
            i <= n,
            position_of_char(v@, c) == i + position_of_char(v@.skip(i as int), c),
        decreases n - i,
    {
        if v[i] == c {
            assert(v@.skip(i as int)[0] == c);
            return i;
        }
        assert(v@.skip(i as int).drop_first() =~= v@.skip(i + 1));
        i += 1;
    }
    assert(v@.skip(n as int).len() == 0);
    n
}

/// White space as far as ASCII has it: space, tab, line feed, vertical tab,
/// form feed and carriage return.
pub open spec fn is_space(c: char) -> bool {
    c == ' ' || ('\u{9}' <= c <= '\u{d}')
}

/// `s` without the white space at its start.
pub open spec fn trim_start_text(s: Seq<char>) -> Seq<char>
    decreases s.len(),
{
    if s.len() > 0 && is_space(s[0]) {
        trim_start_text(s.drop_first())
    } else {
        s
    }
}

/// `s` without the white space at its end.
pub open spec fn trim_end_text(s: Seq<char>) -> Seq<char>
    decreases s.len(),
{
    if s.len() > 0 && is_space(s.last()) {
        trim_end_text(s.drop_last())
    } else {
        s
    }
}

/// `s` without the white space at its start and at its end.
pub open spec fn trim_text(s: Seq<char>) -> Seq<char> {
    trim_end_text(trim_start_text(s))
}

fn space_char(c: char) -> (r: bool)
    ensures
        r == is_space(c),
{
    c == ' ' || ('\u{9}' <= c && c <= '\u{d}')
}

/// The bounds of what is left of `v[start..end]` when the white space at both
/// ends is taken off.
pub fn trim_bounds(v: &Vec<char>, start: usize, end: usize) -> (r: (usize, usize))
    requires
        start <= end <= v@.len(),
    ensures
        start <= r.0 <= r.1 <= end,
        v@.subrange(r.0 as int, r.1 as int) == trim_text(v@.subrange(start as int, end as int)),
{
    let mut i: usize = start;
    while i < end && space_char(v[i])
        invariant
            start <= i <= end <= v@.len(),
            trim_start_text(v@.subrange(start as int, end as int)) == trim_start_text(
                v@.subrange(i as int, end as int),
            ),
        decreases end - i,
    {
        assert(v@.subrange(i as int, end as int).drop_first() =~= v@.subrange(i + 1, end as int));
        i += 1;
    }
    let mut j: usize = end;
    while j > i && space_char(v[j - 1])
        invariant
            i <= j <= end <= v@.len(),
            trim_end_text(v@.subrange(i as int, end as int)) == trim_end_text(
                v@.subrange(i as int, j as int),
            ),
        decreases j - i,
    {
        assert(v@.subrange(i as int, j as int).drop_last() =~= v@.subrange(i as int, j - 1));
        j -= 1;
    }
    (i, j)
}

/// Whether `needle` occurs among the bytes of `s`.
pub fn contains_byte(s: &str, needle: u8) -> (r: bool)
    ensures
        r == s.spec_bytes().contains(needle),
{
    let x = s.as_bytes();
    let n: usize = x.len();
    let mut i: usize = 0;
    while i < n
        invariant
            n == x@.len(),
            x@ == s.spec_bytes(),
            i <= n,
            forall|j: int| 0 <= j < i ==> x@[j] != needle,
        decreases n - i,
    {
        if x[i] == needle {
            return true;
        }
        i += 1;
    }
    false
}

/// The character of a decimal digit.
pub open spec fn digit_char(d: nat) -> char {
    ((48 + d) as u8) as char
}

/// The decimal spelling of a natural number, without leading zeros.
pub open spec fn dec_text(n: nat) -> Seq<char>
    decreases n,
{
    if n < 10 {
        seq![digit_char(n)]
    } else {
        dec_text(n / 10).push(digit_char(n % 10))
    }
}

/// The decimal spelling of an integer: a minus sign before a negative one.
pub open spec fn int_text(i: int) -> Seq<char> {
    if i < 0 {
        seq!['-'] + dec_text((-i) as nat)
    } else {
        dec_text(i as nat)
    }
}

/// Three decimal digits, with leading zeros.
pub open spec fn pad3_text(n: nat) -> Seq<char> {
    seq![digit_char(n / 100 % 10), digit_char(n / 10 % 10), digit_char(n % 10)]
}

pub(crate) fn digit(d: u8) -> (c: char)
    requires
        d < 10,
    ensures
        c == digit_char(d as nat),
{
    (48u8 + d) as char
}

/// Appends the decimal spelling of `n`.
pub fn push_decimal(s: &mut String, n: u64)
    ensures
        final(s)@ == old(s)@ + dec_text(n as nat),
    decreases n,
{
    if n >= 10 {
        push_decimal(s, n / 10);
    }
    push_char(s, digit((n % 10) as u8));
    assert(s@ =~= old(s)@ + dec_text(n as nat));
}

/// Appends the decimal spelling of `v`.
pub fn push_int(s: &mut String, v: i64)
    ensures
        final(s)@ == old(s)@ + int_text(v as int),
{
    if v < 0 {
        push_char(s, '-');
        let m: u64 = (-(v as i128)) as u64;
        push_decimal(s, m);
        assert(s@ =~= old(s)@ + int_text(v as int));
    } else {
        push_decimal(s, v as u64);
    }
}

/// Appends `n` as three decimal digits.
pub fn push_pad3(s: &mut String, n: u16)
    requires
        n < 1000,
    ensures
        final(s)@ == old(s)@ + pad3_text(n as nat),
{
    push_char(s, digit((n / 100 % 10) as u8));
    push_char(s, digit((n / 10 % 10) as u8));
    push_char(s, digit((n % 10) as u8));
    assert(s@ =~= old(s)@ + pad3_text(n as nat));
}

/// The character of a hexadecimal digit, in lower case.
pub open spec fn hex_char(d: nat) -> char {
    if d < 10 {
        ((48 + d) as u8) as char
    } else {
        ((87 + d) as u8) as char
    }
}

/// Two lower-case hexadecimal digits for each byte.
pub open spec fn hex_text(bytes: Seq<u8>) -> Seq<char>
    decreases bytes.len(),
{
    if bytes.len() == 0 {
        Seq::empty()
    } else {
        hex_text(bytes.drop_last()).push(hex_char(bytes.last() as nat / 16)).push(
            hex_char(bytes.last() as nat % 16),
        )
    }
}

pub(crate) fn hex_digit(d: u8) -> (c: char)
    requires
        d < 16,
    ensures
        c == hex_char(d as nat),
{
    if d < 10 {
        (48u8 + d) as char
    } else {
        (87u8 + d) as char
    }
}

/// Appends two lower-case hexadecimal digits for each byte of `bytes`.
pub fn push_hex(s: &mut String, bytes: &[u8])
    ensures
        final(s)@ == old(s)@ + hex_text(bytes@),
{
    let n: usize = bytes.len();
    let mut i: usize = 0;
    assert(bytes@.take(0) =~= Seq::<u8>::empty());
    while i < n
        invariant
            n == bytes@.len(),
            i <= n,
            s@ == old(s)@ + hex_text(bytes@.take(i as int)),
        decreases n - i,
    {
        let b: u8 = bytes[i];
        push_char(s, hex_digit(b / 16));
        push_char(s, hex_digit(b % 16));
        proof {
            let next = bytes@.take(i + 1);
            assert(next.drop_last() =~= bytes@.take(i as int));
            assert(next.last() == b);
            assert(s@ =~= old(s)@ + hex_text(next));
        }
        i += 1;
    }
    assert(bytes@.take(n as int) =~= bytes@);
}

/// Whether a character is a decimal digit.
pub open spec fn is_digit(c: char) -> bool {
    '0' <= c <= '9'
}

/// The number that a run of decimal digits spells; `None` for an empty run
/// and for anything else.
pub open spec fn digits_value(s: Seq<char>) -> Option<nat>
    decreases s.len(),
{
    if s.len() == 0 || !is_digit(s.last()) {
        None
    } else if s.len() == 1 {
        Some((s.last() as u32 - 48) as nat)
    } else {
        match digits_value(s.drop_last()) {
            Some(v) => Some(v * 10 + (s.last() as u32 - 48) as nat),
            None => None,
        }
    }
}

/// A run that holds anything but a digit spells no number.
pub proof fn lemma_digits_none(s: Seq<char>, k: int)
    requires
        0 <= k < s.len(),
        !is_digit(s[k]),
    ensures
        digits_value(s) is None,
    decreases s.len(),
{
    if k < s.len() - 1 {
        lemma_digits_none(s.drop_last(), k);
    }
}

fn digit_of(c: char) -> (r: Option<u128>)
    ensures
        match r {
            Some(d) => is_digit(c) && d == c as u32 - 48,
            None => !is_digit(c),
        },
{
    if '0' <= c && c <= '9' {
        Some((c as u32 - 48) as u128)
    } else {
        None
    }
}

/// Reads the digits `v[start..end]`. A number above `cap` is handed back as
/// `cap`.
pub(crate) fn read_digits(v: &Vec<char>, start: usize, end: usize, cap: u128) -> (r: Option<u128>)
    requires
        start <= end <= v@.len(),
        cap <= 1_000_000_000_000_000_000_000_000_000_000,
    ensures
        match digits_value(v@.subrange(start as int, end as int)) {
            Some(x) => r == Some(
                if x < cap {
                    x as u128
                } else {
                    cap
                },
            ),
            None => r is None,
        },
{
    if start == end {
        return None;
    }
    let mut acc: u128 = 0;
    let mut i: usize = start;
    while i < end
        invariant
            start <= i <= end <= v@.len(),
            cap <= 1_000_000_000_000_000_000_000_000_000_000,
            acc <= cap,
            i == start ==> acc == 0,
            i > start ==> (digits_value(v@.subrange(start as int, i as int)) matches Some(x) && acc
                == if x < cap {
                x as u128
            } else {
                cap
            }),
        decreases end - i,
    {
        let ghost next = v@.subrange(start as int, i + 1);
        proof {
            assert(next.drop_last() =~= v@.subrange(start as int, i as int));
            assert(next.last() == v@[i as int]);
        }
        match digit_of(v[i]) {
            Some(d) => {
                let wide: u128 = acc * 10 + d;
                acc = if wide < cap {
                    wide
                } else {
                    cap
                };
            },
            None => {
                proof {
                    lemma_digits_none(
                        v@.subrange(start as int, end as int),
                        i as int - start as int,
                    );
                }
                return None;
            },
        }
        i += 1;
    }
    Some(acc)
}

/// A run of `k` digits spells a number below the `k`-th power of ten.
pub proof fn lemma_digits_bound(s: Seq<char>)
    requires
        s.len() <= 4,
    ensures
        digits_value(s) matches Some(v) ==> v < 10000 && (s.len() <= 3 ==> v < 1000) && (s.len()
            <= 2 ==> v < 100) && (s.len() <= 1 ==> v < 10),
    decreases s.len(),
{
    if s.len() > 1 {
        lemma_digits_bound(s.drop_last());
    }
}

/// The text that a lossy reading of `bytes` as UTF-8 gives: each run of bytes
/// that is no valid UTF-8 stands as a replacement character.
pub uninterp spec fn utf8_lossy(bytes: Seq<u8>) -> Seq<char>;

/// Reads `bytes` as UTF-8, with a replacement character for what is not.
///
/// Trusted: the body is `String::from_utf8_lossy`, made into an owned string.
/// The result is a function of the bytes alone.
#[verifier::external_body]
pub(crate) fn lossy_string(bytes: &[u8]) -> (s: String)
    ensures
        s@ == utf8_lossy(bytes@),
{
    String::from_utf8_lossy(bytes).into_owned()
}

/// Appends the first `max` characters of `text`, or all of it where it has
/// no more.
pub fn push_prefix(s: &mut String, text: &str, max: usize)
    ensures
        final(s)@ == old(s)@ + text@.take(vstd::math::min(max as int, text@.len() as int)),
{
    let mut count: usize = 0;
    let chars = text.chars();
    assert(text@.take(0) =~= Seq::<char>::empty());
    for c in it: chars
        invariant
            it.seq() == text@,
            count == vstd::math::min(max as int, it.index() as int),
            s@ == old(s)@ + text@.take(count as int),
    {
        if count < max {
            push_char(s, c);
            assert(text@.take(count + 1) =~= text@.take(count as int).push(c));
            count += 1;
        }
    }
}

} // verus!
