//! Timestamps as the column store takes and gives them: epoch milliseconds as
//! decimal seconds, and date-time text as epoch seconds.

use vstd::prelude::*;
use vstd::string::*;
use crate::text::{
    chars_of, dec_text, digit_char, digits_value, find_char, int_text, is_digit,
    lemma_digits_bound, pad3_text, position_of_char, push_char, push_int, push_pad3, read_digits,
};

verus! {

/// Epoch milliseconds as decimal seconds: the whole seconds, rounded down, a
/// point, and the milliseconds of the second in three digits.
pub open spec fn ch_decimal_text(ms: int) -> Seq<char> {
    int_text(ms / 1000) + seq!['.'] + pad3_text((ms % 1000) as nat)
}

/// Spells epoch milliseconds as decimal seconds with three decimals. The
/// division rounds down, so that one millisecond before the epoch is
/// `-1.999`.
pub fn epoch_ms_to_ch_decimal(ms: i64) -> (r: String)
    ensures
        r@ == ch_decimal_text(ms as int),
{
    let q: i64 = ms / 1000;
    let m: i64 = ms % 1000;
    let (secs, sub): (i64, i64) = if m < 0 {
        (q - 1, m + 1000)
    } else {
        (q, m)
    };
    let mut r = String::new();
    push_int(&mut r, secs);
    push_char(&mut r, '.');
    push_pad3(&mut r, sub as u16);
    assert(r@ =~= ch_decimal_text(ms as int));
    r
}

/// The milliseconds that a decimal number of seconds with exactly three
/// decimals stands for: an optional minus sign, digits, a point and three
/// digits. `None` for any other text.
pub open spec fn decimal_millis(text: Seq<char>) -> Option<int> {
    let dot = position_of_char(text, '.');
    if dot + 4 != text.len() {
        None
    } else {
        let negative = dot > 0 && text[0] == '-';
        let whole = if negative {
            text.subrange(1, dot)
        } else {
            text.take(dot)
        };
        match (digits_value(whole), digits_value(text.skip(dot + 1))) {
            (Some(secs), Some(sub)) => Some(
                if negative {
                    -(secs * 1000 + sub)
                } else {
                    (secs * 1000 + sub) as int
                },
            ),
            _ => None,
        }
    }
}

/// The spelling of a natural number is read back as that number.
pub proof fn lemma_digits_of_dec_text(n: nat)
    ensures
        digits_value(dec_text(n)) == Some(n),
        dec_text(n).len() > 0,
        forall|i: int| 0 <= i < dec_text(n).len() ==> is_digit(#[trigger] dec_text(n)[i]),
    decreases n,
{
    if n >= 10 {
        lemma_digits_of_dec_text(n / 10);
        let t = dec_text(n);
        assert(t.drop_last() =~= dec_text(n / 10));
        assert(t.last() == digit_char(n % 10));
    }
}

proof fn lemma_no_char(s: Seq<char>, c: char)
    requires
        forall|i: int| 0 <= i < s.len() ==> #[trigger] s[i] != c,
    ensures
        position_of_char(s, c) == s.len(),
    decreases s.len(),
{
    if s.len() > 0 {
        lemma_no_char(s.drop_first(), c);
    }
}

proof fn lemma_position_after(s: Seq<char>, c: char, rest: Seq<char>)
    requires
        forall|i: int| 0 <= i < s.len() ==> #[trigger] s[i] != c,
    ensures
        position_of_char(s + seq![c] + rest, c) == s.len(),
    decreases s.len(),
{
    let text = s + seq![c] + rest;
    if s.len() > 0 {
        lemma_position_after(s.drop_first(), c, rest);
        assert(text.drop_first() =~= s.drop_first() + seq![c] + rest);
    } else {
        assert(text[0] == c);
    }
}

/// Three digits are read back as the number below one thousand that they
/// spell.
pub proof fn lemma_digits_of_pad3(n: nat)
    requires
        n < 1000,
    ensures
        digits_value(pad3_text(n)) == Some(n),
{
    let t = pad3_text(n);
    let t2 = t.drop_last();
    let t1 = t2.drop_last();
    assert(t1 =~= seq![digit_char(n / 100 % 10)]);
    assert(t2 =~= seq![digit_char(n / 100 % 10), digit_char(n / 10 % 10)]);
    assert(digits_value(t1) == Some(n / 100 % 10));
    assert(digits_value(t2) == Some((n / 100 % 10) * 10 + n / 10 % 10));
}

/// Decimal seconds are made of digits, a point and at most a minus sign, so
/// that they stand in a quoted literal as they are.
pub proof fn lemma_decimal_plain(ms: int)
    ensures
        forall|i: int|
            0 <= i < ch_decimal_text(ms).len() ==> {
                let c = #[trigger] ch_decimal_text(ms)[i];
                is_digit(c) || c == '.' || c == '-'
            },
{
    let secs = ms / 1000;
    let whole = int_text(secs);
    let sub = pad3_text((ms % 1000) as nat);
    if secs < 0 {
        lemma_digits_of_dec_text((-secs) as nat);
    } else {
        lemma_digits_of_dec_text(secs as nat);
    }
    assert forall|i: int| 0 <= i < whole.len() implies is_digit(#[trigger] whole[i]) || whole[i]
        == '-' by {
        if secs < 0 && i > 0 {
            assert(whole[i] == dec_text((-secs) as nat)[i - 1]);
        }
    }
    let text = ch_decimal_text(ms);
    assert(text =~= whole + seq!['.'] + sub);
    assert forall|i: int| 0 <= i < text.len() implies {
        let c = #[trigger] text[i];
        is_digit(c) || c == '.' || c == '-'
    } by {
        if i < whole.len() {
            assert(text[i] == whole[i]);
        } else if i == whole.len() {
        } else {
            assert(text[i] == sub[i - whole.len() - 1]);
        }
    }
}

/// The spelling of a time at or after the epoch is read back as that time.
pub proof fn lemma_decimal_round_trip(ms: int)
    requires
        ms >= 0,
    ensures
        decimal_millis(ch_decimal_text(ms)) == Some(ms),
{
    let secs = (ms / 1000) as nat;
    let sub = (ms % 1000) as nat;
    let whole = dec_text(secs);
    let text = ch_decimal_text(ms);
    lemma_digits_of_dec_text(secs);
    lemma_digits_of_pad3(sub);
    assert(text =~= whole + seq!['.'] + pad3_text(sub));
    lemma_position_after(whole, '.', pad3_text(sub));
    let dot = whole.len() as int;
    assert(text[0] == whole[0]);
    assert(is_digit(whole[0]));
    assert(text.take(dot) =~= whole);
    assert(text.skip(dot + 1) =~= pad3_text(sub));
}

/// The shape of a time before the epoch: a minus sign, the digits of the
/// whole seconds rounded down, a point, and three digits for a number of
/// milliseconds from 0 to 999.
pub proof fn lemma_decimal_before_epoch(ms: int)
    requires
        ms < 0,
    ensures
        0 <= ms % 1000 <= 999,
        ms / 1000 < 0,
        ch_decimal_text(ms) == seq!['-'] + dec_text((-(ms / 1000)) as nat) + seq!['.'] + pad3_text(
            (ms % 1000) as nat,
        ),
        ms == (ms / 1000) * 1000 + ms % 1000,
{
}

/// Reads a decimal number of seconds with exactly three decimals as
/// milliseconds: `None` for a text of another shape, and for a number of
/// milliseconds outside `i64`.
pub fn parse_ch_decimal(s: &str) -> (r: Option<i64>)
    ensures
        r == match decimal_millis(s@) {
            Some(v) => if i64::MIN <= v <= i64::MAX {
                Some(v as i64)
            } else {
                None
            },
            None => None,
        },
{
    let v = chars_of(s);
    let dot = find_char(&v, '.');
    let n: usize = v.len();
    if n < 4 || dot != n - 4 {
        return None;
    }
    let negative = dot > 0 && v[0] == '-';
    let whole_start: usize = if negative {
        1
    } else {
        0
    };
    proof {
        assert(v@.subrange(0, dot as int) =~= v@.take(dot as int));
        assert(v@.subrange(dot + 1, n as int) =~= v@.skip(dot + 1));
    }
    let cap: u128 = 10_000_000_000_000_000;
    let secs = match read_digits(&v, whole_start, dot, cap) {
        Some(x) => x,
        None => {
            return None;
        },
    };
    let sub = match read_digits(&v, dot + 1, n, cap) {
        Some(x) => x,
        None => {
            return None;
        },
    };
    proof {
        lemma_digits_bound(v@.subrange(dot + 1, n as int));
    }
    if secs >= cap {
        return None;
    }
    let total: i128 = secs as i128 * 1000 + sub as i128;
    let signed: i128 = if negative {
        -total
    } else {
        total
    };
    if signed < i64::MIN as i128 || signed > i64::MAX as i128 {
        None
    } else {
        Some(signed as i64)
    }
}

/// The number that a field of a date spells, read as `i64` text is read: an
/// optional sign and digits.
pub open spec fn signed_value(s: Seq<char>) -> Option<int> {
    if s.len() > 0 && s[0] == '-' {
        match digits_value(s.skip(1)) {
            Some(v) => Some(-(v as int)),
            None => None,
        }
    } else if s.len() > 0 && s[0] == '+' {
        match digits_value(s.skip(1)) {
            Some(v) => Some(v as int),
            None => None,
        }
    } else {
        match digits_value(s) {
            Some(v) => Some(v as int),
            None => None,
        }
    }
}

/// Reads the field `v[start..end]` of at most four characters.
fn read_field(v: &Vec<char>, start: usize, end: usize) -> (r: Option<i64>)
    requires
        start <= end <= v@.len(),
        end - start <= 4,
    ensures
        match signed_value(v@.subrange(start as int, end as int)) {
            Some(x) => r == Some(x as i64) && -10000 < x < 10000,
            None => r is None,
        },
{
    let ghost field = v@.subrange(start as int, end as int);
    let signed = start < end && (v[start] == '-' || v[start] == '+');
    let from: usize = if signed {
        start + 1
    } else {
        start
    };
    proof {
        if signed {
            assert(field.skip(1) =~= v@.subrange(from as int, end as int));
        } else {
            assert(field =~= v@.subrange(from as int, end as int));
        }
    }
    match read_digits(v, from, end, 10000) {
        Some(x) => {
            proof {
                lemma_digits_bound(v@.subrange(from as int, end as int));
            }
            if signed && v[start] == '-' {
                Some(-(x as i64))
            } else {
                Some(x as i64)
            }
        },
        None => None,
    }
}

/// A leap year of the Gregorian calendar.
pub open spec fn leap_year(y: int) -> bool {
    (y % 4 == 0 && y % 100 != 0) || y % 400 == 0
}

/// Whether `y` is a leap year.
pub fn is_leap_year(y: i64) -> (r: bool)
    ensures
        r == leap_year(y as int),
{
    (y % 4 == 0 && y % 100 != 0) || y % 400 == 0
}

/// The days of the years from 1970 up to, and without, `y`; none for a year
/// before 1971.
pub open spec fn days_before_year(y: int) -> int
    decreases y - 1970,
{
    if y <= 1970 {
        0
    } else {
        days_before_year(y - 1) + if leap_year(y - 1) {
            366int
        } else {
            365int
        }
    }
}

/// The days of month `m` in year `y`.
pub open spec fn month_days(y: int, m: int) -> int {
    if m == 2 {
        if leap_year(y) {
            29
        } else {
            28
        }
    } else if m == 4 || m == 6 || m == 9 || m == 11 {
        30
    } else {
        31
    }
}

/// The days of the months of year `y` before month `m`.
pub open spec fn days_before_month(y: int, m: int) -> int
    decreases m,
{
    if m <= 1 {
        0
    } else {
        days_before_month(y, m - 1) + month_days(y, m - 1)
    }
}

/// The epoch seconds of a date and time `YYYY-MM-DD HH:MM:SS`, read from the
/// first nineteen characters of `text`. The six fields stand at fixed places;
/// what separates them is not looked at. `None` where the text is shorter, a
/// field is no number, or a month, day, hour, minute or second is out of
/// range. A day up to 31 is accepted in any month, and a year before 1970
/// counts as 1970.
pub open spec fn datetime_seconds(text: Seq<char>) -> Option<int> {
    if text.len() < 19 {
        None
    } else {
        match (
            signed_value(text.subrange(0, 4)),
            signed_value(text.subrange(5, 7)),
            signed_value(text.subrange(8, 10)),
            signed_value(text.subrange(11, 13)),
            signed_value(text.subrange(14, 16)),
            signed_value(text.subrange(17, 19)),
        ) {
            (Some(year), Some(month), Some(day), Some(hour), Some(min), Some(sec)) => if 1
                <= month <= 12 && 1 <= day <= 31 && 0 <= hour <= 23 && 0 <= min <= 59 && 0 <= sec
                <= 59 {
                Some(
                    (days_before_year(year) + days_before_month(year, month) + day - 1) * 86400
                        + hour * 3600 + min * 60 + sec,
                )
            } else {
                None
            },
            _ => None,
        }
    }
}

fn count_days_before_year(year: i64) -> (days: i64)
    requires
        -10000 < year < 10000,
    ensures
        days == days_before_year(year as int),
        0 <= days <= 366 * 8030,
{
    if year <= 1970 {
        return 0;
    }
    let mut days: i64 = 0;
    let mut y: i64 = 1970;
    while y < year
        invariant
            1970 <= y <= year < 10000,
            days == days_before_year(y as int),
            0 <= days <= 366 * (y - 1970),
        decreases year - y,
    {
        let len: i64 = if is_leap_year(y) {
            366
        } else {
            365
        };
        days = days + len;
        y = y + 1;
    }
    days
}

fn count_days_before_month(year: i64, month: i64) -> (days: i64)
    requires
        1 <= month <= 12,
    ensures
        days == days_before_month(year as int, month as int),
        0 <= days <= 31 * 11,
{
    let leap = is_leap_year(year);
    let mut days: i64 = 0;
    let mut m: i64 = 1;
    while m < month
        invariant
            1 <= m <= month <= 12,
            leap == leap_year(year as int),
            days == days_before_month(year as int, m as int),
            0 <= days <= 31 * (m - 1),
        decreases month - m,
    {
        let len: i64 = if m == 2 {
            if leap {
                29
            } else {
                28
            }
        } else if m == 4 || m == 6 || m == 9 || m == 11 {
            30
        } else {
            31
        };
        days = days + len;
        m = m + 1;
    }
    days
}

fn datetime_of(v: &Vec<char>) -> (r: Option<i64>)
    ensures
        r == match datetime_seconds(v@) {
            Some(x) => Some(x as i64),
            None => None,
        },
        datetime_seconds(v@) matches Some(x) ==> 0 <= x < 400_000_000_000,
{
    if v.len() < 19 {
        return None;
    }
    let year = match read_field(v, 0, 4) {
        Some(x) => x,
        None => {
            return None;
        },
    };
    let month = match read_field(v, 5, 7) {
        Some(x) => x,
        None => {
            return None;
        },
    };
    let day = match read_field(v, 8, 10) {
        Some(x) => x,
        None => {
            return None;
        },
    };
    let hour = match read_field(v, 11, 13) {
        Some(x) => x,
        None => {
            return None;
        },
    };
    let min = match read_field(v, 14, 16) {
        Some(x) => x,
        None => {
            return None;
        },
    };
    let sec = match read_field(v, 17, 19) {
        Some(x) => x,
        None => {
            return None;
        },
    };
    if month < 1 || month > 12 || day < 1 || day > 31 || hour < 0 || hour > 23 || min < 0 || min
        > 59 || sec < 0 || sec > 59 {
        return None;
    }
    let days: i64 = count_days_before_year(year) + count_days_before_month(year, month) + (day - 1);
    Some(days * 86400 + hour * 3600 + min * 60 + sec)
}

/// Reads a date and time `YYYY-MM-DD HH:MM:SS` as epoch seconds, without leap
/// seconds.
pub fn parse_datetime_to_epoch(s: &str) -> (r: Option<i64>)
    ensures
        r == match datetime_seconds(s@) {
            Some(x) => Some(x as i64),
            None => None,
        },
        datetime_seconds(s@) matches Some(x) ==> 0 <= x < 400_000_000_000,
{
    let v = chars_of(s);
    datetime_of(&v)
}

/// The milliseconds that the decimals of a second stand for: of the text
/// after the point, up to the next point, the first three characters are read
/// as `u64` text is read, with an optional plus sign, and one or two of them
/// count as tenths or hundredths. Decimals that are no number count as none.
pub open spec fn fraction_millis(after_point: Seq<char>) -> int {
    let upto = position_of_char(after_point, '.');
    let len = if upto < 3 {
        upto
    } else {
        3
    };
    let frac = after_point.take(len);
    let value: int = if frac.len() > 0 && frac[0] == '-' {
        0
    } else {
        match signed_value(frac) {
            Some(v) => v,
            None => 0,
        }
    };
    if len == 1 {
        value * 100
    } else if len == 2 {
        value * 10
    } else {
        value
    }
}

/// The epoch milliseconds of a date and time with optional decimals,
/// `YYYY-MM-DD HH:MM:SS.mmm`: `None` where the text has fewer than nineteen
/// characters or what stands before the first point is no date and time.
pub open spec fn datetime_millis(text: Seq<char>) -> Option<int> {
    let dot = position_of_char(text, '.');
    if text.len() < 19 {
        None
    } else {
        match datetime_seconds(text.take(dot)) {
            Some(secs) => Some(
                secs * 1000 + if dot < text.len() {
                    fraction_millis(text.skip(dot + 1))
                } else {
                    0
                },
            ),
            None => None,
        }
    }
}

/// Reads a date and time with optional decimals as epoch milliseconds.
pub fn parse_datetime_millis(s: &str) -> (r: Option<i64>)
    ensures
        r == match datetime_millis(s@) {
            Some(x) => Some(x as i64),
            None => None,
        },
        datetime_millis(s@) matches Some(x) ==> 0 <= x < 400_000_000_100_000,
{
    let v = chars_of(s);
    let n: usize = v.len();
    if n < 19 {
        return None;
    }
    let dot = find_char(&v, '.');
    let mut head: Vec<char> = Vec::new();
    let mut i: usize = 0;
    while i < dot
        invariant
            i <= dot <= n,
            n == v@.len(),
            head@ == v@.take(i as int),
        decreases dot - i,
    {
        head.push(v[i]);
        assert(v@.take(i + 1) =~= v@.take(i as int).push(v@[i as int]));
        i += 1;
    }
    let secs = match datetime_of(&head) {
        Some(x) => x,
        None => {
            return None;
        },
    };
    let mut millis: i64 = 0;
    if dot < n {
        let mut tail: Vec<char> = Vec::new();
        let mut j: usize = dot + 1;
        while j < n
            invariant
                dot + 1 <= j <= n,
                n == v@.len(),
                tail@ == v@.subrange(dot + 1, j as int),
            decreases n - j,
        {
            tail.push(v[j]);
            assert(v@.subrange(dot + 1, j + 1) =~= v@.subrange(dot + 1, j as int).push(
                v@[j as int],
            ));
            j += 1;
        }
        assert(tail@ =~= v@.skip(dot + 1));
        let upto = find_char(&tail, '.');
        let len: usize = if upto < 3 {
            upto
        } else {
            3
        };
        assert(tail@.subrange(0, len as int) =~= tail@.take(len as int));
        let value: i64 = if len > 0 && tail[0] == '-' {
            0
        } else {
            match read_field(&tail, 0, len) {
                Some(x) => x,
                None => 0,
            }
        };
        proof {
            lemma_digits_bound(tail@.take(len as int));
            if len > 0 && tail@[0] == '+' {
                lemma_digits_bound(tail@.take(len as int).skip(1));
            }
        }
        millis = if len == 1 {
            value * 100
        } else if len == 2 {
            value * 10
        } else {
            value
        };
    }
    Some(secs * 1000 + millis)
}

} // verus!
