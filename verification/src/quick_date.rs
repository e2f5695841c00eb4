//! Quick date entry: `+N` and `-N` count days from today, `MMDD` names a day
//! of this year, `YYYYMMDD` names a day outright. Anything else is no date.

use crate::date::{lemma_day_number_in_range, lemma_range_width, valid_ymd, Date};
use vstd::prelude::*;
use vstd::string::*;

verus! {

pub open spec fn is_digit(c: char) -> bool {
    '0' <= c <= '9'
}

pub open spec fn digit_value(c: char) -> nat {
    (c as u32 - '0' as u32) as nat
}

pub open spec fn all_digits(s: Seq<char>) -> bool {
    forall|i: int| 0 <= i < s.len() ==> is_digit(#[trigger] s[i])
}

/// The number that the decimal digits `s` write.
pub open spec fn decimal_value(s: Seq<char>) -> nat
    decreases s.len(),
{
    if s.len() == 0 {
        0
    } else {
        10 * decimal_value(s.drop_last()) + digit_value(s.last())
    }
}

/// The date with this year, month and day, if there is one.
pub open spec fn date_of(year: int, month: int, day: int) -> Option<Date> {
    if valid_ymd(year, month, day) {
        Some(Date { year: year as i32, month: month as u32, day: day as u32 })
    } else {
        None
    }
}

/// The date that `text` stands for on the day `today`.
pub open spec fn parse_spec(text: Seq<char>, today: Date) -> Option<Date> {
    if text.len() == 0 {
        None
    } else if text[0] == '+' {
        if text.len() >= 2 && all_digits(text.skip(1)) {
            today.shifted(decimal_value(text.skip(1)) as int)
        } else {
            None
        }
    } else if text[0] == '-' {
        if text.len() >= 2 && all_digits(text.skip(1)) {
            today.shifted(-(decimal_value(text.skip(1)) as int))
        } else {
            None
        }
    } else if text.len() == 4 && all_digits(text) {
        date_of(
            today.year as int,
            decimal_value(text.subrange(0, 2)) as int,
            decimal_value(text.subrange(2, 4)) as int,
        )
    } else if text.len() == 8 && all_digits(text) {
        date_of(
            decimal_value(text.subrange(0, 4)) as int,
            decimal_value(text.subrange(4, 6)) as int,
            decimal_value(text.subrange(6, 8)) as int,
        )
    } else {
        None
    }
}

/// A digit string is worth at least as much as each of its prefixes.
pub proof fn lemma_decimal_value_prefix(s: Seq<char>, k: int)
    requires
        0 <= k <= s.len(),
    ensures
        decimal_value(s.subrange(0, k)) <= decimal_value(s),
    decreases s.len(),
{
    if k == s.len() {
        assert(s.subrange(0, k) =~= s);
    } else {
        lemma_decimal_value_prefix(s.drop_last(), k);
        assert(s.drop_last().subrange(0, k) =~= s.subrange(0, k));
    }
}

/// `n` digits write a number below the `n`-th power of ten.
pub proof fn lemma_decimal_value_bound(s: Seq<char>)
    requires
        all_digits(s),
        s.len() <= 8,
    ensures
        decimal_value(s) < 100_000_000,
        s.len() <= 4 ==> decimal_value(s) < 10_000,
        s.len() <= 2 ==> decimal_value(s) < 100,
{
    reveal_with_fuel(decimal_value, 9);
    let t = s;
    if t.len() >= 1 {
        assert(is_digit(t[t.len() - 1]));
        let t1 = t.drop_last();
        if t1.len() >= 1 {
            assert(is_digit(t1[t1.len() - 1]));
            let t2 = t1.drop_last();
            if t2.len() >= 1 {
                assert(is_digit(t2[t2.len() - 1]));
                let t3 = t2.drop_last();
                if t3.len() >= 1 {
                    assert(is_digit(t3[t3.len() - 1]));
                    let t4 = t3.drop_last();
                    if t4.len() >= 1 {
                        assert(is_digit(t4[t4.len() - 1]));
                        let t5 = t4.drop_last();
                        if t5.len() >= 1 {
                            assert(is_digit(t5[t5.len() - 1]));
                            let t6 = t5.drop_last();
                            if t6.len() >= 1 {
                                assert(is_digit(t6[t6.len() - 1]));
                                let t7 = t6.drop_last();
                                if t7.len() >= 1 {
                                    assert(is_digit(t7[t7.len() - 1]));
                                }
                            }
                        }
                    }
                }
            }
        }
    }
}

/// Reads the characters of `text` from `from` up to `to` as a decimal
/// number. `None` where there is no character, where one is no digit, or
/// where the number does not fit.
pub fn parse_digits(text: &str, from: usize, to: usize) -> (r: Option<u64>)
    requires
        from <= to <= text@.len(),
    ensures
        r is Some <==> (from < to && all_digits(text@.subrange(from as int, to as int))
            && decimal_value(text@.subrange(from as int, to as int)) <= u64::MAX),
        r is Some ==> r->0 == decimal_value(text@.subrange(from as int, to as int)),
{
    if from == to {
        return None;
    }
    let ghost whole = text@.subrange(from as int, to as int);
    let mut value: u64 = 0;
    let mut i: usize = from;
    while i < to
        invariant
            from <= i <= to <= text@.len(),
            whole == text@.subrange(from as int, to as int),
            all_digits(text@.subrange(from as int, i as int)),
            value == decimal_value(text@.subrange(from as int, i as int)),
        decreases to - i,
    {
        let c = text.get_char(i);
        let ghost before = text@.subrange(from as int, i as int);
        let ghost after = text@.subrange(from as int, i + 1);
        proof {
            assert(after.drop_last() =~= before);
            assert(after.last() == c);
            assert(whole.subrange(0, i + 1 - from) =~= after);
            lemma_decimal_value_prefix(whole, i + 1 - from);
        }
        if !(c >= '0' && c <= '9') {
            assert(!is_digit(whole[i - from]));
            return None;
        }
        let digit: u64 = (c as u32 - '0' as u32) as u64;
        if value > (u64::MAX - digit) / 10 {
            return None;
        }
        value = value * 10 + digit;
        proof {
            assert forall|k: int| 0 <= k < after.len() implies is_digit(#[trigger] after[k]) by {
                if k < before.len() {
                    assert(after[k] == before[k]);
                }
            }
        }
        i += 1;
    }
    assert(text@.subrange(from as int, i as int) =~= whole);
    Some(value)
}

/// A shift by more days than the calendar spans leads nowhere.
proof fn lemma_far_shift(today: Date, days: int)
    requires
        days >= 200_000_000 || days <= -200_000_000,
    ensures
        today.shifted(days) is None,
{
    if today.valid() {
        lemma_day_number_in_range(today);
        lemma_range_width();
    }
}

/// Reads the sign-less part of `+N` or `-N`: the count of days, if the
/// characters after the sign are digits and their number fits.
fn parse_count(text: &str, len: usize) -> (r: Option<u64>)
    requires
        len == text@.len(),
        len >= 1,
    ensures
        r is Some ==> len >= 2 && all_digits(text@.skip(1)) && r->0 == decimal_value(
            text@.skip(1),
        ),
        r is None ==> len < 2 || !all_digits(text@.skip(1)) || decimal_value(text@.skip(1))
            > u64::MAX,
{
    assert(text@.skip(1) =~= text@.subrange(1, len as int));
    parse_digits(text, 1, len)
}

/// Reads `text` as a quick date entry made on the day `today`.
pub fn parse(text: &str, today: Date) -> (r: Option<Date>)
    ensures
        r == parse_spec(text@, today),
{
    let len = text.unicode_len();
    if len == 0 {
        return None;
    }
    let first = text.get_char(0);
    if first == '+' {
        match parse_count(text, len) {
            Some(days) => today.checked_add_days(days),
            None => {
                proof {
                    if len >= 2 && all_digits(text@.skip(1)) {
                        lemma_far_shift(today, decimal_value(text@.skip(1)) as int);
                    }
                }
                None
            },
        }
    } else if first == '-' {
        match parse_count(text, len) {
            Some(days) => today.checked_sub_days(days),
            None => {
                proof {
                    if len >= 2 && all_digits(text@.skip(1)) {
                        lemma_far_shift(today, -(decimal_value(text@.skip(1)) as int));
                    }
                }
                None
            },
        }
    } else if len == 4 {
        let month = parse_digits(text, 0, 2);
        let day = parse_digits(text, 2, 4);
        proof {
            lemma_split_digits(text@, 2);
            if all_digits(text@) {
                lemma_decimal_value_bound(text@.subrange(0, 2));
                lemma_decimal_value_bound(text@.subrange(2, 4));
            }
        }
        match (month, day) {
            (Some(month), Some(day)) => Date::from_ymd_opt(today.year, month as u32, day as u32),
            _ => None,
        }
    } else if len == 8 {
        let year = parse_digits(text, 0, 4);
        let month = parse_digits(text, 4, 6);
        let day = parse_digits(text, 6, 8);
        proof {
            lemma_split_digits(text@, 4);
            lemma_split_digits(text@.subrange(4, 8), 2);
            assert(text@.subrange(4, 8).subrange(0, 2) =~= text@.subrange(4, 6));
            assert(text@.subrange(4, 8).subrange(2, 4) =~= text@.subrange(6, 8));
            if all_digits(text@) {
                lemma_decimal_value_bound(text@.subrange(0, 4));
                lemma_decimal_value_bound(text@.subrange(4, 6));
                lemma_decimal_value_bound(text@.subrange(6, 8));
            }
        }
        match (year, month, day) {
            (Some(year), Some(month), Some(day)) => Date::from_ymd_opt(
                year as i32,
                month as u32,
                day as u32,
            ),
            _ => None,
        }
    } else {
        None
    }
}

/// A text is all digits exactly if both parts of it are.
proof fn lemma_split_digits(s: Seq<char>, k: int)
    requires
        0 <= k <= s.len(),
    ensures
        all_digits(s) <==> all_digits(s.subrange(0, k)) && all_digits(s.subrange(k, s.len() as int)),
{
    let a = s.subrange(0, k);
    let b = s.subrange(k, s.len() as int);
    if all_digits(a) && all_digits(b) {
        assert forall|i: int| 0 <= i < s.len() implies is_digit(#[trigger] s[i]) by {
            if i < k {
                assert(s[i] == a[i]);
            } else {
                assert(s[i] == b[i - k]);
            }
        }
    }
    if all_digits(s) {
        assert forall|i: int| 0 <= i < a.len() implies is_digit(#[trigger] a[i]) by {
            assert(a[i] == s[i]);
        }
        assert forall|i: int| 0 <= i < b.len() implies is_digit(#[trigger] b[i]) by {
            assert(b[i] == s[i + k]);
        }
    }
}

} // verus!
