use frogpad::date::{disp_md, Date};
use frogpad::quick_date::{parse, parse_digits};

fn date(year: i32, month: u32, day: u32) -> Date {
    Date { year, month, day }
}

fn today() -> Date {
    date(2024, 1, 15)
}

#[test]
fn plus_five_days() {
    assert_eq!(parse("+5", today()), Some(date(2024, 1, 20)));
}

#[test]
fn minus_five_days() {
    assert_eq!(parse("-5", today()), Some(date(2024, 1, 10)));
}

#[test]
fn month_and_day_of_this_year() {
    assert_eq!(parse("0115", today()), Some(date(2024, 1, 15)));
    assert_eq!(parse("1231", today()), Some(date(2024, 12, 31)));
}

#[test]
fn year_month_day() {
    assert_eq!(parse("20240704", today()), Some(date(2024, 7, 4)));
}

#[test]
fn letters_are_no_date() {
    assert_eq!(parse("abcd", today()), None);
}

#[test]
fn empty_and_bare_signs_are_no_date() {
    assert_eq!(parse("", today()), None);
    assert_eq!(parse("+", today()), None);
    assert_eq!(parse("-", today()), None);
    assert_eq!(parse("++5", today()), None);
    assert_eq!(parse("+-5", today()), None);
    assert_eq!(parse("+5a", today()), None);
}

#[test]
fn wrong_lengths_are_no_date() {
    assert_eq!(parse("1", today()), None);
    assert_eq!(parse("011", today()), None);
    assert_eq!(parse("01155", today()), None);
    assert_eq!(parse("2024070", today()), None);
    assert_eq!(parse("202407041", today()), None);
}

#[test]
fn days_that_do_not_exist_are_no_date() {
    assert_eq!(parse("1301", today()), None);
    assert_eq!(parse("0001", today()), None);
    assert_eq!(parse("0100", today()), None);
    assert_eq!(parse("0230", today()), None);
    assert_eq!(parse("20230229", today()), None);
    assert_eq!(parse("20240229", today()), Some(date(2024, 2, 29)));
    assert_eq!(parse("0229", date(2023, 5, 5)), None);
}

#[test]
fn signs_inside_are_no_digits() {
    assert_eq!(parse("12+3", today()), None);
    assert_eq!(parse("2024+7+4", today()), None);
}

#[test]
fn shifts_cross_months_and_years() {
    assert_eq!(parse("+17", today()), Some(date(2024, 2, 1)));
    assert_eq!(parse("-15", today()), Some(date(2023, 12, 31)));
    assert_eq!(parse("+366", today()), Some(date(2025, 1, 15)));
    assert_eq!(parse("+0", today()), Some(today()));
    assert_eq!(parse("-0", today()), Some(today()));
    assert_eq!(parse("+0005", today()), Some(date(2024, 1, 20)));
}

#[test]
fn shifts_out_of_range_are_no_date() {
    assert_eq!(parse("+1000000000000", today()), None);
    assert_eq!(parse("-1000000000000", today()), None);
    assert_eq!(parse("+99999999999999999999999999", today()), None);
    assert_eq!(parse("+1", date(262142, 12, 31)), None);
    assert_eq!(parse("-1", date(-262143, 1, 1)), None);
}

#[test]
fn from_ymd_opt_checks_the_calendar() {
    assert_eq!(Date::from_ymd_opt(2015, 3, 14), Some(date(2015, 3, 14)));
    assert_eq!(Date::from_ymd_opt(2015, 0, 14), None);
    assert_eq!(Date::from_ymd_opt(2015, 2, 29), None);
    assert_eq!(Date::from_ymd_opt(-4, 2, 29), Some(date(-4, 2, 29)));
    assert_eq!(Date::from_ymd_opt(1900, 2, 29), None);
    assert_eq!(Date::from_ymd_opt(2000, 2, 29), Some(date(2000, 2, 29)));
    assert_eq!(Date::from_ymd_opt(2023, 4, 31), None);
    assert_eq!(Date::from_ymd_opt(400000, 1, 1), None);
    assert_eq!(Date::from_ymd_opt(-400000, 1, 1), None);
    assert_eq!(Date::from_ymd_opt(262142, 12, 31), Some(date(262142, 12, 31)));
    assert_eq!(Date::from_ymd_opt(262143, 1, 1), None);
    assert_eq!(Date::from_ymd_opt(-262143, 1, 1), Some(date(-262143, 1, 1)));
    assert_eq!(Date::from_ymd_opt(-262144, 12, 31), None);
}

#[test]
fn succ_opt_is_the_next_day() {
    assert_eq!(date(2015, 6, 3).succ_opt(), Some(date(2015, 6, 4)));
    assert_eq!(date(2023, 2, 28).succ_opt(), Some(date(2023, 3, 1)));
    assert_eq!(date(2024, 2, 28).succ_opt(), Some(date(2024, 2, 29)));
    assert_eq!(date(2024, 12, 31).succ_opt(), Some(date(2025, 1, 1)));
    assert_eq!(date(262142, 12, 31).succ_opt(), None);
    assert_eq!(date(2023, 2, 30).succ_opt(), None);
}

#[test]
fn pred_opt_is_the_day_before() {
    assert_eq!(date(2015, 6, 3).pred_opt(), Some(date(2015, 6, 2)));
    assert_eq!(date(2024, 3, 1).pred_opt(), Some(date(2024, 2, 29)));
    assert_eq!(date(2025, 1, 1).pred_opt(), Some(date(2024, 12, 31)));
    assert_eq!(date(-262143, 1, 1).pred_opt(), None);
    assert_eq!(date(2023, 13, 1).pred_opt(), None);
}

#[test]
fn checked_add_days_counts_days() {
    assert_eq!(date(2022, 2, 20).checked_add_days(9), Some(date(2022, 3, 1)));
    assert_eq!(date(2022, 7, 31).checked_add_days(2), Some(date(2022, 8, 2)));
    assert_eq!(date(2022, 7, 31).checked_add_days(1000000000000), None);
    assert_eq!(date(2022, 7, 31).checked_add_days(0), Some(date(2022, 7, 31)));
    assert_eq!(date(2000, 1, 1).checked_add_days(146097), Some(date(2400, 1, 1)));
}

#[test]
fn checked_sub_days_counts_days() {
    assert_eq!(date(2022, 2, 20).checked_sub_days(6), Some(date(2022, 2, 14)));
    assert_eq!(date(2022, 2, 20).checked_sub_days(1000000000000), None);
    assert_eq!(date(2022, 3, 1).checked_sub_days(1), Some(date(2022, 2, 28)));
    assert_eq!(date(1, 1, 1).checked_sub_days(1), Some(date(0, 12, 31)));
}

#[test]
fn parse_digits_reads_numbers() {
    assert_eq!(parse_digits("0123", 0, 4), Some(123));
    assert_eq!(parse_digits("0123", 1, 3), Some(12));
    assert_eq!(parse_digits("0123", 2, 2), None);
    assert_eq!(parse_digits("01a3", 0, 4), None);
    assert_eq!(parse_digits("18446744073709551615", 0, 20), Some(u64::MAX));
    assert_eq!(parse_digits("18446744073709551616", 0, 20), None);
}

#[test]
fn disp_md_shows_month_and_day() {
    assert_eq!(disp_md(date(2024, 1, 5)), "Jan 05");
    assert_eq!(disp_md(date(2024, 12, 31)), "Dec 31");
    assert_eq!(disp_md(date(2024, 7, 4)), "Jul 04");
    assert_eq!(disp_md(date(2024, 13, 4)), "ERR 04");
}
