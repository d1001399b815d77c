use dick_grower::text::{decimal, discord_timestamp, escape_markdown, ordinal_suffix, pluralize, same_text};
use dick_grower::time::{
    check_30_minutes, check_30_minutes_at, check_utc_day_reset, check_utc_day_reset_at,
    cooldown_remaining_at, utc_day_of, utc_day_wait_at,
};

#[test]
fn ordinal_suffixes_follow_english() {
    let cases = [
        (0, "th"), (1, "st"), (2, "nd"), (3, "rd"), (4, "th"), (10, "th"), (11, "th"), (12, "th"),
        (13, "th"), (21, "st"), (22, "nd"), (23, "rd"), (101, "st"), (111, "th"), (112, "th"),
        (113, "th"), (1002, "nd"),
    ];
    for (n, s) in cases {
        assert_eq!(ordinal_suffix(n), s, "{}", n);
    }
}

#[test]
fn decimal_renders_every_i64() {
    assert_eq!(decimal(0), "0");
    assert_eq!(decimal(7), "7");
    assert_eq!(decimal(-123), "-123");
    assert_eq!(decimal(1700000000), "1700000000");
    assert_eq!(decimal(i64::MAX), i64::MAX.to_string());
    assert_eq!(decimal(i64::MIN), i64::MIN.to_string());
}

#[test]
fn discord_timestamp_tags() {
    assert_eq!(discord_timestamp(1700000000), "<t:1700000000:R>");
    assert_eq!(discord_timestamp(-5), "<t:-5:R>");
}

#[test]
fn pluralize_uses_singular_only_for_one() {
    assert_eq!(pluralize(1, "day", "days"), "1 day");
    assert_eq!(pluralize(3, "day", "days"), "3 days");
    assert_eq!(pluralize(0, "day", "days"), "0 days");
    assert_eq!(pluralize(-1, "day", "days"), "-1 days");
}

#[test]
fn escape_markdown_escapes_each_special_character() {
    assert_eq!(escape_markdown("plain name"), "plain name");
    assert_eq!(escape_markdown("a*b_c`d~e|f\\g"), "a\\*b\\_c\\`d\\~e\\|f\\\\g");
    assert_eq!(escape_markdown("**bold**"), "\\*\\*bold\\*\\*");
    assert_eq!(escape_markdown("été_ü"), "été\\_ü");
    assert_eq!(escape_markdown(""), "");
}

#[test]
fn escape_markdown_agrees_with_chained_replacements() {
    let samples = ["x\\*y", "__init__", "`code`", "~~strike~~", "a|b|c", "\\\\", "mixed *_`~|\\ text"];
    for s in samples {
        let expected = s
            .replace('\\', "\\\\")
            .replace('*', "\\*")
            .replace('_', "\\_")
            .replace('`', "\\`")
            .replace('~', "\\~")
            .replace('|', "\\|");
        assert_eq!(escape_markdown(s), expected);
    }
}

#[test]
fn same_text_compares_characters() {
    assert!(same_text("grow", "grow"));
    assert!(!same_text("grow", "grown"));
    assert!(!same_text("grow", "gross"));
    assert!(same_text("", ""));
}

#[test]
fn utc_days_round_down() {
    assert_eq!(utc_day_of(0), 0);
    assert_eq!(utc_day_of(86399), 0);
    assert_eq!(utc_day_of(86400), 1);
    assert_eq!(utc_day_of(-1), -1);
    assert_eq!(utc_day_of(-86400), -1);
    assert_eq!(utc_day_of(-86401), -2);
    assert_eq!(utc_day_of(1710072000), 19792);
}

#[test]
fn utc_day_reset_reports_new_day_and_time_to_midnight() {
    // 2024-03-10 12:00:00 and 2024-03-10 23:00:00
    let noon = 1710072000;
    assert_eq!(check_utc_day_reset_at(noon, noon + 11 * 3600), (false, 3600));
    // next day 00:30
    assert_eq!(check_utc_day_reset_at(noon, noon + 12 * 3600 + 1800), (true, 86400 - 1800));
    // exactly midnight counts as the new day, a full day to go
    assert_eq!(check_utc_day_reset_at(noon, noon + 12 * 3600), (true, 86400));
    assert_eq!(utc_day_wait_at(noon, noon + 3600), 11 * 3600);
    assert_eq!(utc_day_wait_at(noon, noon + 13 * 3600), 0);
}

#[test]
fn utc_day_reset_now_is_within_a_day() {
    let (_, left) = check_utc_day_reset(0);
    assert!(left > 0 && left <= 86400);
    let (new_day, _) = check_utc_day_reset(0);
    assert!(new_day, "the current time is not on 1970-01-01");
}

#[test]
fn thirty_minute_window() {
    assert_eq!(check_30_minutes_at(1000, 1000), (false, 1800));
    assert_eq!(check_30_minutes_at(1000, 2799), (false, 1));
    assert_eq!(check_30_minutes_at(1000, 2800), (true, 0));
    assert_eq!(check_30_minutes_at(1000, 99999), (true, 0));
    assert_eq!(check_30_minutes(0), (true, 0));
}

#[test]
fn cooldowns_count_down_to_zero() {
    assert_eq!(cooldown_remaining_at(1000, 1000, 60), 3600);
    assert_eq!(cooldown_remaining_at(1000, 4599, 60), 1);
    assert_eq!(cooldown_remaining_at(1000, 4600, 60), 0);
    assert_eq!(cooldown_remaining_at(1000, 2000, 15), 0);
    assert_eq!(cooldown_remaining_at(1000, 1000, -5), 0);
}
