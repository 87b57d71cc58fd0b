use telegram_gitlab::decimal::parse_i64;
use telegram_gitlab::health::{health, HEALTH_STATUS};
use telegram_gitlab::text::final_segment_of;

#[test]
fn final_segment_of_a_branch_ref() {
    assert_eq!(final_segment_of("refs/heads/main"), "main");
}

#[test]
fn final_segment_of_a_ref_with_a_slash_in_the_branch() {
    assert_eq!(final_segment_of("refs/heads/feature/login"), "login");
}

#[test]
fn final_segment_of_a_text_without_separator_is_the_text() {
    assert_eq!(final_segment_of("main"), "main");
}

#[test]
fn final_segment_of_the_empty_text_is_empty() {
    assert_eq!(final_segment_of(""), "");
}

#[test]
fn final_segment_behind_a_trailing_separator_is_empty() {
    assert_eq!(final_segment_of("refs/heads/"), "");
    assert_eq!(final_segment_of("/"), "");
}

#[test]
fn final_segment_behind_a_leading_separator() {
    assert_eq!(final_segment_of("/main"), "main");
}

#[test]
fn final_segment_keeps_characters_outside_ascii() {
    assert_eq!(final_segment_of("refs/heads/fonctionnalité/été"), "été");
    assert_eq!(final_segment_of("ветка/分支"), "分支");
    assert_eq!(final_segment_of("héé"), "héé");
}

#[test]
fn final_segment_agrees_with_splitting() {
    let samples = [
        "",
        "/",
        "//",
        "a",
        "a/",
        "/a",
        "a/b",
        "a//b",
        "refs/heads/main",
        "refs/tags/v1.0.0",
        "refs/heads/feature/login",
        "é/ü/ß",
        "a\\b/c d",
    ];
    for sample in samples {
        assert_eq!(final_segment_of(sample), sample.split('/').last().unwrap());
    }
}

#[test]
fn parse_plain_digits() {
    assert_eq!(parse_i64("555"), Some(555));
    assert_eq!(parse_i64("0"), Some(0));
    assert_eq!(parse_i64("7"), Some(7));
}

#[test]
fn parse_with_a_sign() {
    assert_eq!(parse_i64("-1001234567890"), Some(-1001234567890));
    assert_eq!(parse_i64("+42"), Some(42));
    assert_eq!(parse_i64("-0"), Some(0));
    assert_eq!(parse_i64("+0"), Some(0));
}

#[test]
fn parse_ignores_leading_zeros() {
    assert_eq!(parse_i64("000555"), Some(555));
    assert_eq!(parse_i64("-0007"), Some(-7));
    assert_eq!(parse_i64("00000000000000000000000000000000000000001"), Some(1));
}

#[test]
fn parse_reaches_both_ends_of_the_range() {
    assert_eq!(parse_i64("9223372036854775807"), Some(i64::MAX));
    assert_eq!(parse_i64("+9223372036854775807"), Some(i64::MAX));
    assert_eq!(parse_i64("-9223372036854775808"), Some(i64::MIN));
    assert_eq!(parse_i64("-9223372036854775807"), Some(i64::MIN + 1));
}

#[test]
fn parse_turns_down_what_lies_outside_the_range() {
    assert_eq!(parse_i64("9223372036854775808"), None);
    assert_eq!(parse_i64("-9223372036854775809"), None);
    assert_eq!(parse_i64("92233720368547758070"), None);
    assert_eq!(parse_i64("-92233720368547758080"), None);
    assert_eq!(parse_i64("340282366920938463463374607431768211456"), None);
    assert_eq!(
        parse_i64("999999999999999999999999999999999999999999999999999999999999999999999999"),
        None
    );
}

#[test]
fn parse_turns_down_texts_without_digits() {
    assert_eq!(parse_i64(""), None);
    assert_eq!(parse_i64("-"), None);
    assert_eq!(parse_i64("+"), None);
}

#[test]
fn parse_turns_down_anything_beside_sign_and_digits() {
    assert_eq!(parse_i64("abc"), None);
    assert_eq!(parse_i64("12a"), None);
    assert_eq!(parse_i64("a12"), None);
    assert_eq!(parse_i64(" 12"), None);
    assert_eq!(parse_i64("12 "), None);
    assert_eq!(parse_i64("1 2"), None);
    assert_eq!(parse_i64("1_000"), None);
    assert_eq!(parse_i64("1.0"), None);
    assert_eq!(parse_i64("1e3"), None);
    assert_eq!(parse_i64("0x10"), None);
    assert_eq!(parse_i64("--1"), None);
    assert_eq!(parse_i64("+-1"), None);
    assert_eq!(parse_i64("1-"), None);
    assert_eq!(parse_i64("1+1"), None);
    assert_eq!(parse_i64("@channel"), None);
}

#[test]
fn parse_turns_down_digits_outside_ascii() {
    assert_eq!(parse_i64("٣"), None);
    assert_eq!(parse_i64("１２"), None);
    assert_eq!(parse_i64("12³"), None);
}

#[test]
fn parse_agrees_with_the_standard_parser() {
    let samples = [
        "",
        "+",
        "-",
        "0",
        "-0",
        "+0",
        "00",
        "555",
        "-555",
        "+555",
        "9223372036854775806",
        "9223372036854775807",
        "9223372036854775808",
        "9223372036854775809",
        "-9223372036854775807",
        "-9223372036854775808",
        "-9223372036854775809",
        "18446744073709551615",
        "18446744073709551616",
        "100000000000000000000",
        "-100000000000000000000",
        "0000000000000000000000009223372036854775807",
        "0000000000000000000000009223372036854775808",
        " 1",
        "1 ",
        "1\n",
        "\t1",
        "1,0",
        "٣",
        "１",
        "+-1",
        "-+1",
        "++1",
        "1a",
        "a1",
        "é",
    ];
    for sample in samples {
        assert_eq!(parse_i64(sample), sample.parse::<i64>().ok(), "on {:?}", sample);
    }
}

#[test]
fn parse_agrees_with_the_standard_parser_on_every_small_number() {
    for n in -2000i64..=2000i64 {
        let written = format!("{}", n);
        assert_eq!(parse_i64(&written), Some(n));
        let padded = format!("{:+06}", n);
        assert_eq!(parse_i64(&padded), padded.parse::<i64>().ok());
    }
}

#[test]
fn health_answers_with_its_fixed_words() {
    assert_eq!(health(), "I'm ok");
    assert_eq!(HEALTH_STATUS, 200);
}
