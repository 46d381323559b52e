use flexprice::output::ascii_lower;
use flexprice::output::status_badge;
use flexprice::strutil::str_eq;
use flexprice::strutil::u16_to_string;

#[test]
fn positive_statuses_turn_green_bold() {
    assert_eq!(status_badge("active"), "\u{1b}[1;32mactive\u{1b}[0m");
    assert_eq!(status_badge("paid"), "\u{1b}[1;32mpaid\u{1b}[0m");
}

#[test]
fn classification_ignores_letter_case() {
    assert_eq!(status_badge("ACTIVE"), "\u{1b}[1;32mACTIVE\u{1b}[0m");
    assert_eq!(status_badge("Draft"), "\u{1b}[33mDraft\u{1b}[0m");
}

#[test]
fn pending_statuses_turn_yellow() {
    assert_eq!(status_badge("pending"), "\u{1b}[33mpending\u{1b}[0m");
}

#[test]
fn terminated_statuses_turn_red() {
    assert_eq!(status_badge("cancelled"), "\u{1b}[31mcancelled\u{1b}[0m");
    assert_eq!(status_badge("voided"), "\u{1b}[31mvoided\u{1b}[0m");
    assert_eq!(status_badge("inactive"), "\u{1b}[31minactive\u{1b}[0m");
}

#[test]
fn transitional_statuses_turn_blue() {
    assert_eq!(status_badge("trialing"), "\u{1b}[34mtrialing\u{1b}[0m");
    assert_eq!(status_badge("paused"), "\u{1b}[34mpaused\u{1b}[0m");
}

#[test]
fn unknown_statuses_stay_plain() {
    assert_eq!(status_badge("archived"), "archived");
    assert_eq!(status_badge(""), "");
}

#[test]
fn ascii_lowering_touches_only_ascii_letters() {
    assert_eq!(ascii_lower("AbC-123"), "abc-123");
    assert_eq!(ascii_lower("déjà"), "déjà");
}

#[test]
fn numbers_render_in_decimal() {
    assert_eq!(u16_to_string(0), "0");
    assert_eq!(u16_to_string(7), "7");
    assert_eq!(u16_to_string(404), "404");
    assert_eq!(u16_to_string(65535), "65535");
}

#[test]
fn string_equality_compares_characters() {
    assert!(str_eq("abc", "abc"));
    assert!(!str_eq("abc", "abd"));
    assert!(!str_eq("abc", "ab"));
}
