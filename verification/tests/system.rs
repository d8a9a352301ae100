use vibewm::battery::{
    battery_info, parse_u8, read_battery_charging, read_battery_percent, BatteryInfo,
    DEFAULT_BATTERY_CHARGING, DEFAULT_BATTERY_PERCENT,
};
use vibewm::render_command_center::{truncate_string, FontWeight, Icon};
use vibewm::text::{
    char_is_space, chars_of, has_part, has_prefix, matches_at, slice_of, string_of, strip_code,
    trimmed,
};

fn chars(s: &str) -> Vec<char> {
    s.chars().collect()
}

fn number(s: &str) -> Option<u8> {
    parse_u8(&chars(s))
}

fn some(s: &str) -> Option<String> {
    Some(s.to_string())
}

#[test]
fn numbers_from_0_to_255_are_read() {
    assert_eq!(number("0"), Some(0));
    assert_eq!(number("85"), Some(85));
    assert_eq!(number("100"), Some(100));
    assert_eq!(number("255"), Some(255));
    assert_eq!(number("+7"), Some(7));
    assert_eq!(number("007"), Some(7));
    assert_eq!(number("0000000000000000000000255"), Some(255));
}

#[test]
fn other_texts_are_no_numbers() {
    for text in ["", "+", "256", "1000", "99999999999999999999", "-1", "-0", "8 5", " 85", "85%", "1_0", "++1", "１２", "4294967296"] {
        assert_eq!(number(text), None);
    }
}

#[test]
fn parse_u8_agrees_with_the_standard_library() {
    for text in ["0", "9", "25", "255", "256", "260", "999", "+", "+0", "+255", "+256", "-5", "", "0255", "2 5", "a", "2a"] {
        assert_eq!(number(text), text.parse::<u8>().ok());
    }
}

#[test]
fn the_charge_is_that_of_the_first_file_with_a_number() {
    assert_eq!(read_battery_percent(&vec![some("85\n")]), Some(85));
    assert_eq!(read_battery_percent(&vec![None, some(" 42 ")]), Some(42));
    assert_eq!(read_battery_percent(&vec![some("full"), some("42")]), Some(42));
    assert_eq!(read_battery_percent(&vec![some("7"), some("42")]), Some(7));
    assert_eq!(read_battery_percent(&vec![some("300"), None]), None);
    assert_eq!(read_battery_percent(&vec![None, None]), None);
    assert_eq!(read_battery_percent(&Vec::new()), None);
}

#[test]
fn charging_is_told_by_the_first_file_that_could_be_read() {
    assert_eq!(read_battery_charging(&vec![some("Charging\n")]), Some(true));
    assert_eq!(read_battery_charging(&vec![some("Discharging\n")]), Some(false));
    assert_eq!(read_battery_charging(&vec![some("charging")]), Some(false));
    assert_eq!(read_battery_charging(&vec![some("Charging now")]), Some(false));
    assert_eq!(read_battery_charging(&vec![None, some("  Charging ")]), Some(true));
    assert_eq!(read_battery_charging(&vec![some("Full"), some("Charging")]), Some(false));
    assert_eq!(read_battery_charging(&vec![None, None]), None);
    assert_eq!(read_battery_charging(&Vec::new()), None);
}

#[test]
fn a_battery_that_cannot_be_read_is_full_and_does_not_charge() {
    assert_eq!(DEFAULT_BATTERY_PERCENT, 100);
    assert!(!DEFAULT_BATTERY_CHARGING);
    assert_eq!(
        battery_info(&vec![None, None], &vec![None, None]),
        BatteryInfo { percent: 100, charging: false }
    );
    assert_eq!(
        battery_info(&vec![None, some("55\n")], &vec![some("Charging\n"), None]),
        BatteryInfo { percent: 55, charging: true }
    );
}

#[test]
fn short_names_are_left_as_they_are() {
    assert_eq!(truncate_string("Firefox", 15), "Firefox");
    assert_eq!(truncate_string("exactly fifteen", 15), "exactly fifteen");
    assert_eq!(truncate_string("", 0), "");
    assert_eq!(truncate_string("ab", 2), "ab");
}

#[test]
fn long_names_end_in_three_dots() {
    assert_eq!(truncate_string("A very long application name", 15), "A very long ...");
    assert_eq!(truncate_string("sixteen letters!", 15), "sixteen lett...");
    assert_eq!(truncate_string("abcd", 3), "...");
    assert_eq!(truncate_string("Éditeur de texte", 15), "Éditeur de ...");
}

#[test]
fn icons_and_weights_compare_by_value() {
    assert_eq!(Icon::Battery(80, true), Icon::Battery(80, true));
    assert_ne!(Icon::Battery(80, true), Icon::Battery(80, false));
    assert_ne!(Icon::Search, Icon::Clock);
    assert_eq!(FontWeight::Medium, FontWeight::Medium);
    assert_ne!(FontWeight::Regular, FontWeight::Bold);
}

#[test]
fn white_space_is_what_unicode_says() {
    for code in 0..0x11_0000u32 {
        if let Some(c) = char::from_u32(code) {
            assert_eq!(char_is_space(c), c.is_whitespace());
        }
    }
}

#[test]
fn trimmed_agrees_with_the_standard_library() {
    for text in ["", " ", "a", "  a b  ", "\t\r\na\u{a0}", "\u{3000}x\u{2003}", "no space", " \n "] {
        assert_eq!(string_of(&trimmed(&chars_of(text))), text.trim());
    }
}

#[test]
fn strings_and_characters_convert_both_ways() {
    for text in ["", "abc", "Éditeur", "日本語", "a\nb"] {
        assert_eq!(chars_of(text), chars(text));
        assert_eq!(string_of(&chars(text)), text);
    }
    assert_eq!(slice_of(&chars("abcdef"), 2, 4), chars("cd"));
    assert_eq!(slice_of(&chars("abcdef"), 3, 3), chars(""));
}

#[test]
fn prefixes_and_parts_agree_with_the_standard_library() {
    let cases = [
        ("firefox", "fire"),
        ("firefox", "fox"),
        ("firefox", ""),
        ("firefox", "firefox"),
        ("firefox", "firefoxx"),
        ("", ""),
        ("", "a"),
        ("aab", "ab"),
        ("abab", "bab"),
        ("abc", "ac"),
    ];
    for (text, part) in cases {
        assert_eq!(has_prefix(&chars(text), &chars(part)), text.starts_with(part));
        assert_eq!(has_part(&chars(text), &chars(part)), text.contains(part));
    }
    assert!(matches_at(&chars("abcabc"), &chars("bc"), 4));
    assert!(!matches_at(&chars("abcabc"), &chars("bc"), 5));
    assert!(!matches_at(&chars("abcabc"), &chars("bc"), usize::MAX));
    assert!(matches_at(&chars("abc"), &chars(""), 3));
    assert!(!matches_at(&chars("abc"), &chars(""), 4));
}

#[test]
fn strip_code_agrees_with_replace() {
    for text in ["", "%", "%f", "a%fb", "%%ff", "%f%f", "%F%f", "50%", "%%", "x %f y %f", "%f%"] {
        assert_eq!(string_of(&strip_code(&chars(text), 'f')), text.replace("%f", ""));
    }
}
