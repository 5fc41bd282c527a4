use discord_watchdog::templates::{
    replace_templates, ROLE_FALLBACK_STRING, TEMPLATE_RESOURCE_NAME, TEMPLATE_ROLE_PING,
};
use discord_watchdog::text::{chars_of, push_decimal, push_signed_decimal, replace};

#[test]
fn up_message_names_resource_and_role() {
    assert_eq!(
        replace_templates("%%RESOURCE%% is back, %%ROLE%%!", "API", &Some(42)),
        "API is back, <@&42>!"
    );
}

#[test]
fn missing_role_falls_back_to_the_generic_word() {
    assert_eq!(
        replace_templates("%%RESOURCE%% is back online, %%ROLE%%!", "BYOND", &None),
        "BYOND is back online, people!"
    );
    assert_eq!(ROLE_FALLBACK_STRING, "people");
}

#[test]
fn every_occurrence_of_both_placeholders_is_replaced() {
    let out = replace_templates(
        "%%ROLE%% %%RESOURCE%%%%RESOURCE%% %%ROLE%%%%ROLE%% %%RESOURCE%%",
        "hub",
        &Some(7),
    );
    assert_eq!(out, "<@&7> hubhub <@&7><@&7> hub");
    assert!(!out.contains(TEMPLATE_RESOURCE_NAME));
    assert!(!out.contains(TEMPLATE_ROLE_PING));
}

#[test]
fn a_template_without_placeholders_is_left_as_it_is() {
    assert_eq!(
        replace_templates("Nevermind, it's dead again. Boowomp :sob:.", "BYOND", &Some(1)),
        "Nevermind, it's dead again. Boowomp :sob:."
    );
    assert_eq!(replace_templates("", "BYOND", &None), "");
}

#[test]
fn broken_placeholders_are_not_placeholders() {
    assert_eq!(
        replace_templates("%RESOURCE%% %%RESOURCE% %%role%% %% ROLE %%", "X", &None),
        "%RESOURCE%% %%RESOURCE% %%role%% %% ROLE %%"
    );
}

#[test]
fn a_name_that_mentions_the_role_placeholder_gets_the_role() {
    assert_eq!(replace_templates("%%RESOURCE%%", "%%ROLE%%", &Some(5)), "<@&5>");
}

#[test]
fn largest_role_identifier_is_written_in_full() {
    assert_eq!(
        replace_templates("%%ROLE%%", "n", &Some(u64::MAX)),
        "<@&18446744073709551615>"
    );
    assert_eq!(replace_templates("%%ROLE%%", "n", &Some(0)), "<@&0>");
}

#[test]
fn non_ascii_text_is_kept() {
    assert_eq!(
        replace_templates("\u{e9}%%RESOURCE%%\u{1f600}", "\u{4e16}\u{754c}", &None),
        "\u{e9}\u{4e16}\u{754c}\u{1f600}"
    );
}

#[test]
fn replace_takes_matches_from_left_to_right_without_overlap() {
    assert_eq!(replace("aaaa", "aa", "b"), "bb");
    assert_eq!(replace("aaa", "aa", "b"), "ba");
    assert_eq!(replace("abcabc", "bc", ""), "aa");
    assert_eq!(replace("abc", "abcd", "x"), "abc");
    assert_eq!(replace("abab", "ab", "abab"), "abababab");
    assert_eq!(replace("%%%RESOURCE%%%", "%%RESOURCE%%", "n"), "%n%");
}

#[test]
fn replace_with_an_empty_pattern_puts_the_text_around_every_character() {
    assert_eq!(replace("abc", "", "-"), "-a-b-c-");
    assert_eq!(replace("", "", "-"), "-");
    assert_eq!("abc".replace("", "-"), replace("abc", "", "-"));
}

#[test]
fn replace_agrees_with_the_standard_library() {
    let texts = ["", "a", "%%", "%%ROLE%%", "x%%ROLE%%y%%ROLE%%", "%%%ROLE%%%", "%%ROL%%ROLE%%E%%"];
    let patterns = ["%%ROLE%%", "%", "%%", "RO", "x"];
    let replacements = ["", "people", "%%ROLE%%", "%"];
    for text in texts {
        for pattern in patterns {
            for replacement in replacements {
                assert_eq!(
                    replace(text, pattern, replacement),
                    text.replace(pattern, replacement)
                );
            }
        }
    }
}

#[test]
fn chars_of_lists_the_characters_in_order() {
    assert_eq!(chars_of("a\u{e9}%"), vec!['a', '\u{e9}', '%']);
    assert_eq!(chars_of(""), Vec::<char>::new());
}

#[test]
fn decimal_numerals() {
    for n in [0u64, 1, 9, 10, 42, 99, 100, 1234567890, u64::MAX] {
        let mut out = String::from("#");
        push_decimal(&mut out, n);
        assert_eq!(out, format!("#{}", n));
    }
    for n in [0i64, 5, -5, -10, 1700000000, i64::MAX, i64::MIN, i64::MIN + 1] {
        let mut out = String::new();
        push_signed_decimal(&mut out, n);
        assert_eq!(out, format!("{}", n));
    }
}

#[test]
fn a_name_that_is_part_of_the_placeholder_can_complete_one() {
    assert_eq!(replace_templates("%%RES%%RESOURCE%%OURCE%%", "", &None), "%%RESOURCE%%");
    assert_eq!(replace_templates("%%%%RESOURCE%%%%", "RESOURCE", &None), "%%RESOURCE%%");
    assert_eq!(
        replace_templates("%%RESOURCE%%%RESOURCE%%", "a%", &None),
        "a%%RESOURCE%%"
    );
}

#[test]
fn ordinary_names_leave_no_placeholder_behind() {
    let templates = [
        "%%RESOURCE%%",
        "%%%RESOURCE%%%",
        "%%RES%%RESOURCE%%OURCE%%",
        "%%%%RESOURCE%%%%",
        "%%RO%%ROLE%%LE%% %%RESOURCE%ROLE%%%",
        "%%ROLE%%RESOURCE%%ROLE%%",
    ];
    for template in templates {
        for name in ["BYOND", "API", "R", "hub.byond.com", "RESOURCES"] {
            for role in [None, Some(0), Some(42)] {
                let out = replace_templates(template, name, &role);
                assert!(!out.contains(TEMPLATE_RESOURCE_NAME), "{template} {name} {out}");
                assert!(!out.contains(TEMPLATE_ROLE_PING), "{template} {name} {out}");
            }
        }
    }
}
