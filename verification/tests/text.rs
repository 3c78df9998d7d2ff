use human_ids::{capitalize, compose, with_initial};

#[test]
fn test_capitalize() {
    let s = "hello";
    assert_eq!(capitalize(s), "Hello");
}

#[test]
fn capitalize_keeps_the_rest() {
    assert_eq!(capitalize("hELLO"), "HELLO");
    assert_eq!(capitalize("a"), "A");
    assert_eq!(capitalize("zebra crossing"), "Zebra crossing");
}

#[test]
fn capitalize_of_nothing_is_nothing() {
    assert_eq!(capitalize(""), "");
}

#[test]
fn capitalize_leaves_what_has_no_capital() {
    assert_eq!(capitalize("Hello"), "Hello");
    assert_eq!(capitalize("1abc"), "1abc");
    assert_eq!(capitalize("-x"), "-x");
}

#[test]
fn capitalize_works_on_characters_not_bytes() {
    assert_eq!(capitalize("\u{e9}clair"), "\u{c9}clair");
    assert_eq!(capitalize("\u{df}eta"), "SSeta");
    assert_eq!(capitalize("\u{4e2d}x"), "\u{4e2d}x");
}

#[test]
fn with_initial_replaces_the_first_character() {
    assert_eq!(with_initial(String::from("H"), "hello"), "Hello");
    assert_eq!(with_initial(String::from("SS"), "\u{df}eta"), "SSeta");
    assert_eq!(with_initial(String::from("X"), "y"), "X");
    assert_eq!(with_initial(String::from("X"), ""), "X");
    assert_eq!(with_initial(String::new(), "abc"), "bc");
}

#[test]
fn compose_joins_capitalized_words() {
    assert_eq!(compose(&["quick", "fox", "jumps"], true, "-"), "Quick-Fox-Jumps");
    assert_eq!(
        compose(&["quick", "brave", "fox", "jumps", "silently"], true, "_"),
        "Quick_Brave_Fox_Jumps_Silently"
    );
}

#[test]
fn compose_joins_words_as_they_are() {
    assert_eq!(compose(&["quick", "fox", "jumps"], false, "-"), "quick-fox-jumps");
    assert_eq!(compose(&["fox", "jumps"], false, ""), "foxjumps");
    assert_eq!(compose(&["fox", "jumps", "silently"], false, ", "), "fox, jumps, silently");
}

#[test]
fn compose_without_separator_runs_the_words_together() {
    assert_eq!(compose(&["fox", "jumps"], true, ""), "FoxJumps");
}

#[test]
fn compose_puts_no_separator_at_the_ends() {
    assert_eq!(compose(&["fox"], true, "-"), "Fox");
    assert_eq!(compose(&["fox"], false, "-"), "fox");
    assert_eq!(compose(&[], true, "-"), "");
    assert_eq!(compose(&["", ""], false, "-"), "-");
}

#[test]
fn compose_agrees_with_join() {
    let words = ["calm", "otter", "floats", "gently"];
    for separator in ["-", "_", "", " ", "::"] {
        assert_eq!(compose(&words, false, separator), words.join(separator));
    }
}
