use gridui::input::{input_chord, keyname_to_key};
use gridui::text::{escape_lt, str_eq};

#[test]
fn named_keys_follow_the_table() {
    assert_eq!(keyname_to_key("slash"), Some("/"));
    assert_eq!(keyname_to_key("asciicircum"), Some("^"));
    assert_eq!(keyname_to_key("BackSpace"), Some("BS"));
    assert_eq!(keyname_to_key("Return"), Some("CR"));
    assert_eq!(keyname_to_key("Enter"), Some("CR"));
    assert_eq!(keyname_to_key("ISO_Left_Tab"), Some("Tab"));
    assert_eq!(keyname_to_key("F12"), Some("F12"));
    assert_eq!(keyname_to_key("Page_Up"), Some("PageUp"));
    assert_eq!(keyname_to_key("Kanji"), None);
}

#[test]
fn chords_carry_modifiers_in_fixed_order() {
    assert_eq!(input_chord("a", Some("a"), false, false, false), Some(String::from("<a>")));
    assert_eq!(input_chord("a", Some("a"), false, true, false), Some(String::from("<C-a>")));
    assert_eq!(input_chord("a", Some("a"), true, true, true), Some(String::from("<S-C-A-a>")));
    assert_eq!(input_chord("Return", None, false, false, false), Some(String::from("<CR>")));
    assert_eq!(input_chord("Escape", None, false, true, false), Some(String::from("<C-Esc>")));
    // a named key outside the table produces no input
    assert_eq!(input_chord("Kanji", None, false, false, false), None);
    // a single character with no typed text produces no input
    assert_eq!(input_chord("q", None, false, false, false), None);
}

#[test]
fn typed_text_escapes_the_chord_opener() {
    assert_eq!(escape_lt("a<b"), "a<lt>b");
    assert_eq!(escape_lt("<<"), "<lt><lt>");
    assert_eq!(escape_lt("plain"), "plain");
    assert_eq!(escape_lt(""), "");
}

#[test]
fn string_equality_is_by_characters() {
    assert!(str_eq("redraw", "redraw"));
    assert!(!str_eq("redraw", "redrawn"));
    assert!(!str_eq("a", "b"));
    assert!(str_eq("", ""));
}
