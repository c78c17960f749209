//! From physical key names and modifier state to the editor's key-notation
//! syntax: the table of named keys, and the chord builder that wraps a key
//! with its modifier prefixes.

use vstd::prelude::*;
use crate::text::str_eq;

verus! {

/// The protocol key name each physical key name stands for; `None` for a key
/// the editor takes no notation for.
pub open spec fn spec_key_notation(s: Seq<char>) -> Option<Seq<char>> {
    if s == "asciicircum"@ {
        Some("^"@)
    } else if s == "slash"@ {
        Some("/"@)
    } else if s == "backslash"@ {
        Some("\\"@)
    } else if s == "dead_circumflex"@ {
        Some("^"@)
    } else if s == "at"@ {
        Some("@"@)
    } else if s == "numbersign"@ {
        Some("#"@)
    } else if s == "dollar"@ {
        Some("$"@)
    } else if s == "percent"@ {
        Some("%"@)
    } else if s == "ampersand"@ {
        Some("&"@)
    } else if s == "asterisk"@ {
        Some("*"@)
    } else if s == "parenleft"@ {
        Some("("@)
    } else if s == "parenright"@ {
        Some(")"@)
    } else if s == "underscore"@ {
        Some("_"@)
    } else if s == "plus"@ {
        Some("+"@)
    } else if s == "minus"@ {
        Some("-"@)
    } else if s == "bracketleft"@ {
        Some("["@)
    } else if s == "bracketright"@ {
        Some("]"@)
    } else if s == "braceleft"@ {
        Some("{"@)
    } else if s == "braceright"@ {
        Some("}"@)
    } else if s == "dead_diaeresis"@ {
        Some("\""@)
    } else if s == "dead_acute"@ {
        Some("\'"@)
    } else if s == "less"@ {
        Some("<"@)
    } else if s == "greater"@ {
        Some(">"@)
    } else if s == "comma"@ {
        Some(","@)
    } else if s == "period"@ {
        Some("."@)
    } else if s == "space"@ {
        Some("Space"@)
    } else if s == "BackSpace"@ {
        Some("BS"@)
    } else if s == "Insert"@ {
        Some("Insert"@)
    } else if s == "Return"@ {
        Some("CR"@)
    } else if s == "Escape"@ {
        Some("Esc"@)
    } else if s == "Delete"@ {
        Some("Del"@)
    } else if s == "Page_Up"@ {
        Some("PageUp"@)
    } else if s == "Page_Down"@ {
        Some("PageDown"@)
    } else if s == "Enter"@ {
        Some("CR"@)
    } else if s == "ISO_Left_Tab"@ {
        Some("Tab"@)
    } else if s == "Tab"@ {
        Some("Tab"@)
    } else if s == "Up"@ {
        Some("Up"@)
    } else if s == "Down"@ {
        Some("Down"@)
    } else if s == "Left"@ {
        Some("Left"@)
    } else if s == "Right"@ {
        Some("Right"@)
    } else if s == "Home"@ {
        Some("Home"@)
    } else if s == "End"@ {
        Some("End"@)
    } else if s == "F1"@ {
        Some("F1"@)
    } else if s == "F2"@ {
        Some("F2"@)
    } else if s == "F3"@ {
        Some("F3"@)
    } else if s == "F4"@ {
        Some("F4"@)
    } else if s == "F5"@ {
        Some("F5"@)
    } else if s == "F6"@ {
        Some("F6"@)
    } else if s == "F7"@ {
        Some("F7"@)
    } else if s == "F8"@ {
        Some("F8"@)
    } else if s == "F9"@ {
        Some("F9"@)
    } else if s == "F10"@ {
        Some("F10"@)
    } else if s == "F11"@ {
        Some("F11"@)
    } else if s == "F12"@ {
        Some("F12"@)
    } else {
        None
    }
}

/// Look one named key up. The table is the fixed input surface: a name it
/// does not hold produces no input.
pub fn keyname_to_key(s: &str) -> (r: Option<&str>)
    ensures
        match r {
            Some(t) => spec_key_notation(s@) == Some(t@),
            None => spec_key_notation(s@) is None,
        },
{
    if str_eq(s, "asciicircum") {
        Some("^")
    } else if str_eq(s, "slash") {
        Some("/")
    } else if str_eq(s, "backslash") {
        Some("\\")
    } else if str_eq(s, "dead_circumflex") {
        Some("^")
    } else if str_eq(s, "at") {
        Some("@")
    } else if str_eq(s, "numbersign") {
        Some("#")
    } else if str_eq(s, "dollar") {
        Some("$")
    } else if str_eq(s, "percent") {
        Some("%")
    } else if str_eq(s, "ampersand") {
        Some("&")
    } else if str_eq(s, "asterisk") {
        Some("*")
    } else if str_eq(s, "parenleft") {
        Some("(")
    } else if str_eq(s, "parenright") {
        Some(")")
    } else if str_eq(s, "underscore") {
        Some("_")
    } else if str_eq(s, "plus") {
        Some("+")
    } else if str_eq(s, "minus") {
        Some("-")
    } else if str_eq(s, "bracketleft") {
        Some("[")
    } else if str_eq(s, "bracketright") {
        Some("]")
    } else if str_eq(s, "braceleft") {
        Some("{")
    } else if str_eq(s, "braceright") {
        Some("}")
    } else if str_eq(s, "dead_diaeresis") {
        Some("\"")
    } else if str_eq(s, "dead_acute") {
        Some("\'")
    } else if str_eq(s, "less") {
        Some("<")
    } else if str_eq(s, "greater") {
        Some(">")
    } else if str_eq(s, "comma") {
        Some(",")
    } else if str_eq(s, "period") {
        Some(".")
    } else if str_eq(s, "space") {
        Some("Space")
    } else if str_eq(s, "BackSpace") {
        Some("BS")
    } else if str_eq(s, "Insert") {
        Some("Insert")
    } else if str_eq(s, "Return") {
        Some("CR")
    } else if str_eq(s, "Escape") {
        Some("Esc")
    } else if str_eq(s, "Delete") {
        Some("Del")
    } else if str_eq(s, "Page_Up") {
        Some("PageUp")
    } else if str_eq(s, "Page_Down") {
        Some("PageDown")
    } else if str_eq(s, "Enter") {
        Some("CR")
    } else if str_eq(s, "ISO_Left_Tab") {
        Some("Tab")
    } else if str_eq(s, "Tab") {
        Some("Tab")
    } else if str_eq(s, "Up") {
        Some("Up")
    } else if str_eq(s, "Down") {
        Some("Down")
    } else if str_eq(s, "Left") {
        Some("Left")
    } else if str_eq(s, "Right") {
        Some("Right")
    } else if str_eq(s, "Home") {
        Some("Home")
    } else if str_eq(s, "End") {
        Some("End")
    } else if str_eq(s, "F1") {
        Some("F1")
    } else if str_eq(s, "F2") {
        Some("F2")
    } else if str_eq(s, "F3") {
        Some("F3")
    } else if str_eq(s, "F4") {
        Some("F4")
    } else if str_eq(s, "F5") {
        Some("F5")
    } else if str_eq(s, "F6") {
        Some("F6")
    } else if str_eq(s, "F7") {
        Some("F7")
    } else if str_eq(s, "F8") {
        Some("F8")
    } else if str_eq(s, "F9") {
        Some("F9")
    } else if str_eq(s, "F10") {
        Some("F10")
    } else if str_eq(s, "F11") {
        Some("F11")
    } else if str_eq(s, "F12") {
        Some("F12")
    } else {
        None
    }
}

/// The modifier prefixes of a chord, in the fixed order shift, control, alt.
pub open spec fn spec_mods(shift: bool, ctrl: bool, alt: bool) -> Seq<char> {
    (if shift {
        "S-"@
    } else {
        Seq::<char>::empty()
    }) + (if ctrl {
        "C-"@
    } else {
        Seq::<char>::empty()
    }) + (if alt {
        "A-"@
    } else {
        Seq::<char>::empty()
    })
}

/// The key-notation chord of one key event: a multi-character key name goes
/// through the named-key table, a single character is taken as the typed
/// text itself, and either is wrapped as `<mods-key>`.
pub open spec fn spec_input_chord(
    keyname: Seq<char>,
    unicode: Option<Seq<char>>,
    shift: bool,
    ctrl: bool,
    alt: bool,
) -> Option<Seq<char>> {
    let key = if keyname.len() > 1 {
        spec_key_notation(keyname)
    } else {
        unicode
    };
    match key {
        Some(k) => Some("<"@ + spec_mods(shift, ctrl, alt) + k + ">"@),
        None => None,
    }
}

/// Build the editor input for one key event; `unicode` is the text the key
/// types when it is no named key. `None` means the event produces no input.
pub fn input_chord(keyname: &str, unicode: Option<&str>, shift: bool, ctrl: bool, alt: bool) -> (r:
    Option<String>)
    ensures
        ({
            let uni = match unicode {
                Some(u) => Some(u@),
                None => None,
            };
            match r {
                Some(s) => spec_input_chord(keyname@, uni, shift, ctrl, alt) == Some(s@),
                None => spec_input_chord(keyname@, uni, shift, ctrl, alt) is None,
            }
        }),
{
    let key: Option<&str> = if keyname.unicode_len() > 1 {
        keyname_to_key(keyname)
    } else {
        unicode
    };
    match key {
        None => None,
        Some(k) => {
            let mut out = String::new();
            out.append("<");
            if shift {
                out.append("S-");
            }
            if ctrl {
                out.append("C-");
            }
            if alt {
                out.append("A-");
            }
            proof {
                assert(out@ =~= "<"@ + spec_mods(shift, ctrl, alt));
            }
            out.append(k);
            out.append(">");
            proof {
                assert(out@ =~= "<"@ + spec_mods(shift, ctrl, alt) + k@ + ">"@);
            }
            Some(out)
        },
    }
}

} // verus!
