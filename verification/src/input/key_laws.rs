//! What the tables of keys say of each key.

use crate::input::keys::{decimal, is_digit, key_of, macos_keycode_of, Key};
use crate::platform::Platform;
use vstd::prelude::*;

verus! {

/// The names of keys are told apart by their lengths and by these characters.
proof fn lemma_names_apart()
    ensures
        "Minus"@.len() == 5,
        "Minus"@[0] == 'M',
        "Equal"@.len() == 5,
        "Equal"@[0] == 'E',
        "Equal"@[1] == 'q',
        "BracketLeft"@.len() == 11,
        "BracketLeft"@[0] == 'B',
        "BracketRight"@.len() == 12,
        "BracketRight"@[0] == 'B',
        "Backslash"@.len() == 9,
        "Backslash"@[0] == 'B',
        "Backslash"@[4] == 's',
        "Backslash"@[5] == 'l',
        "Semicolon"@.len() == 9,
        "Semicolon"@[0] == 'S',
        "Semicolon"@[1] == 'e',
        "Quote"@.len() == 5,
        "Quote"@[0] == 'Q',
        "Backquote"@.len() == 9,
        "Backquote"@[0] == 'B',
        "Backquote"@[4] == 'q',
        "Comma"@.len() == 5,
        "Comma"@[0] == 'C',
        "Period"@.len() == 6,
        "Period"@[0] == 'P',
        "Period"@[1] == 'e',
        "Slash"@.len() == 5,
        "Slash"@[0] == 'S',
        "Slash"@[1] == 'l',
        "Enter"@.len() == 5,
        "Enter"@[0] == 'E',
        "Enter"@[1] == 'n',
        "Tab"@.len() == 3,
        "Tab"@[0] == 'T',
        "Escape"@.len() == 6,
        "Escape"@[0] == 'E',
        "Escape"@[1] == 's',
        "Backspace"@.len() == 9,
        "Backspace"@[0] == 'B',
        "Backspace"@[4] == 's',
        "Backspace"@[5] == 'p',
        "Delete"@.len() == 6,
        "Delete"@[0] == 'D',
        "Delete"@[1] == 'e',
        "Space"@.len() == 5,
        "Space"@[0] == 'S',
        "Space"@[1] == 'p',
        "ArrowUp"@.len() == 7,
        "ArrowUp"@[0] == 'A',
        "ArrowUp"@[1] == 'r',
        "ArrowDown"@.len() == 9,
        "ArrowDown"@[0] == 'A',
        "ArrowDown"@[5] == 'D',
        "ArrowLeft"@.len() == 9,
        "ArrowLeft"@[0] == 'A',
        "ArrowLeft"@[5] == 'L',
        "ArrowRight"@.len() == 10,
        "ArrowRight"@[0] == 'A',
        "ShiftLeft"@.len() == 9,
        "ShiftLeft"@[0] == 'S',
        "ShiftLeft"@[1] == 'h',
        "ShiftRight"@.len() == 10,
        "ShiftRight"@[0] == 'S',
        "ControlLeft"@.len() == 11,
        "ControlLeft"@[0] == 'C',
        "ControlRight"@.len() == 12,
        "ControlRight"@[0] == 'C',
        "AltLeft"@.len() == 7,
        "AltLeft"@[0] == 'A',
        "AltLeft"@[1] == 'l',
        "AltRight"@.len() == 8,
        "AltRight"@[0] == 'A',
        "MetaLeft"@.len() == 8,
        "MetaLeft"@[0] == 'M',
        "MetaRight"@.len() == 9,
        "MetaRight"@[0] == 'M',
        "CapsLock"@.len() == 8,
        "CapsLock"@[0] == 'C',
        "Home"@.len() == 4,
        "Home"@[0] == 'H',
        "End"@.len() == 3,
        "End"@[0] == 'E',
        "PageUp"@.len() == 6,
        "PageUp"@[0] == 'P',
        "PageUp"@[1] == 'a',
        "PageDown"@.len() == 8,
        "PageDown"@[0] == 'P',
        "Insert"@.len() == 6,
        "Insert"@[0] == 'I',
        "Insert"@[1] == 'n',
        "Key"@.len() == 3,
        "Key"@[0] == 'K',
        "Key"@[1] == 'e',
        "Key"@[2] == 'y',
        "Digit"@.len() == 5,
        "Digit"@[0] == 'D',
        "Digit"@[1] == 'i',
        "Digit"@[2] == 'g',
        "Digit"@[3] == 'i',
        "Digit"@[4] == 't',
        "Numpad"@.len() == 6,
        "Numpad"@[0] == 'N',
        "Numpad"@[1] == 'u',
        "Numpad"@[2] == 'm',
        "Numpad"@[3] == 'p',
        "Numpad"@[4] == 'a',
        "Numpad"@[5] == 'd',
        "F"@.len() == 1,
        "F"@[0] == 'F',
{
    reveal_strlit("Minus");
    reveal_strlit("Equal");
    reveal_strlit("BracketLeft");
    reveal_strlit("BracketRight");
    reveal_strlit("Backslash");
    reveal_strlit("Semicolon");
    reveal_strlit("Quote");
    reveal_strlit("Backquote");
    reveal_strlit("Comma");
    reveal_strlit("Period");
    reveal_strlit("Slash");
    reveal_strlit("Enter");
    reveal_strlit("Tab");
    reveal_strlit("Escape");
    reveal_strlit("Backspace");
    reveal_strlit("Delete");
    reveal_strlit("Space");
    reveal_strlit("ArrowUp");
    reveal_strlit("ArrowDown");
    reveal_strlit("ArrowLeft");
    reveal_strlit("ArrowRight");
    reveal_strlit("ShiftLeft");
    reveal_strlit("ShiftRight");
    reveal_strlit("ControlLeft");
    reveal_strlit("ControlRight");
    reveal_strlit("AltLeft");
    reveal_strlit("AltRight");
    reveal_strlit("MetaLeft");
    reveal_strlit("MetaRight");
    reveal_strlit("CapsLock");
    reveal_strlit("Home");
    reveal_strlit("End");
    reveal_strlit("PageUp");
    reveal_strlit("PageDown");
    reveal_strlit("Insert");
    reveal_strlit("Key");
    reveal_strlit("Digit");
    reveal_strlit("Numpad");
    reveal_strlit("F");
}

/// Each name gives the key of that name.
proof fn lemma_named_keys(p: Platform)
    ensures
        key_of(p, "Minus"@) == Some(Key::Unicode('-')),
        key_of(p, "Equal"@) == Some(Key::Unicode('=')),
        key_of(p, "BracketLeft"@) == Some(Key::Unicode('[')),
        key_of(p, "BracketRight"@) == Some(Key::Unicode(']')),
        key_of(p, "Backslash"@) == Some(Key::Unicode('\\')),
        key_of(p, "Semicolon"@) == Some(Key::Unicode(';')),
        key_of(p, "Quote"@) == Some(Key::Unicode('\'')),
        key_of(p, "Backquote"@) == Some(Key::Unicode('`')),
        key_of(p, "Comma"@) == Some(Key::Unicode(',')),
        key_of(p, "Period"@) == Some(Key::Unicode('.')),
        key_of(p, "Slash"@) == Some(Key::Unicode('/')),
        key_of(p, "Enter"@) == Some(Key::Return),
        key_of(p, "Tab"@) == Some(Key::Tab),
        key_of(p, "Escape"@) == Some(Key::Escape),
        key_of(p, "Backspace"@) == Some(Key::Backspace),
        key_of(p, "Delete"@) == Some(Key::Delete),
        key_of(p, "Space"@) == Some(Key::Space),
        key_of(p, "ArrowUp"@) == Some(Key::UpArrow),
        key_of(p, "ArrowDown"@) == Some(Key::DownArrow),
        key_of(p, "ArrowLeft"@) == Some(Key::LeftArrow),
        key_of(p, "ArrowRight"@) == Some(Key::RightArrow),
        key_of(p, "ShiftLeft"@) == Some(Key::Shift),
        key_of(p, "ShiftRight"@) == Some(Key::Shift),
        key_of(p, "ControlLeft"@) == Some(Key::Control),
        key_of(p, "ControlRight"@) == Some(Key::Control),
        key_of(p, "AltLeft"@) == Some(Key::Alt),
        key_of(p, "AltRight"@) == Some(Key::Alt),
        key_of(p, "MetaLeft"@) == Some(Key::Meta),
        key_of(p, "MetaRight"@) == Some(Key::Meta),
        key_of(p, "CapsLock"@) == Some(Key::CapsLock),
        key_of(p, "Home"@) == Some(Key::Home),
        key_of(p, "End"@) == Some(Key::End),
        key_of(p, "PageUp"@) == Some(Key::PageUp),
        key_of(p, "PageDown"@) == Some(Key::PageDown),
        key_of(p, "Insert"@) == if p is MacOs {
            None
        } else {
            Some(Key::Insert)
        },
{
    lemma_names_apart();
}

/// A key that has a name of its own comes from that name only.
proof fn lemma_names_have_keys(p: Platform, code: Seq<char>)
    ensures
        key_of(p, code) == Some(Key::Unicode('-')) ==> code == "Minus"@,
        key_of(p, code) == Some(Key::Unicode('=')) ==> code == "Equal"@,
        key_of(p, code) == Some(Key::Unicode('[')) ==> code == "BracketLeft"@,
        key_of(p, code) == Some(Key::Unicode(']')) ==> code == "BracketRight"@,
        key_of(p, code) == Some(Key::Unicode('\\')) ==> code == "Backslash"@,
        key_of(p, code) == Some(Key::Unicode(';')) ==> code == "Semicolon"@,
        key_of(p, code) == Some(Key::Unicode('\'')) ==> code == "Quote"@,
        key_of(p, code) == Some(Key::Unicode('`')) ==> code == "Backquote"@,
        key_of(p, code) == Some(Key::Unicode(',')) ==> code == "Comma"@,
        key_of(p, code) == Some(Key::Unicode('.')) ==> code == "Period"@,
        key_of(p, code) == Some(Key::Unicode('/')) ==> code == "Slash"@,
        key_of(p, code) == Some(Key::Return) ==> code == "Enter"@,
        key_of(p, code) == Some(Key::Tab) ==> code == "Tab"@,
        key_of(p, code) == Some(Key::Escape) ==> code == "Escape"@,
        key_of(p, code) == Some(Key::Backspace) ==> code == "Backspace"@,
        key_of(p, code) == Some(Key::Delete) ==> code == "Delete"@,
        key_of(p, code) == Some(Key::Space) ==> code == "Space"@,
        key_of(p, code) == Some(Key::UpArrow) ==> code == "ArrowUp"@,
        key_of(p, code) == Some(Key::DownArrow) ==> code == "ArrowDown"@,
        key_of(p, code) == Some(Key::LeftArrow) ==> code == "ArrowLeft"@,
        key_of(p, code) == Some(Key::RightArrow) ==> code == "ArrowRight"@,
        key_of(p, code) == Some(Key::Shift) ==> code == "ShiftLeft"@ || code == "ShiftRight"@,
        key_of(p, code) == Some(Key::Control) ==> code == "ControlLeft"@ || code == "ControlRight"@,
        key_of(p, code) == Some(Key::Alt) ==> code == "AltLeft"@ || code == "AltRight"@,
        key_of(p, code) == Some(Key::Meta) ==> code == "MetaLeft"@ || code == "MetaRight"@,
        key_of(p, code) == Some(Key::CapsLock) ==> code == "CapsLock"@,
        key_of(p, code) == Some(Key::Home) ==> code == "Home"@,
        key_of(p, code) == Some(Key::End) ==> code == "End"@,
        key_of(p, code) == Some(Key::PageUp) ==> code == "PageUp"@,
        key_of(p, code) == Some(Key::PageDown) ==> code == "PageDown"@,
        key_of(p, code) == Some(Key::Insert) ==> code == "Insert"@ && !(p is MacOs),
{
}

/// Each key that has a name of its own is what its code says and nothing else:
/// the arrow keys move their own way, a modifier is the one that is held, and a
/// sign is the one that its key types. Keyboards of macOS have no Insert key.
pub proof fn law_named_keys_do_what_they_say(p: Platform, code: Seq<char>)
    ensures
        key_of(p, code) == Some(Key::Unicode('-')) <==> code == "Minus"@,
        key_of(p, code) == Some(Key::Unicode('=')) <==> code == "Equal"@,
        key_of(p, code) == Some(Key::Unicode('[')) <==> code == "BracketLeft"@,
        key_of(p, code) == Some(Key::Unicode(']')) <==> code == "BracketRight"@,
        key_of(p, code) == Some(Key::Unicode('\\')) <==> code == "Backslash"@,
        key_of(p, code) == Some(Key::Unicode(';')) <==> code == "Semicolon"@,
        key_of(p, code) == Some(Key::Unicode('\'')) <==> code == "Quote"@,
        key_of(p, code) == Some(Key::Unicode('`')) <==> code == "Backquote"@,
        key_of(p, code) == Some(Key::Unicode(',')) <==> code == "Comma"@,
        key_of(p, code) == Some(Key::Unicode('.')) <==> code == "Period"@,
        key_of(p, code) == Some(Key::Unicode('/')) <==> code == "Slash"@,
        key_of(p, code) == Some(Key::Return) <==> code == "Enter"@,
        key_of(p, code) == Some(Key::Tab) <==> code == "Tab"@,
        key_of(p, code) == Some(Key::Escape) <==> code == "Escape"@,
        key_of(p, code) == Some(Key::Backspace) <==> code == "Backspace"@,
        key_of(p, code) == Some(Key::Delete) <==> code == "Delete"@,
        key_of(p, code) == Some(Key::Space) <==> code == "Space"@,
        key_of(p, code) == Some(Key::UpArrow) <==> code == "ArrowUp"@,
        key_of(p, code) == Some(Key::DownArrow) <==> code == "ArrowDown"@,
        key_of(p, code) == Some(Key::LeftArrow) <==> code == "ArrowLeft"@,
        key_of(p, code) == Some(Key::RightArrow) <==> code == "ArrowRight"@,
        key_of(p, code) == Some(Key::Shift) <==> code == "ShiftLeft"@ || code == "ShiftRight"@,
        key_of(p, code) == Some(Key::Control) <==> code == "ControlLeft"@ || code == "ControlRight"@,
        key_of(p, code) == Some(Key::Alt) <==> code == "AltLeft"@ || code == "AltRight"@,
        key_of(p, code) == Some(Key::Meta) <==> code == "MetaLeft"@ || code == "MetaRight"@,
        key_of(p, code) == Some(Key::CapsLock) <==> code == "CapsLock"@,
        key_of(p, code) == Some(Key::Home) <==> code == "Home"@,
        key_of(p, code) == Some(Key::End) <==> code == "End"@,
        key_of(p, code) == Some(Key::PageUp) <==> code == "PageUp"@,
        key_of(p, code) == Some(Key::PageDown) <==> code == "PageDown"@,
        key_of(p, code) == Some(Key::Insert) <==> code == "Insert"@ && !(p is MacOs),
{
    lemma_named_keys(p);
    lemma_names_have_keys(p, code);
}

/// A letter key types its letter in lower case, whichever case its code has.
pub proof fn law_letter_keys_type_their_letter(p: Platform, upper: char, lower: char)
    requires
        'A' <= upper <= 'Z',
        lower as u32 == upper as u32 + 32,
    ensures
        key_of(p, "Key"@.push(upper)) == Some(Key::Unicode(lower)),
        key_of(p, "Key"@.push(lower)) == Some(Key::Unicode(lower)),
{
    assert("Key"@.is_prefix_of("Key"@.push(upper)));
    assert("Key"@.is_prefix_of("Key"@.push(lower)));
}

/// A digit key types its digit, in the top row and in the number pad.
pub proof fn law_digit_keys_type_their_digit(p: Platform, digit: char)
    requires
        '0' <= digit <= '9',
    ensures
        key_of(p, "Digit"@.push(digit)) == Some(Key::Unicode(digit)),
        key_of(p, "Numpad"@.push(digit)) == Some(Key::Unicode(digit)),
{
    lemma_names_apart();
    assert("Digit"@.is_prefix_of("Digit"@.push(digit)));
    assert("Numpad"@.is_prefix_of("Numpad"@.push(digit)));
    assert("Numpad"@.push(digit)[0] == 'N');
    assert("Digit"@.push(digit)[0] == 'D');
}

/// A letter or digit comes from its own key only, and no key types anything but
/// letters, digits and the signs of the keyboard.
pub proof fn law_letters_and_digits_have_their_own_keys(p: Platform, code: Seq<char>, c: char)
    requires
        key_of(p, code) == Some(Key::Unicode(c)),
    ensures
        'a' <= c <= 'z' ==> code == "Key"@.push(c) || exists|upper: char|
            upper as u32 + 32 == c as u32 && code == #[trigger] "Key"@.push(upper),
        '0' <= c <= '9' ==> code == "Digit"@.push(c) || code == "Numpad"@.push(c),
        'a' <= c <= 'z' || '0' <= c <= '9' || c == '-' || c == '=' || c == '[' || c == ']' || c
            == '\\' || c == ';' || c == '\'' || c == '`' || c == ',' || c == '.' || c == '/',
{
    assert("Key"@.is_prefix_of(code) && code.len() == "Key"@.len() + 1 ==> code
        =~= "Key"@.push(code.last()));
    assert("Digit"@.is_prefix_of(code) && code.len() == "Digit"@.len() + 1 ==> code
        =~= "Digit"@.push(code.last()));
    assert("Numpad"@.is_prefix_of(code) && code.len() == "Numpad"@.len() + 1 ==> code
        =~= "Numpad"@.push(code.last()));
}

/// The number that digits write, read from the left: each further digit makes
/// what stands before it ten times as much.
pub proof fn law_digits_write_a_number(digits: Seq<char>, c: char)
    requires
        '0' <= c <= '9',
    ensures
        decimal(Seq::<char>::empty()) == 0,
        decimal(digits.push(c)) == 10 * decimal(digits) + (c as u32 - 48),
{
    assert(digits.push(c).drop_last() =~= digits);
}

/// The function keys are told by their number, however many zeros stand before
/// it; there are twelve of them.
pub proof fn law_function_keys_are_numbered(p: Platform, digits: Seq<char>)
    requires
        digits.len() > 0,
        forall|i: int| 0 <= i < digits.len() ==> '0' <= #[trigger] digits[i] <= '9',
    ensures
        ({
            let key = key_of(p, "F"@ + digits);
            let n = decimal(digits);
            &&& n == 1 ==> key == Some(Key::F1)
            &&& n == 2 ==> key == Some(Key::F2)
            &&& n == 3 ==> key == Some(Key::F3)
            &&& n == 4 ==> key == Some(Key::F4)
            &&& n == 5 ==> key == Some(Key::F5)
            &&& n == 6 ==> key == Some(Key::F6)
            &&& n == 7 ==> key == Some(Key::F7)
            &&& n == 8 ==> key == Some(Key::F8)
            &&& n == 9 ==> key == Some(Key::F9)
            &&& n == 10 ==> key == Some(Key::F10)
            &&& n == 11 ==> key == Some(Key::F11)
            &&& n == 12 ==> key == Some(Key::F12)
            &&& n == 0 || n > 12 ==> key is None
            &&& key_of(p, "F+"@ + digits) == key
        }),
{
    lemma_names_apart();
    reveal_strlit("F+");
    let plain = "F"@ + digits;
    let signed = "F+"@ + digits;
    assert(plain[0] == 'F' && signed[0] == 'F');
    assert("F"@.is_prefix_of(plain) && "F"@.is_prefix_of(signed));
    assert(plain.skip(1) =~= digits);
    assert(signed.skip(1) =~= seq!['+'] + digits);
    assert((seq!['+'] + digits).skip(1) =~= digits);
    assert('0' <= digits[0] <= '9');
    assert forall|i: int| 0 <= i < digits.len() implies is_digit(#[trigger] digits[i]) by {}
}

/// A function key comes from its number behind an F only.
pub proof fn law_function_keys_have_their_own_codes(p: Platform, code: Seq<char>)
    ensures
        ({
            let key = key_of(p, code);
            let rest = code.skip(1);
            let digits = if rest.len() > 1 && rest[0] == '+' {
                rest.skip(1)
            } else {
                rest
            };
            let written = code.len() > 1 && code[0] == 'F' && forall|i: int|
                0 <= i < digits.len() ==> '0' <= #[trigger] digits[i] <= '9';
            &&& key == Some(Key::F1) ==> written && decimal(digits) == 1
            &&& key == Some(Key::F2) ==> written && decimal(digits) == 2
            &&& key == Some(Key::F3) ==> written && decimal(digits) == 3
            &&& key == Some(Key::F4) ==> written && decimal(digits) == 4
            &&& key == Some(Key::F5) ==> written && decimal(digits) == 5
            &&& key == Some(Key::F6) ==> written && decimal(digits) == 6
            &&& key == Some(Key::F7) ==> written && decimal(digits) == 7
            &&& key == Some(Key::F8) ==> written && decimal(digits) == 8
            &&& key == Some(Key::F9) ==> written && decimal(digits) == 9
            &&& key == Some(Key::F10) ==> written && decimal(digits) == 10
            &&& key == Some(Key::F11) ==> written && decimal(digits) == 11
            &&& key == Some(Key::F12) ==> written && decimal(digits) == 12
        }),
{
    lemma_names_apart();
    let rest = code.skip(1);
    let digits = if rest.len() > 1 && rest[0] == '+' {
        rest.skip(1)
    } else {
        rest
    };
    if "F"@.is_prefix_of(code) {
        assert(code[0] == 'F');
        if crate::input::keys::all_digits(digits) {
            assert forall|i: int| 0 <= i < digits.len() implies '0' <= #[trigger] digits[i] <= '9' by {
                assert(is_digit(digits[i]));
            }
        }
    }
}

/// The positions of keys are told apart by their lengths and by these
/// characters.
proof fn lemma_positions_apart()
    ensures
        "KeyA"@.len() == 4,
        "KeyA"@[0] == 'K',
        "KeyA"@[3] == 'A',
        "KeyB"@.len() == 4,
        "KeyB"@[0] == 'K',
        "KeyB"@[3] == 'B',
        "KeyC"@.len() == 4,
        "KeyC"@[0] == 'K',
        "KeyC"@[3] == 'C',
        "KeyD"@.len() == 4,
        "KeyD"@[0] == 'K',
        "KeyD"@[3] == 'D',
        "KeyE"@.len() == 4,
        "KeyE"@[0] == 'K',
        "KeyE"@[3] == 'E',
        "KeyF"@.len() == 4,
        "KeyF"@[0] == 'K',
        "KeyF"@[3] == 'F',
        "KeyG"@.len() == 4,
        "KeyG"@[0] == 'K',
        "KeyG"@[3] == 'G',
        "KeyH"@.len() == 4,
        "KeyH"@[0] == 'K',
        "KeyH"@[3] == 'H',
        "KeyI"@.len() == 4,
        "KeyI"@[0] == 'K',
        "KeyI"@[3] == 'I',
        "KeyJ"@.len() == 4,
        "KeyJ"@[0] == 'K',
        "KeyJ"@[3] == 'J',
        "KeyK"@.len() == 4,
        "KeyK"@[0] == 'K',
        "KeyK"@[3] == 'K',
        "KeyL"@.len() == 4,
        "KeyL"@[0] == 'K',
        "KeyL"@[3] == 'L',
        "KeyM"@.len() == 4,
        "KeyM"@[0] == 'K',
        "KeyM"@[3] == 'M',
        "KeyN"@.len() == 4,
        "KeyN"@[0] == 'K',
        "KeyN"@[3] == 'N',
        "KeyO"@.len() == 4,
        "KeyO"@[0] == 'K',
        "KeyO"@[3] == 'O',
        "KeyP"@.len() == 4,
        "KeyP"@[0] == 'K',
        "KeyP"@[3] == 'P',
        "KeyQ"@.len() == 4,
        "KeyQ"@[0] == 'K',
        "KeyQ"@[3] == 'Q',
        "KeyR"@.len() == 4,
        "KeyR"@[0] == 'K',
        "KeyR"@[3] == 'R',
        "KeyS"@.len() == 4,
        "KeyS"@[0] == 'K',
        "KeyS"@[3] == 'S',
        "KeyT"@.len() == 4,
        "KeyT"@[0] == 'K',
        "KeyT"@[3] == 'T',
        "KeyU"@.len() == 4,
        "KeyU"@[0] == 'K',
        "KeyU"@[3] == 'U',
        "KeyV"@.len() == 4,
        "KeyV"@[0] == 'K',
        "KeyV"@[3] == 'V',
        "KeyW"@.len() == 4,
        "KeyW"@[0] == 'K',
        "KeyW"@[3] == 'W',
        "KeyX"@.len() == 4,
        "KeyX"@[0] == 'K',
        "KeyX"@[3] == 'X',
        "KeyY"@.len() == 4,
        "KeyY"@[0] == 'K',
        "KeyY"@[3] == 'Y',
        "KeyZ"@.len() == 4,
        "KeyZ"@[0] == 'K',
        "KeyZ"@[3] == 'Z',
        "Digit1"@.len() == 6,
        "Digit1"@[0] == 'D',
        "Digit1"@[1] == 'i',
        "Digit1"@[5] == '1',
        "Digit2"@.len() == 6,
        "Digit2"@[0] == 'D',
        "Digit2"@[1] == 'i',
        "Digit2"@[5] == '2',
        "Digit3"@.len() == 6,
        "Digit3"@[0] == 'D',
        "Digit3"@[1] == 'i',
        "Digit3"@[5] == '3',
        "Digit4"@.len() == 6,
        "Digit4"@[0] == 'D',
        "Digit4"@[1] == 'i',
        "Digit4"@[5] == '4',
        "Digit5"@.len() == 6,
        "Digit5"@[0] == 'D',
        "Digit5"@[1] == 'i',
        "Digit5"@[5] == '5',
        "Digit6"@.len() == 6,
        "Digit6"@[0] == 'D',
        "Digit6"@[1] == 'i',
        "Digit6"@[5] == '6',
        "Digit7"@.len() == 6,
        "Digit7"@[0] == 'D',
        "Digit7"@[1] == 'i',
        "Digit7"@[5] == '7',
        "Digit8"@.len() == 6,
        "Digit8"@[0] == 'D',
        "Digit8"@[1] == 'i',
        "Digit8"@[5] == '8',
        "Digit9"@.len() == 6,
        "Digit9"@[0] == 'D',
        "Digit9"@[1] == 'i',
        "Digit9"@[5] == '9',
        "Digit0"@.len() == 6,
        "Digit0"@[0] == 'D',
        "Digit0"@[1] == 'i',
        "Digit0"@[5] == '0',
        "Minus"@.len() == 5,
        "Minus"@[0] == 'M',
        "Equal"@.len() == 5,
        "Equal"@[0] == 'E',
        "Equal"@[1] == 'q',
        "BracketLeft"@.len() == 11,
        "BracketLeft"@[0] == 'B',
        "BracketRight"@.len() == 12,
        "BracketRight"@[0] == 'B',
        "Backslash"@.len() == 9,
        "Backslash"@[0] == 'B',
        "Backslash"@[4] == 's',
        "Backslash"@[5] == 'l',
        "Semicolon"@.len() == 9,
        "Semicolon"@[0] == 'S',
        "Semicolon"@[1] == 'e',
        "Quote"@.len() == 5,
        "Quote"@[0] == 'Q',
        "Backquote"@.len() == 9,
        "Backquote"@[0] == 'B',
        "Backquote"@[4] == 'q',
        "Comma"@.len() == 5,
        "Comma"@[0] == 'C',
        "Period"@.len() == 6,
        "Period"@[0] == 'P',
        "Period"@[1] == 'e',
        "Slash"@.len() == 5,
        "Slash"@[0] == 'S',
        "Slash"@[1] == 'l',
        "Enter"@.len() == 5,
        "Enter"@[0] == 'E',
        "Enter"@[1] == 'n',
        "Tab"@.len() == 3,
        "Tab"@[0] == 'T',
        "Space"@.len() == 5,
        "Space"@[0] == 'S',
        "Space"@[1] == 'p',
        "Backspace"@.len() == 9,
        "Backspace"@[0] == 'B',
        "Backspace"@[4] == 's',
        "Backspace"@[5] == 'p',
        "Escape"@.len() == 6,
        "Escape"@[0] == 'E',
        "Delete"@.len() == 6,
        "Delete"@[0] == 'D',
        "Delete"@[1] == 'e',
        "ArrowLeft"@.len() == 9,
        "ArrowLeft"@[0] == 'A',
        "ArrowLeft"@[5] == 'L',
        "ArrowRight"@.len() == 10,
        "ArrowRight"@[0] == 'A',
        "ArrowDown"@.len() == 9,
        "ArrowDown"@[0] == 'A',
        "ArrowDown"@[5] == 'D',
        "ArrowUp"@.len() == 7,
        "ArrowUp"@[0] == 'A',
        "ArrowUp"@[1] == 'r',
        "Home"@.len() == 4,
        "Home"@[0] == 'H',
        "End"@.len() == 3,
        "End"@[0] == 'E',
        "PageUp"@.len() == 6,
        "PageUp"@[0] == 'P',
        "PageUp"@[1] == 'a',
        "PageDown"@.len() == 8,
        "PageDown"@[0] == 'P',
        "ShiftLeft"@.len() == 9,
        "ShiftLeft"@[0] == 'S',
        "ShiftLeft"@[1] == 'h',
        "ShiftRight"@.len() == 10,
        "ShiftRight"@[0] == 'S',
        "ControlLeft"@.len() == 11,
        "ControlLeft"@[0] == 'C',
        "ControlRight"@.len() == 12,
        "ControlRight"@[0] == 'C',
        "AltLeft"@.len() == 7,
        "AltLeft"@[0] == 'A',
        "AltLeft"@[1] == 'l',
        "AltRight"@.len() == 8,
        "AltRight"@[0] == 'A',
        "MetaLeft"@.len() == 8,
        "MetaLeft"@[0] == 'M',
        "MetaRight"@.len() == 9,
        "MetaRight"@[0] == 'M',
        "CapsLock"@.len() == 8,
        "CapsLock"@[0] == 'C',
        "F1"@.len() == 2,
        "F1"@[1] == '1',
        "F2"@.len() == 2,
        "F2"@[1] == '2',
        "F3"@.len() == 2,
        "F3"@[1] == '3',
        "F4"@.len() == 2,
        "F4"@[1] == '4',
        "F5"@.len() == 2,
        "F5"@[1] == '5',
        "F6"@.len() == 2,
        "F6"@[1] == '6',
        "F7"@.len() == 2,
        "F7"@[1] == '7',
        "F8"@.len() == 2,
        "F8"@[1] == '8',
        "F9"@.len() == 2,
        "F9"@[1] == '9',
        "F10"@.len() == 3,
        "F10"@[0] == 'F',
        "F10"@[2] == '0',
        "F11"@.len() == 3,
        "F11"@[0] == 'F',
        "F11"@[2] == '1',
        "F12"@.len() == 3,
        "F12"@[0] == 'F',
        "F12"@[2] == '2',
        "Numpad0"@.len() == 7,
        "Numpad0"@[0] == 'N',
        "Numpad0"@[6] == '0',
        "Numpad1"@.len() == 7,
        "Numpad1"@[0] == 'N',
        "Numpad1"@[6] == '1',
        "Numpad2"@.len() == 7,
        "Numpad2"@[0] == 'N',
        "Numpad2"@[6] == '2',
        "Numpad3"@.len() == 7,
        "Numpad3"@[0] == 'N',
        "Numpad3"@[6] == '3',
        "Numpad4"@.len() == 7,
        "Numpad4"@[0] == 'N',
        "Numpad4"@[6] == '4',
        "Numpad5"@.len() == 7,
        "Numpad5"@[0] == 'N',
        "Numpad5"@[6] == '5',
        "Numpad6"@.len() == 7,
        "Numpad6"@[0] == 'N',
        "Numpad6"@[6] == '6',
        "Numpad7"@.len() == 7,
        "Numpad7"@[0] == 'N',
        "Numpad7"@[6] == '7',
        "Numpad8"@.len() == 7,
        "Numpad8"@[0] == 'N',
        "Numpad8"@[6] == '8',
        "Numpad9"@.len() == 7,
        "Numpad9"@[0] == 'N',
        "Numpad9"@[6] == '9',
        "NumpadDecimal"@.len() == 13,
        "NumpadAdd"@.len() == 9,
        "NumpadAdd"@[0] == 'N',
        "NumpadSubtract"@.len() == 14,
        "NumpadSubtract"@[6] == 'S',
        "NumpadMultiply"@.len() == 14,
        "NumpadMultiply"@[6] == 'M',
        "NumpadDivide"@.len() == 12,
        "NumpadDivide"@[0] == 'N',
        "NumpadEnter"@.len() == 11,
        "NumpadEnter"@[0] == 'N',
        "NumpadEnter"@[7] == 'n',
        "NumpadEqual"@.len() == 11,
        "NumpadEqual"@[0] == 'N',
        "NumpadEqual"@[7] == 'q',
{
    reveal_strlit("KeyA");
    reveal_strlit("KeyB");
    reveal_strlit("KeyC");
    reveal_strlit("KeyD");
    reveal_strlit("KeyE");
    reveal_strlit("KeyF");
    reveal_strlit("KeyG");
    reveal_strlit("KeyH");
    reveal_strlit("KeyI");
    reveal_strlit("KeyJ");
    reveal_strlit("KeyK");
    reveal_strlit("KeyL");
    reveal_strlit("KeyM");
    reveal_strlit("KeyN");
    reveal_strlit("KeyO");
    reveal_strlit("KeyP");
    reveal_strlit("KeyQ");
    reveal_strlit("KeyR");
    reveal_strlit("KeyS");
    reveal_strlit("KeyT");
    reveal_strlit("KeyU");
    reveal_strlit("KeyV");
    reveal_strlit("KeyW");
    reveal_strlit("KeyX");
    reveal_strlit("KeyY");
    reveal_strlit("KeyZ");
    reveal_strlit("Digit1");
    reveal_strlit("Digit2");
    reveal_strlit("Digit3");
    reveal_strlit("Digit4");
    reveal_strlit("Digit5");
    reveal_strlit("Digit6");
    reveal_strlit("Digit7");
    reveal_strlit("Digit8");
    reveal_strlit("Digit9");
    reveal_strlit("Digit0");
    reveal_strlit("Minus");
    reveal_strlit("Equal");
    reveal_strlit("BracketLeft");
    reveal_strlit("BracketRight");
    reveal_strlit("Backslash");
    reveal_strlit("Semicolon");
    reveal_strlit("Quote");
    reveal_strlit("Backquote");
    reveal_strlit("Comma");
    reveal_strlit("Period");
    reveal_strlit("Slash");
    reveal_strlit("Enter");
    reveal_strlit("Tab");
    reveal_strlit("Space");
    reveal_strlit("Backspace");
    reveal_strlit("Escape");
    reveal_strlit("Delete");
    reveal_strlit("ArrowLeft");
    reveal_strlit("ArrowRight");
    reveal_strlit("ArrowDown");
    reveal_strlit("ArrowUp");
    reveal_strlit("Home");
    reveal_strlit("End");
    reveal_strlit("PageUp");
    reveal_strlit("PageDown");
    reveal_strlit("ShiftLeft");
    reveal_strlit("ShiftRight");
    reveal_strlit("ControlLeft");
    reveal_strlit("ControlRight");
    reveal_strlit("AltLeft");
    reveal_strlit("AltRight");
    reveal_strlit("MetaLeft");
    reveal_strlit("MetaRight");
    reveal_strlit("CapsLock");
    reveal_strlit("F1");
    reveal_strlit("F2");
    reveal_strlit("F3");
    reveal_strlit("F4");
    reveal_strlit("F5");
    reveal_strlit("F6");
    reveal_strlit("F7");
    reveal_strlit("F8");
    reveal_strlit("F9");
    reveal_strlit("F10");
    reveal_strlit("F11");
    reveal_strlit("F12");
    reveal_strlit("Numpad0");
    reveal_strlit("Numpad1");
    reveal_strlit("Numpad2");
    reveal_strlit("Numpad3");
    reveal_strlit("Numpad4");
    reveal_strlit("Numpad5");
    reveal_strlit("Numpad6");
    reveal_strlit("Numpad7");
    reveal_strlit("Numpad8");
    reveal_strlit("Numpad9");
    reveal_strlit("NumpadDecimal");
    reveal_strlit("NumpadAdd");
    reveal_strlit("NumpadSubtract");
    reveal_strlit("NumpadMultiply");
    reveal_strlit("NumpadDivide");
    reveal_strlit("NumpadEnter");
    reveal_strlit("NumpadEqual");
}

proof fn lemma_macos_keycodes_1()
    ensures
        macos_keycode_of("KeyA"@) == Some(0x00u16),
        macos_keycode_of("KeyB"@) == Some(0x0Bu16),
        macos_keycode_of("KeyC"@) == Some(0x08u16),
        macos_keycode_of("KeyD"@) == Some(0x02u16),
        macos_keycode_of("KeyE"@) == Some(0x0Eu16),
        macos_keycode_of("KeyF"@) == Some(0x03u16),
        macos_keycode_of("KeyG"@) == Some(0x05u16),
        macos_keycode_of("KeyH"@) == Some(0x04u16),
        macos_keycode_of("KeyI"@) == Some(0x22u16),
        macos_keycode_of("KeyJ"@) == Some(0x26u16),
        macos_keycode_of("KeyK"@) == Some(0x28u16),
        macos_keycode_of("KeyL"@) == Some(0x25u16),
        macos_keycode_of("KeyM"@) == Some(0x2Eu16),
        macos_keycode_of("KeyN"@) == Some(0x2Du16),
        macos_keycode_of("KeyO"@) == Some(0x1Fu16),
        macos_keycode_of("KeyP"@) == Some(0x23u16),
        macos_keycode_of("KeyQ"@) == Some(0x0Cu16),
        macos_keycode_of("KeyR"@) == Some(0x0Fu16),
        macos_keycode_of("KeyS"@) == Some(0x01u16),
        macos_keycode_of("KeyT"@) == Some(0x11u16),
        macos_keycode_of("KeyU"@) == Some(0x20u16),
        macos_keycode_of("KeyV"@) == Some(0x09u16),
        macos_keycode_of("KeyW"@) == Some(0x0Du16),
        macos_keycode_of("KeyX"@) == Some(0x07u16),
        macos_keycode_of("KeyY"@) == Some(0x10u16),
{
    lemma_positions_apart();
}

proof fn lemma_macos_keycodes_2()
    ensures
        macos_keycode_of("KeyZ"@) == Some(0x06u16),
        macos_keycode_of("Digit1"@) == Some(0x12u16),
        macos_keycode_of("Digit2"@) == Some(0x13u16),
        macos_keycode_of("Digit3"@) == Some(0x14u16),
        macos_keycode_of("Digit4"@) == Some(0x15u16),
        macos_keycode_of("Digit5"@) == Some(0x17u16),
        macos_keycode_of("Digit6"@) == Some(0x16u16),
        macos_keycode_of("Digit7"@) == Some(0x1Au16),
        macos_keycode_of("Digit8"@) == Some(0x1Cu16),
        macos_keycode_of("Digit9"@) == Some(0x19u16),
        macos_keycode_of("Digit0"@) == Some(0x1Du16),
        macos_keycode_of("Minus"@) == Some(0x1Bu16),
        macos_keycode_of("Equal"@) == Some(0x18u16),
        macos_keycode_of("BracketLeft"@) == Some(0x21u16),
        macos_keycode_of("BracketRight"@) == Some(0x1Eu16),
        macos_keycode_of("Backslash"@) == Some(0x2Au16),
        macos_keycode_of("Semicolon"@) == Some(0x29u16),
        macos_keycode_of("Quote"@) == Some(0x27u16),
        macos_keycode_of("Backquote"@) == Some(0x32u16),
        macos_keycode_of("Comma"@) == Some(0x2Bu16),
        macos_keycode_of("Period"@) == Some(0x2Fu16),
        macos_keycode_of("Slash"@) == Some(0x2Cu16),
        macos_keycode_of("Enter"@) == Some(0x24u16),
        macos_keycode_of("Tab"@) == Some(0x30u16),
        macos_keycode_of("Space"@) == Some(0x31u16),
{
    lemma_positions_apart();
}

proof fn lemma_macos_keycodes_3()
    ensures
        macos_keycode_of("Backspace"@) == Some(0x33u16),
        macos_keycode_of("Escape"@) == Some(0x35u16),
        macos_keycode_of("Delete"@) == Some(0x75u16),
        macos_keycode_of("ArrowLeft"@) == Some(0x7Bu16),
        macos_keycode_of("ArrowRight"@) == Some(0x7Cu16),
        macos_keycode_of("ArrowDown"@) == Some(0x7Du16),
        macos_keycode_of("ArrowUp"@) == Some(0x7Eu16),
        macos_keycode_of("Home"@) == Some(0x73u16),
        macos_keycode_of("End"@) == Some(0x77u16),
        macos_keycode_of("PageUp"@) == Some(0x74u16),
        macos_keycode_of("PageDown"@) == Some(0x79u16),
        macos_keycode_of("ShiftLeft"@) == Some(0x38u16),
        macos_keycode_of("ShiftRight"@) == Some(0x3Cu16),
        macos_keycode_of("ControlLeft"@) == Some(0x3Bu16),
        macos_keycode_of("ControlRight"@) == Some(0x3Eu16),
        macos_keycode_of("AltLeft"@) == Some(0x3Au16),
        macos_keycode_of("AltRight"@) == Some(0x3Du16),
        macos_keycode_of("MetaLeft"@) == Some(0x37u16),
        macos_keycode_of("MetaRight"@) == Some(0x36u16),
        macos_keycode_of("CapsLock"@) == Some(0x39u16),
        macos_keycode_of("F1"@) == Some(0x7Au16),
        macos_keycode_of("F2"@) == Some(0x78u16),
        macos_keycode_of("F3"@) == Some(0x63u16),
        macos_keycode_of("F4"@) == Some(0x76u16),
        macos_keycode_of("F5"@) == Some(0x60u16),
{
    lemma_positions_apart();
}

proof fn lemma_macos_keycodes_4()
    ensures
        macos_keycode_of("F6"@) == Some(0x61u16),
        macos_keycode_of("F7"@) == Some(0x62u16),
        macos_keycode_of("F8"@) == Some(0x64u16),
        macos_keycode_of("F9"@) == Some(0x65u16),
        macos_keycode_of("F10"@) == Some(0x6Du16),
        macos_keycode_of("F11"@) == Some(0x67u16),
        macos_keycode_of("F12"@) == Some(0x6Fu16),
        macos_keycode_of("Numpad0"@) == Some(0x52u16),
        macos_keycode_of("Numpad1"@) == Some(0x53u16),
        macos_keycode_of("Numpad2"@) == Some(0x54u16),
        macos_keycode_of("Numpad3"@) == Some(0x55u16),
        macos_keycode_of("Numpad4"@) == Some(0x56u16),
        macos_keycode_of("Numpad5"@) == Some(0x57u16),
        macos_keycode_of("Numpad6"@) == Some(0x58u16),
        macos_keycode_of("Numpad7"@) == Some(0x59u16),
        macos_keycode_of("Numpad8"@) == Some(0x5Bu16),
        macos_keycode_of("Numpad9"@) == Some(0x5Cu16),
        macos_keycode_of("NumpadDecimal"@) == Some(0x41u16),
        macos_keycode_of("NumpadAdd"@) == Some(0x45u16),
        macos_keycode_of("NumpadSubtract"@) == Some(0x4Eu16),
        macos_keycode_of("NumpadMultiply"@) == Some(0x43u16),
        macos_keycode_of("NumpadDivide"@) == Some(0x4Bu16),
        macos_keycode_of("NumpadEnter"@) == Some(0x4Cu16),
        macos_keycode_of("NumpadEqual"@) == Some(0x51u16),
{
    lemma_positions_apart();
}

/// Each position of a keyboard has the virtual keycode that macOS knows it by,
/// and each keycode stands for that position only.
pub proof fn law_macos_keycodes(code: Seq<char>)
    ensures
        macos_keycode_of(code) == Some(0x00u16) <==> code == "KeyA"@,
        macos_keycode_of(code) == Some(0x0Bu16) <==> code == "KeyB"@,
        macos_keycode_of(code) == Some(0x08u16) <==> code == "KeyC"@,
        macos_keycode_of(code) == Some(0x02u16) <==> code == "KeyD"@,
        macos_keycode_of(code) == Some(0x0Eu16) <==> code == "KeyE"@,
        macos_keycode_of(code) == Some(0x03u16) <==> code == "KeyF"@,
        macos_keycode_of(code) == Some(0x05u16) <==> code == "KeyG"@,
        macos_keycode_of(code) == Some(0x04u16) <==> code == "KeyH"@,
        macos_keycode_of(code) == Some(0x22u16) <==> code == "KeyI"@,
        macos_keycode_of(code) == Some(0x26u16) <==> code == "KeyJ"@,
        macos_keycode_of(code) == Some(0x28u16) <==> code == "KeyK"@,
        macos_keycode_of(code) == Some(0x25u16) <==> code == "KeyL"@,
        macos_keycode_of(code) == Some(0x2Eu16) <==> code == "KeyM"@,
        macos_keycode_of(code) == Some(0x2Du16) <==> code == "KeyN"@,
        macos_keycode_of(code) == Some(0x1Fu16) <==> code == "KeyO"@,
        macos_keycode_of(code) == Some(0x23u16) <==> code == "KeyP"@,
        macos_keycode_of(code) == Some(0x0Cu16) <==> code == "KeyQ"@,
        macos_keycode_of(code) == Some(0x0Fu16) <==> code == "KeyR"@,
        macos_keycode_of(code) == Some(0x01u16) <==> code == "KeyS"@,
        macos_keycode_of(code) == Some(0x11u16) <==> code == "KeyT"@,
        macos_keycode_of(code) == Some(0x20u16) <==> code == "KeyU"@,
        macos_keycode_of(code) == Some(0x09u16) <==> code == "KeyV"@,
        macos_keycode_of(code) == Some(0x0Du16) <==> code == "KeyW"@,
        macos_keycode_of(code) == Some(0x07u16) <==> code == "KeyX"@,
        macos_keycode_of(code) == Some(0x10u16) <==> code == "KeyY"@,
        macos_keycode_of(code) == Some(0x06u16) <==> code == "KeyZ"@,
        macos_keycode_of(code) == Some(0x12u16) <==> code == "Digit1"@,
        macos_keycode_of(code) == Some(0x13u16) <==> code == "Digit2"@,
        macos_keycode_of(code) == Some(0x14u16) <==> code == "Digit3"@,
        macos_keycode_of(code) == Some(0x15u16) <==> code == "Digit4"@,
        macos_keycode_of(code) == Some(0x17u16) <==> code == "Digit5"@,
        macos_keycode_of(code) == Some(0x16u16) <==> code == "Digit6"@,
        macos_keycode_of(code) == Some(0x1Au16) <==> code == "Digit7"@,
        macos_keycode_of(code) == Some(0x1Cu16) <==> code == "Digit8"@,
        macos_keycode_of(code) == Some(0x19u16) <==> code == "Digit9"@,
        macos_keycode_of(code) == Some(0x1Du16) <==> code == "Digit0"@,
        macos_keycode_of(code) == Some(0x1Bu16) <==> code == "Minus"@,
        macos_keycode_of(code) == Some(0x18u16) <==> code == "Equal"@,
        macos_keycode_of(code) == Some(0x21u16) <==> code == "BracketLeft"@,
        macos_keycode_of(code) == Some(0x1Eu16) <==> code == "BracketRight"@,
        macos_keycode_of(code) == Some(0x2Au16) <==> code == "Backslash"@,
        macos_keycode_of(code) == Some(0x29u16) <==> code == "Semicolon"@,
        macos_keycode_of(code) == Some(0x27u16) <==> code == "Quote"@,
        macos_keycode_of(code) == Some(0x32u16) <==> code == "Backquote"@,
        macos_keycode_of(code) == Some(0x2Bu16) <==> code == "Comma"@,
        macos_keycode_of(code) == Some(0x2Fu16) <==> code == "Period"@,
        macos_keycode_of(code) == Some(0x2Cu16) <==> code == "Slash"@,
        macos_keycode_of(code) == Some(0x24u16) <==> code == "Enter"@,
        macos_keycode_of(code) == Some(0x30u16) <==> code == "Tab"@,
        macos_keycode_of(code) == Some(0x31u16) <==> code == "Space"@,
        macos_keycode_of(code) == Some(0x33u16) <==> code == "Backspace"@,
        macos_keycode_of(code) == Some(0x35u16) <==> code == "Escape"@,
        macos_keycode_of(code) == Some(0x75u16) <==> code == "Delete"@,
        macos_keycode_of(code) == Some(0x7Bu16) <==> code == "ArrowLeft"@,
        macos_keycode_of(code) == Some(0x7Cu16) <==> code == "ArrowRight"@,
        macos_keycode_of(code) == Some(0x7Du16) <==> code == "ArrowDown"@,
        macos_keycode_of(code) == Some(0x7Eu16) <==> code == "ArrowUp"@,
        macos_keycode_of(code) == Some(0x73u16) <==> code == "Home"@,
        macos_keycode_of(code) == Some(0x77u16) <==> code == "End"@,
        macos_keycode_of(code) == Some(0x74u16) <==> code == "PageUp"@,
        macos_keycode_of(code) == Some(0x79u16) <==> code == "PageDown"@,
        macos_keycode_of(code) == Some(0x38u16) <==> code == "ShiftLeft"@,
        macos_keycode_of(code) == Some(0x3Cu16) <==> code == "ShiftRight"@,
        macos_keycode_of(code) == Some(0x3Bu16) <==> code == "ControlLeft"@,
        macos_keycode_of(code) == Some(0x3Eu16) <==> code == "ControlRight"@,
        macos_keycode_of(code) == Some(0x3Au16) <==> code == "AltLeft"@,
        macos_keycode_of(code) == Some(0x3Du16) <==> code == "AltRight"@,
        macos_keycode_of(code) == Some(0x37u16) <==> code == "MetaLeft"@,
        macos_keycode_of(code) == Some(0x36u16) <==> code == "MetaRight"@,
        macos_keycode_of(code) == Some(0x39u16) <==> code == "CapsLock"@,
        macos_keycode_of(code) == Some(0x7Au16) <==> code == "F1"@,
        macos_keycode_of(code) == Some(0x78u16) <==> code == "F2"@,
        macos_keycode_of(code) == Some(0x63u16) <==> code == "F3"@,
        macos_keycode_of(code) == Some(0x76u16) <==> code == "F4"@,
        macos_keycode_of(code) == Some(0x60u16) <==> code == "F5"@,
        macos_keycode_of(code) == Some(0x61u16) <==> code == "F6"@,
        macos_keycode_of(code) == Some(0x62u16) <==> code == "F7"@,
        macos_keycode_of(code) == Some(0x64u16) <==> code == "F8"@,
        macos_keycode_of(code) == Some(0x65u16) <==> code == "F9"@,
        macos_keycode_of(code) == Some(0x6Du16) <==> code == "F10"@,
        macos_keycode_of(code) == Some(0x67u16) <==> code == "F11"@,
        macos_keycode_of(code) == Some(0x6Fu16) <==> code == "F12"@,
        macos_keycode_of(code) == Some(0x52u16) <==> code == "Numpad0"@,
        macos_keycode_of(code) == Some(0x53u16) <==> code == "Numpad1"@,
        macos_keycode_of(code) == Some(0x54u16) <==> code == "Numpad2"@,
        macos_keycode_of(code) == Some(0x55u16) <==> code == "Numpad3"@,
        macos_keycode_of(code) == Some(0x56u16) <==> code == "Numpad4"@,
        macos_keycode_of(code) == Some(0x57u16) <==> code == "Numpad5"@,
        macos_keycode_of(code) == Some(0x58u16) <==> code == "Numpad6"@,
        macos_keycode_of(code) == Some(0x59u16) <==> code == "Numpad7"@,
        macos_keycode_of(code) == Some(0x5Bu16) <==> code == "Numpad8"@,
        macos_keycode_of(code) == Some(0x5Cu16) <==> code == "Numpad9"@,
        macos_keycode_of(code) == Some(0x41u16) <==> code == "NumpadDecimal"@,
        macos_keycode_of(code) == Some(0x45u16) <==> code == "NumpadAdd"@,
        macos_keycode_of(code) == Some(0x4Eu16) <==> code == "NumpadSubtract"@,
        macos_keycode_of(code) == Some(0x43u16) <==> code == "NumpadMultiply"@,
        macos_keycode_of(code) == Some(0x4Bu16) <==> code == "NumpadDivide"@,
        macos_keycode_of(code) == Some(0x4Cu16) <==> code == "NumpadEnter"@,
        macos_keycode_of(code) == Some(0x51u16) <==> code == "NumpadEqual"@,
        macos_keycode_of(code) is Some ==> {
            ||| code == "KeyA"@
            ||| code == "KeyB"@
            ||| code == "KeyC"@
            ||| code == "KeyD"@
            ||| code == "KeyE"@
            ||| code == "KeyF"@
            ||| code == "KeyG"@
            ||| code == "KeyH"@
            ||| code == "KeyI"@
            ||| code == "KeyJ"@
            ||| code == "KeyK"@
            ||| code == "KeyL"@
            ||| code == "KeyM"@
            ||| code == "KeyN"@
            ||| code == "KeyO"@
            ||| code == "KeyP"@
            ||| code == "KeyQ"@
            ||| code == "KeyR"@
            ||| code == "KeyS"@
            ||| code == "KeyT"@
            ||| code == "KeyU"@
            ||| code == "KeyV"@
            ||| code == "KeyW"@
            ||| code == "KeyX"@
            ||| code == "KeyY"@
            ||| code == "KeyZ"@
            ||| code == "Digit1"@
            ||| code == "Digit2"@
            ||| code == "Digit3"@
            ||| code == "Digit4"@
            ||| code == "Digit5"@
            ||| code == "Digit6"@
            ||| code == "Digit7"@
            ||| code == "Digit8"@
            ||| code == "Digit9"@
            ||| code == "Digit0"@
            ||| code == "Minus"@
            ||| code == "Equal"@
            ||| code == "BracketLeft"@
            ||| code == "BracketRight"@
            ||| code == "Backslash"@
            ||| code == "Semicolon"@
            ||| code == "Quote"@
            ||| code == "Backquote"@
            ||| code == "Comma"@
            ||| code == "Period"@
            ||| code == "Slash"@
            ||| code == "Enter"@
            ||| code == "Tab"@
            ||| code == "Space"@
            ||| code == "Backspace"@
            ||| code == "Escape"@
            ||| code == "Delete"@
            ||| code == "ArrowLeft"@
            ||| code == "ArrowRight"@
            ||| code == "ArrowDown"@
            ||| code == "ArrowUp"@
            ||| code == "Home"@
            ||| code == "End"@
            ||| code == "PageUp"@
            ||| code == "PageDown"@
            ||| code == "ShiftLeft"@
            ||| code == "ShiftRight"@
            ||| code == "ControlLeft"@
            ||| code == "ControlRight"@
            ||| code == "AltLeft"@
            ||| code == "AltRight"@
            ||| code == "MetaLeft"@
            ||| code == "MetaRight"@
            ||| code == "CapsLock"@
            ||| code == "F1"@
            ||| code == "F2"@
            ||| code == "F3"@
            ||| code == "F4"@
            ||| code == "F5"@
            ||| code == "F6"@
            ||| code == "F7"@
            ||| code == "F8"@
            ||| code == "F9"@
            ||| code == "F10"@
            ||| code == "F11"@
            ||| code == "F12"@
            ||| code == "Numpad0"@
            ||| code == "Numpad1"@
            ||| code == "Numpad2"@
            ||| code == "Numpad3"@
            ||| code == "Numpad4"@
            ||| code == "Numpad5"@
            ||| code == "Numpad6"@
            ||| code == "Numpad7"@
            ||| code == "Numpad8"@
            ||| code == "Numpad9"@
            ||| code == "NumpadDecimal"@
            ||| code == "NumpadAdd"@
            ||| code == "NumpadSubtract"@
            ||| code == "NumpadMultiply"@
            ||| code == "NumpadDivide"@
            ||| code == "NumpadEnter"@
            ||| code == "NumpadEqual"@
        },
{
    lemma_macos_keycodes_1();
    lemma_macos_keycodes_2();
    lemma_macos_keycodes_3();
    lemma_macos_keycodes_4();
}

} // verus!
