//! Keys: from the codes of a browser's keyboard events to the keys of this
//! machine.

use crate::platform::Platform;
use crate::text::{same_text, strip_prefix};
use vstd::prelude::*;
use vstd::string::StrSliceExecFns;

verus! {

/// A key, by what it types or does.
#[derive(Clone, Copy, Debug, PartialEq, Eq, Structural)]
pub enum Key {
    Unicode(char),
    F1,
    F2,
    F3,
    F4,
    F5,
    F6,
    F7,
    F8,
    F9,
    F10,
    F11,
    F12,
    Return,
    Tab,
    Escape,
    Backspace,
    Delete,
    Space,
    UpArrow,
    DownArrow,
    LeftArrow,
    RightArrow,
    Shift,
    Control,
    Alt,
    Meta,
    CapsLock,
    Home,
    End,
    PageUp,
    PageDown,
    Insert,
}

/// The character of `code` behind `prefix`, where it is the only one.
pub open spec fn single_after(code: Seq<char>, prefix: Seq<char>) -> Option<char> {
    if prefix.is_prefix_of(code) && code.len() == prefix.len() + 1 {
        Some(code.last())
    } else {
        None
    }
}

/// `c` is a letter from A to Z, of either case.
pub open spec fn is_letter(c: char) -> bool {
    'a' <= c <= 'z' || 'A' <= c <= 'Z'
}

/// `c` in lower case, for a letter from A to Z.
pub open spec fn lowercase(c: char) -> char {
    if 'A' <= c <= 'Z' {
        (c as u32 + 32) as char
    } else {
        c
    }
}

/// `c` is a decimal digit.
pub open spec fn is_digit(c: char) -> bool {
    '0' <= c <= '9'
}

/// The number that decimal digits stand for.
pub open spec fn decimal(digits: Seq<char>) -> nat
    decreases digits.len(),
{
    if digits.len() == 0 {
        0
    } else {
        10 * decimal(digits.drop_last()) + (digits.last() as u32 - '0' as u32) as nat
    }
}

/// All of `digits` are decimal digits.
pub open spec fn all_digits(digits: Seq<char>) -> bool {
    forall|i: int| 0 <= i < digits.len() ==> is_digit(#[trigger] digits[i])
}

/// `text` without a plus sign in front of it.
pub open spec fn unsigned(text: Seq<char>) -> Seq<char> {
    if text.len() > 1 && text[0] == '+' {
        text.skip(1)
    } else {
        text
    }
}

/// The number from 0 to 255 that `text` writes: decimal digits, with a plus
/// sign in front or without.
pub open spec fn byte_value(text: Seq<char>) -> Option<u8> {
    let digits = unsigned(text);
    if digits.len() > 0 && all_digits(digits) && decimal(digits) <= 255 {
        Some(decimal(digits) as u8)
    } else {
        None
    }
}

/// The function key with number `n`.
pub open spec fn function_key(n: u8) -> Option<Key> {
    match n {
        1 => Some(Key::F1),
        2 => Some(Key::F2),
        3 => Some(Key::F3),
        4 => Some(Key::F4),
        5 => Some(Key::F5),
        6 => Some(Key::F6),
        7 => Some(Key::F7),
        8 => Some(Key::F8),
        9 => Some(Key::F9),
        10 => Some(Key::F10),
        11 => Some(Key::F11),
        12 => Some(Key::F12),
        _ => None,
    }
}

/// The keys that have names of their own.
pub open spec fn named_key(platform: Platform, code: Seq<char>) -> Option<Key> {
    if code == "Minus"@ {
        Some(Key::Unicode('-'))
    } else if code == "Equal"@ {
        Some(Key::Unicode('='))
    } else if code == "BracketLeft"@ {
        Some(Key::Unicode('['))
    } else if code == "BracketRight"@ {
        Some(Key::Unicode(']'))
    } else if code == "Backslash"@ {
        Some(Key::Unicode('\\'))
    } else if code == "Semicolon"@ {
        Some(Key::Unicode(';'))
    } else if code == "Quote"@ {
        Some(Key::Unicode('\''))
    } else if code == "Backquote"@ {
        Some(Key::Unicode('`'))
    } else if code == "Comma"@ {
        Some(Key::Unicode(','))
    } else if code == "Period"@ {
        Some(Key::Unicode('.'))
    } else if code == "Slash"@ {
        Some(Key::Unicode('/'))
    } else if code == "Enter"@ {
        Some(Key::Return)
    } else if code == "Tab"@ {
        Some(Key::Tab)
    } else if code == "Escape"@ {
        Some(Key::Escape)
    } else if code == "Backspace"@ {
        Some(Key::Backspace)
    } else if code == "Delete"@ {
        Some(Key::Delete)
    } else if code == "Space"@ {
        Some(Key::Space)
    } else if code == "ArrowUp"@ {
        Some(Key::UpArrow)
    } else if code == "ArrowDown"@ {
        Some(Key::DownArrow)
    } else if code == "ArrowLeft"@ {
        Some(Key::LeftArrow)
    } else if code == "ArrowRight"@ {
        Some(Key::RightArrow)
    } else if code == "ShiftLeft"@ {
        Some(Key::Shift)
    } else if code == "ShiftRight"@ {
        Some(Key::Shift)
    } else if code == "ControlLeft"@ {
        Some(Key::Control)
    } else if code == "ControlRight"@ {
        Some(Key::Control)
    } else if code == "AltLeft"@ {
        Some(Key::Alt)
    } else if code == "AltRight"@ {
        Some(Key::Alt)
    } else if code == "MetaLeft"@ {
        Some(Key::Meta)
    } else if code == "MetaRight"@ {
        Some(Key::Meta)
    } else if code == "CapsLock"@ {
        Some(Key::CapsLock)
    } else if code == "Home"@ {
        Some(Key::Home)
    } else if code == "End"@ {
        Some(Key::End)
    } else if code == "PageUp"@ {
        Some(Key::PageUp)
    } else if code == "PageDown"@ {
        Some(Key::PageDown)
    } else if code == "Insert"@ && !(platform is MacOs) {
        Some(Key::Insert)
    } else {
        None
    }
}

/// The key that a `KeyboardEvent.code` stands for. Letters are in lower case:
/// their case comes from a Shift that is held apart from them, as on a
/// keyboard. Keyboards of macOS have no Insert key.
pub open spec fn key_of(platform: Platform, code: Seq<char>) -> Option<Key> {
    match single_after(code, "Key"@) {
        Some(c) if is_letter(c) => Some(Key::Unicode(lowercase(c))),
        _ => match single_after(code, "Digit"@) {
            Some(c) if is_digit(c) => Some(Key::Unicode(c)),
            _ => match single_after(code, "Numpad"@) {
                Some(c) if is_digit(c) => Some(Key::Unicode(c)),
                _ => if "F"@.is_prefix_of(code) && byte_value(code.skip("F"@.len() as int)) is Some {
                    function_key(byte_value(code.skip("F"@.len() as int))->0)
                } else {
                    named_key(platform, code)
                },
            },
        },
    }
}

/// The character of `code` behind `prefix`, where it is the only one.
fn only_char_after(code: &str, prefix: &str) -> (c: Option<char>)
    ensures
        c == single_after(code@, prefix@),
{
    match strip_prefix(code, prefix) {
        Some(rest) => {
            assert(prefix@.is_prefix_of(code@));
            if rest.unicode_len() == 1 {
                let c: char = rest.get_char(0);
                assert(code@.last() == rest@[0]);
                Some(c)
            } else {
                None
            }
        },
        None => None,
    }
}

proof fn lemma_decimal_grows(digits: Seq<char>, n: int)
    requires
        0 <= n <= digits.len(),
        all_digits(digits),
    ensures
        decimal(digits.take(n)) <= decimal(digits),
    decreases digits.len(),
{
    if n == digits.len() {
        assert(digits.take(n) =~= digits);
    } else {
        let shorter = digits.drop_last();
        assert(shorter.take(n) =~= digits.take(n));
        assert forall|i: int| 0 <= i < shorter.len() implies is_digit(#[trigger] shorter[i]) by {
            assert(shorter[i] == digits[i]);
        }
        lemma_decimal_grows(shorter, n);
        assert(is_digit(digits[digits.len() - 1]));
    }
}

/// The number from 0 to 255 that `text` writes.
fn parse_byte(text: &str) -> (n: Option<u8>)
    ensures
        n == byte_value(text@),
{
    let len: usize = text.unicode_len();
    let start: usize = if len > 1 && text.get_char(0) == '+' {
        1
    } else {
        0
    };
    let ghost digits = text@.skip(start as int);
    assert(text@.skip(0) =~= text@);
    if len == start {
        return None;
    }
    let mut value: u32 = 0;
    let mut i: usize = start;
    assert(digits.take(0) =~= Seq::<char>::empty());
    while i < len
        invariant
            start <= i <= len,
            len == text@.len(),
            digits == text@.skip(start as int),
            digits == unsigned(text@),
            forall|j: int| 0 <= j < i - start ==> is_digit(#[trigger] digits[j]),
            value == decimal(digits.take(i - start)),
            value <= 255,
        decreases len - i,
    {
        let c: char = text.get_char(i);
        assert(c == digits[i - start]);
        if !('0' <= c && c <= '9') {
            return None;
        }
        value = 10 * value + (c as u32 - '0' as u32);
        proof {
            let next = digits.take(i + 1 - start);
            assert(next.drop_last() =~= digits.take(i - start));
            assert(next.last() == c);
        }
        i += 1;
        if value > 255 {
            proof {
                if all_digits(digits) {
                    lemma_decimal_grows(digits, i - start);
                }
            }
            return None;
        }
    }
    assert(digits.take(i - start) =~= digits);
    Some(value as u8)
}

fn numbered_function_key(n: u8) -> (key: Option<Key>)
    ensures
        key == function_key(n),
{
    match n {
        1 => Some(Key::F1),
        2 => Some(Key::F2),
        3 => Some(Key::F3),
        4 => Some(Key::F4),
        5 => Some(Key::F5),
        6 => Some(Key::F6),
        7 => Some(Key::F7),
        8 => Some(Key::F8),
        9 => Some(Key::F9),
        10 => Some(Key::F10),
        11 => Some(Key::F11),
        12 => Some(Key::F12),
        _ => None,
    }
}

fn lookup_named_key(platform: Platform, code: &str) -> (key: Option<Key>)
    ensures
        key == named_key(platform, code@),
{
    if same_text(code, "Minus") {
        Some(Key::Unicode('-'))
    } else if same_text(code, "Equal") {
        Some(Key::Unicode('='))
    } else if same_text(code, "BracketLeft") {
        Some(Key::Unicode('['))
    } else if same_text(code, "BracketRight") {
        Some(Key::Unicode(']'))
    } else if same_text(code, "Backslash") {
        Some(Key::Unicode('\\'))
    } else if same_text(code, "Semicolon") {
        Some(Key::Unicode(';'))
    } else if same_text(code, "Quote") {
        Some(Key::Unicode('\''))
    } else if same_text(code, "Backquote") {
        Some(Key::Unicode('`'))
    } else if same_text(code, "Comma") {
        Some(Key::Unicode(','))
    } else if same_text(code, "Period") {
        Some(Key::Unicode('.'))
    } else if same_text(code, "Slash") {
        Some(Key::Unicode('/'))
    } else if same_text(code, "Enter") {
        Some(Key::Return)
    } else if same_text(code, "Tab") {
        Some(Key::Tab)
    } else if same_text(code, "Escape") {
        Some(Key::Escape)
    } else if same_text(code, "Backspace") {
        Some(Key::Backspace)
    } else if same_text(code, "Delete") {
        Some(Key::Delete)
    } else if same_text(code, "Space") {
        Some(Key::Space)
    } else if same_text(code, "ArrowUp") {
        Some(Key::UpArrow)
    } else if same_text(code, "ArrowDown") {
        Some(Key::DownArrow)
    } else if same_text(code, "ArrowLeft") {
        Some(Key::LeftArrow)
    } else if same_text(code, "ArrowRight") {
        Some(Key::RightArrow)
    } else if same_text(code, "ShiftLeft") {
        Some(Key::Shift)
    } else if same_text(code, "ShiftRight") {
        Some(Key::Shift)
    } else if same_text(code, "ControlLeft") {
        Some(Key::Control)
    } else if same_text(code, "ControlRight") {
        Some(Key::Control)
    } else if same_text(code, "AltLeft") {
        Some(Key::Alt)
    } else if same_text(code, "AltRight") {
        Some(Key::Alt)
    } else if same_text(code, "MetaLeft") {
        Some(Key::Meta)
    } else if same_text(code, "MetaRight") {
        Some(Key::Meta)
    } else if same_text(code, "CapsLock") {
        Some(Key::CapsLock)
    } else if same_text(code, "Home") {
        Some(Key::Home)
    } else if same_text(code, "End") {
        Some(Key::End)
    } else if same_text(code, "PageUp") {
        Some(Key::PageUp)
    } else if same_text(code, "PageDown") {
        Some(Key::PageDown)
    } else if same_text(code, "Insert") {
        match platform {
            Platform::MacOs => None,
            _ => Some(Key::Insert),
        }
    } else {
        None
    }
}

/// Map a `KeyboardEvent.code` to a key. There is none for codes that are not
/// handled.
pub fn code_to_key(platform: Platform, code: &str) -> (key: Option<Key>)
    ensures
        key == key_of(platform, code@),
{
    if let Some(c) = only_char_after(code, "Key") {
        if 'a' <= c && c <= 'z' {
            return Some(Key::Unicode(c));
        }
        if 'A' <= c && c <= 'Z' {
            let lower: u8 = c as u8 + 32;
            return Some(Key::Unicode(lower as char));
        }
    }
    if let Some(c) = only_char_after(code, "Digit") {
        if '0' <= c && c <= '9' {
            return Some(Key::Unicode(c));
        }
    }
    if let Some(c) = only_char_after(code, "Numpad") {
        if '0' <= c && c <= '9' {
            return Some(Key::Unicode(c));
        }
    }
    if let Some(rest) = strip_prefix(code, "F") {
        assert("F"@.is_prefix_of(code@));
        assert(code@.skip("F"@.len() as int) =~= rest@);
        if let Some(n) = parse_byte(rest) {
            return numbered_function_key(n);
        }
    }
    lookup_named_key(platform, code)
}

/// The macOS virtual keycode of the key at the position that a
/// `KeyboardEvent.code` names.
pub open spec fn macos_keycode_of(code: Seq<char>) -> Option<u16> {
    if code == "KeyA"@ {
        Some(0x00)
    } else if code == "KeyB"@ {
        Some(0x0B)
    } else if code == "KeyC"@ {
        Some(0x08)
    } else if code == "KeyD"@ {
        Some(0x02)
    } else if code == "KeyE"@ {
        Some(0x0E)
    } else if code == "KeyF"@ {
        Some(0x03)
    } else if code == "KeyG"@ {
        Some(0x05)
    } else if code == "KeyH"@ {
        Some(0x04)
    } else if code == "KeyI"@ {
        Some(0x22)
    } else if code == "KeyJ"@ {
        Some(0x26)
    } else if code == "KeyK"@ {
        Some(0x28)
    } else if code == "KeyL"@ {
        Some(0x25)
    } else if code == "KeyM"@ {
        Some(0x2E)
    } else if code == "KeyN"@ {
        Some(0x2D)
    } else if code == "KeyO"@ {
        Some(0x1F)
    } else if code == "KeyP"@ {
        Some(0x23)
    } else if code == "KeyQ"@ {
        Some(0x0C)
    } else if code == "KeyR"@ {
        Some(0x0F)
    } else if code == "KeyS"@ {
        Some(0x01)
    } else if code == "KeyT"@ {
        Some(0x11)
    } else if code == "KeyU"@ {
        Some(0x20)
    } else if code == "KeyV"@ {
        Some(0x09)
    } else if code == "KeyW"@ {
        Some(0x0D)
    } else if code == "KeyX"@ {
        Some(0x07)
    } else if code == "KeyY"@ {
        Some(0x10)
    } else if code == "KeyZ"@ {
        Some(0x06)
    } else if code == "Digit1"@ {
        Some(0x12)
    } else if code == "Digit2"@ {
        Some(0x13)
    } else if code == "Digit3"@ {
        Some(0x14)
    } else if code == "Digit4"@ {
        Some(0x15)
    } else if code == "Digit5"@ {
        Some(0x17)
    } else if code == "Digit6"@ {
        Some(0x16)
    } else if code == "Digit7"@ {
        Some(0x1A)
    } else if code == "Digit8"@ {
        Some(0x1C)
    } else if code == "Digit9"@ {
        Some(0x19)
    } else if code == "Digit0"@ {
        Some(0x1D)
    } else if code == "Minus"@ {
        Some(0x1B)
    } else if code == "Equal"@ {
        Some(0x18)
    } else if code == "BracketLeft"@ {
        Some(0x21)
    } else if code == "BracketRight"@ {
        Some(0x1E)
    } else if code == "Backslash"@ {
        Some(0x2A)
    } else if code == "Semicolon"@ {
        Some(0x29)
    } else if code == "Quote"@ {
        Some(0x27)
    } else if code == "Backquote"@ {
        Some(0x32)
    } else if code == "Comma"@ {
        Some(0x2B)
    } else if code == "Period"@ {
        Some(0x2F)
    } else if code == "Slash"@ {
        Some(0x2C)
    } else if code == "Enter"@ {
        Some(0x24)
    } else if code == "Tab"@ {
        Some(0x30)
    } else if code == "Space"@ {
        Some(0x31)
    } else if code == "Backspace"@ {
        Some(0x33)
    } else if code == "Escape"@ {
        Some(0x35)
    } else if code == "Delete"@ {
        Some(0x75)
    } else if code == "ArrowLeft"@ {
        Some(0x7B)
    } else if code == "ArrowRight"@ {
        Some(0x7C)
    } else if code == "ArrowDown"@ {
        Some(0x7D)
    } else if code == "ArrowUp"@ {
        Some(0x7E)
    } else if code == "Home"@ {
        Some(0x73)
    } else if code == "End"@ {
        Some(0x77)
    } else if code == "PageUp"@ {
        Some(0x74)
    } else if code == "PageDown"@ {
        Some(0x79)
    } else if code == "ShiftLeft"@ {
        Some(0x38)
    } else if code == "ShiftRight"@ {
        Some(0x3C)
    } else if code == "ControlLeft"@ {
        Some(0x3B)
    } else if code == "ControlRight"@ {
        Some(0x3E)
    } else if code == "AltLeft"@ {
        Some(0x3A)
    } else if code == "AltRight"@ {
        Some(0x3D)
    } else if code == "MetaLeft"@ {
        Some(0x37)
    } else if code == "MetaRight"@ {
        Some(0x36)
    } else if code == "CapsLock"@ {
        Some(0x39)
    } else if code == "F1"@ {
        Some(0x7A)
    } else if code == "F2"@ {
        Some(0x78)
    } else if code == "F3"@ {
        Some(0x63)
    } else if code == "F4"@ {
        Some(0x76)
    } else if code == "F5"@ {
        Some(0x60)
    } else if code == "F6"@ {
        Some(0x61)
    } else if code == "F7"@ {
        Some(0x62)
    } else if code == "F8"@ {
        Some(0x64)
    } else if code == "F9"@ {
        Some(0x65)
    } else if code == "F10"@ {
        Some(0x6D)
    } else if code == "F11"@ {
        Some(0x67)
    } else if code == "F12"@ {
        Some(0x6F)
    } else if code == "Numpad0"@ {
        Some(0x52)
    } else if code == "Numpad1"@ {
        Some(0x53)
    } else if code == "Numpad2"@ {
        Some(0x54)
    } else if code == "Numpad3"@ {
        Some(0x55)
    } else if code == "Numpad4"@ {
        Some(0x56)
    } else if code == "Numpad5"@ {
        Some(0x57)
    } else if code == "Numpad6"@ {
        Some(0x58)
    } else if code == "Numpad7"@ {
        Some(0x59)
    } else if code == "Numpad8"@ {
        Some(0x5B)
    } else if code == "Numpad9"@ {
        Some(0x5C)
    } else if code == "NumpadDecimal"@ {
        Some(0x41)
    } else if code == "NumpadAdd"@ {
        Some(0x45)
    } else if code == "NumpadSubtract"@ {
        Some(0x4E)
    } else if code == "NumpadMultiply"@ {
        Some(0x43)
    } else if code == "NumpadDivide"@ {
        Some(0x4B)
    } else if code == "NumpadEnter"@ {
        Some(0x4C)
    } else if code == "NumpadEqual"@ {
        Some(0x51)
    } else {
        None
    }
}

/// Map a `KeyboardEvent.code` (a physical key position) to a macOS virtual
/// keycode, which names a position too.
///
/// Injection on macOS goes by these codes: a lookup from the typed character
/// back to a key fails in a background process. Modifiers still compose, since
/// a held Shift keycode changes what a letter keycode types.
pub fn code_to_macos_keycode(code: &str) -> (keycode: Option<u16>)
    ensures
        keycode == macos_keycode_of(code@),
{
    if same_text(code, "KeyA") {
        Some(0x00)
    } else if same_text(code, "KeyB") {
        Some(0x0B)
    } else if same_text(code, "KeyC") {
        Some(0x08)
    } else if same_text(code, "KeyD") {
        Some(0x02)
    } else if same_text(code, "KeyE") {
        Some(0x0E)
    } else if same_text(code, "KeyF") {
        Some(0x03)
    } else if same_text(code, "KeyG") {
        Some(0x05)
    } else if same_text(code, "KeyH") {
        Some(0x04)
    } else if same_text(code, "KeyI") {
        Some(0x22)
    } else if same_text(code, "KeyJ") {
        Some(0x26)
    } else if same_text(code, "KeyK") {
        Some(0x28)
    } else if same_text(code, "KeyL") {
        Some(0x25)
    } else if same_text(code, "KeyM") {
        Some(0x2E)
    } else if same_text(code, "KeyN") {
        Some(0x2D)
    } else if same_text(code, "KeyO") {
        Some(0x1F)
    } else if same_text(code, "KeyP") {
        Some(0x23)
    } else if same_text(code, "KeyQ") {
        Some(0x0C)
    } else if same_text(code, "KeyR") {
        Some(0x0F)
    } else if same_text(code, "KeyS") {
        Some(0x01)
    } else if same_text(code, "KeyT") {
        Some(0x11)
    } else if same_text(code, "KeyU") {
        Some(0x20)
    } else if same_text(code, "KeyV") {
        Some(0x09)
    } else if same_text(code, "KeyW") {
        Some(0x0D)
    } else if same_text(code, "KeyX") {
        Some(0x07)
    } else if same_text(code, "KeyY") {
        Some(0x10)
    } else if same_text(code, "KeyZ") {
        Some(0x06)
    } else if same_text(code, "Digit1") {
        Some(0x12)
    } else if same_text(code, "Digit2") {
        Some(0x13)
    } else if same_text(code, "Digit3") {
        Some(0x14)
    } else if same_text(code, "Digit4") {
        Some(0x15)
    } else if same_text(code, "Digit5") {
        Some(0x17)
    } else if same_text(code, "Digit6") {
        Some(0x16)
    } else if same_text(code, "Digit7") {
        Some(0x1A)
    } else if same_text(code, "Digit8") {
        Some(0x1C)
    } else if same_text(code, "Digit9") {
        Some(0x19)
    } else if same_text(code, "Digit0") {
        Some(0x1D)
    } else if same_text(code, "Minus") {
        Some(0x1B)
    } else if same_text(code, "Equal") {
        Some(0x18)
    } else if same_text(code, "BracketLeft") {
        Some(0x21)
    } else if same_text(code, "BracketRight") {
        Some(0x1E)
    } else if same_text(code, "Backslash") {
        Some(0x2A)
    } else if same_text(code, "Semicolon") {
        Some(0x29)
    } else if same_text(code, "Quote") {
        Some(0x27)
    } else if same_text(code, "Backquote") {
        Some(0x32)
    } else if same_text(code, "Comma") {
        Some(0x2B)
    } else if same_text(code, "Period") {
        Some(0x2F)
    } else if same_text(code, "Slash") {
        Some(0x2C)
    } else if same_text(code, "Enter") {
        Some(0x24)
    } else if same_text(code, "Tab") {
        Some(0x30)
    } else if same_text(code, "Space") {
        Some(0x31)
    } else if same_text(code, "Backspace") {
        Some(0x33)
    } else if same_text(code, "Escape") {
        Some(0x35)
    } else if same_text(code, "Delete") {
        Some(0x75)
    } else if same_text(code, "ArrowLeft") {
        Some(0x7B)
    } else if same_text(code, "ArrowRight") {
        Some(0x7C)
    } else if same_text(code, "ArrowDown") {
        Some(0x7D)
    } else if same_text(code, "ArrowUp") {
        Some(0x7E)
    } else if same_text(code, "Home") {
        Some(0x73)
    } else if same_text(code, "End") {
        Some(0x77)
    } else if same_text(code, "PageUp") {
        Some(0x74)
    } else if same_text(code, "PageDown") {
        Some(0x79)
    } else if same_text(code, "ShiftLeft") {
        Some(0x38)
    } else if same_text(code, "ShiftRight") {
        Some(0x3C)
    } else if same_text(code, "ControlLeft") {
        Some(0x3B)
    } else if same_text(code, "ControlRight") {
        Some(0x3E)
    } else if same_text(code, "AltLeft") {
        Some(0x3A)
    } else if same_text(code, "AltRight") {
        Some(0x3D)
    } else if same_text(code, "MetaLeft") {
        Some(0x37)
    } else if same_text(code, "MetaRight") {
        Some(0x36)
    } else if same_text(code, "CapsLock") {
        Some(0x39)
    } else if same_text(code, "F1") {
        Some(0x7A)
    } else if same_text(code, "F2") {
        Some(0x78)
    } else if same_text(code, "F3") {
        Some(0x63)
    } else if same_text(code, "F4") {
        Some(0x76)
    } else if same_text(code, "F5") {
        Some(0x60)
    } else if same_text(code, "F6") {
        Some(0x61)
    } else if same_text(code, "F7") {
        Some(0x62)
    } else if same_text(code, "F8") {
        Some(0x64)
    } else if same_text(code, "F9") {
        Some(0x65)
    } else if same_text(code, "F10") {
        Some(0x6D)
    } else if same_text(code, "F11") {
        Some(0x67)
    } else if same_text(code, "F12") {
        Some(0x6F)
    } else if same_text(code, "Numpad0") {
        Some(0x52)
    } else if same_text(code, "Numpad1") {
        Some(0x53)
    } else if same_text(code, "Numpad2") {
        Some(0x54)
    } else if same_text(code, "Numpad3") {
        Some(0x55)
    } else if same_text(code, "Numpad4") {
        Some(0x56)
    } else if same_text(code, "Numpad5") {
        Some(0x57)
    } else if same_text(code, "Numpad6") {
        Some(0x58)
    } else if same_text(code, "Numpad7") {
        Some(0x59)
    } else if same_text(code, "Numpad8") {
        Some(0x5B)
    } else if same_text(code, "Numpad9") {
        Some(0x5C)
    } else if same_text(code, "NumpadDecimal") {
        Some(0x41)
    } else if same_text(code, "NumpadAdd") {
        Some(0x45)
    } else if same_text(code, "NumpadSubtract") {
        Some(0x4E)
    } else if same_text(code, "NumpadMultiply") {
        Some(0x43)
    } else if same_text(code, "NumpadDivide") {
        Some(0x4B)
    } else if same_text(code, "NumpadEnter") {
        Some(0x4C)
    } else if same_text(code, "NumpadEqual") {
        Some(0x51)
    } else {
        None
    }
}

/// The position that a macOS virtual keycode names.
pub open spec fn macos_position(keycode: u16) -> Option<Seq<char>> {
    if keycode == 0x00 {
        Some("KeyA"@)
    } else if keycode == 0x0B {
        Some("KeyB"@)
    } else if keycode == 0x08 {
        Some("KeyC"@)
    } else if keycode == 0x02 {
        Some("KeyD"@)
    } else if keycode == 0x0E {
        Some("KeyE"@)
    } else if keycode == 0x03 {
        Some("KeyF"@)
    } else if keycode == 0x05 {
        Some("KeyG"@)
    } else if keycode == 0x04 {
        Some("KeyH"@)
    } else if keycode == 0x22 {
        Some("KeyI"@)
    } else if keycode == 0x26 {
        Some("KeyJ"@)
    } else if keycode == 0x28 {
        Some("KeyK"@)
    } else if keycode == 0x25 {
        Some("KeyL"@)
    } else if keycode == 0x2E {
        Some("KeyM"@)
    } else if keycode == 0x2D {
        Some("KeyN"@)
    } else if keycode == 0x1F {
        Some("KeyO"@)
    } else if keycode == 0x23 {
        Some("KeyP"@)
    } else if keycode == 0x0C {
        Some("KeyQ"@)
    } else if keycode == 0x0F {
        Some("KeyR"@)
    } else if keycode == 0x01 {
        Some("KeyS"@)
    } else if keycode == 0x11 {
        Some("KeyT"@)
    } else if keycode == 0x20 {
        Some("KeyU"@)
    } else if keycode == 0x09 {
        Some("KeyV"@)
    } else if keycode == 0x0D {
        Some("KeyW"@)
    } else if keycode == 0x07 {
        Some("KeyX"@)
    } else if keycode == 0x10 {
        Some("KeyY"@)
    } else if keycode == 0x06 {
        Some("KeyZ"@)
    } else if keycode == 0x12 {
        Some("Digit1"@)
    } else if keycode == 0x13 {
        Some("Digit2"@)
    } else if keycode == 0x14 {
        Some("Digit3"@)
    } else if keycode == 0x15 {
        Some("Digit4"@)
    } else if keycode == 0x17 {
        Some("Digit5"@)
    } else if keycode == 0x16 {
        Some("Digit6"@)
    } else if keycode == 0x1A {
        Some("Digit7"@)
    } else if keycode == 0x1C {
        Some("Digit8"@)
    } else if keycode == 0x19 {
        Some("Digit9"@)
    } else if keycode == 0x1D {
        Some("Digit0"@)
    } else if keycode == 0x1B {
        Some("Minus"@)
    } else if keycode == 0x18 {
        Some("Equal"@)
    } else if keycode == 0x21 {
        Some("BracketLeft"@)
    } else if keycode == 0x1E {
        Some("BracketRight"@)
    } else if keycode == 0x2A {
        Some("Backslash"@)
    } else if keycode == 0x29 {
        Some("Semicolon"@)
    } else if keycode == 0x27 {
        Some("Quote"@)
    } else if keycode == 0x32 {
        Some("Backquote"@)
    } else if keycode == 0x2B {
        Some("Comma"@)
    } else if keycode == 0x2F {
        Some("Period"@)
    } else if keycode == 0x2C {
        Some("Slash"@)
    } else if keycode == 0x24 {
        Some("Enter"@)
    } else if keycode == 0x30 {
        Some("Tab"@)
    } else if keycode == 0x31 {
        Some("Space"@)
    } else if keycode == 0x33 {
        Some("Backspace"@)
    } else if keycode == 0x35 {
        Some("Escape"@)
    } else if keycode == 0x75 {
        Some("Delete"@)
    } else if keycode == 0x7B {
        Some("ArrowLeft"@)
    } else if keycode == 0x7C {
        Some("ArrowRight"@)
    } else if keycode == 0x7D {
        Some("ArrowDown"@)
    } else if keycode == 0x7E {
        Some("ArrowUp"@)
    } else if keycode == 0x73 {
        Some("Home"@)
    } else if keycode == 0x77 {
        Some("End"@)
    } else if keycode == 0x74 {
        Some("PageUp"@)
    } else if keycode == 0x79 {
        Some("PageDown"@)
    } else if keycode == 0x38 {
        Some("ShiftLeft"@)
    } else if keycode == 0x3C {
        Some("ShiftRight"@)
    } else if keycode == 0x3B {
        Some("ControlLeft"@)
    } else if keycode == 0x3E {
        Some("ControlRight"@)
    } else if keycode == 0x3A {
        Some("AltLeft"@)
    } else if keycode == 0x3D {
        Some("AltRight"@)
    } else if keycode == 0x37 {
        Some("MetaLeft"@)
    } else if keycode == 0x36 {
        Some("MetaRight"@)
    } else if keycode == 0x39 {
        Some("CapsLock"@)
    } else if keycode == 0x7A {
        Some("F1"@)
    } else if keycode == 0x78 {
        Some("F2"@)
    } else if keycode == 0x63 {
        Some("F3"@)
    } else if keycode == 0x76 {
        Some("F4"@)
    } else if keycode == 0x60 {
        Some("F5"@)
    } else if keycode == 0x61 {
        Some("F6"@)
    } else if keycode == 0x62 {
        Some("F7"@)
    } else if keycode == 0x64 {
        Some("F8"@)
    } else if keycode == 0x65 {
        Some("F9"@)
    } else if keycode == 0x6D {
        Some("F10"@)
    } else if keycode == 0x67 {
        Some("F11"@)
    } else if keycode == 0x6F {
        Some("F12"@)
    } else if keycode == 0x52 {
        Some("Numpad0"@)
    } else if keycode == 0x53 {
        Some("Numpad1"@)
    } else if keycode == 0x54 {
        Some("Numpad2"@)
    } else if keycode == 0x55 {
        Some("Numpad3"@)
    } else if keycode == 0x56 {
        Some("Numpad4"@)
    } else if keycode == 0x57 {
        Some("Numpad5"@)
    } else if keycode == 0x58 {
        Some("Numpad6"@)
    } else if keycode == 0x59 {
        Some("Numpad7"@)
    } else if keycode == 0x5B {
        Some("Numpad8"@)
    } else if keycode == 0x5C {
        Some("Numpad9"@)
    } else if keycode == 0x41 {
        Some("NumpadDecimal"@)
    } else if keycode == 0x45 {
        Some("NumpadAdd"@)
    } else if keycode == 0x4E {
        Some("NumpadSubtract"@)
    } else if keycode == 0x43 {
        Some("NumpadMultiply"@)
    } else if keycode == 0x4B {
        Some("NumpadDivide"@)
    } else if keycode == 0x4C {
        Some("NumpadEnter"@)
    } else if keycode == 0x51 {
        Some("NumpadEqual"@)
    } else {
        None
    }
}

/// Different positions have different keycodes: the release of one key is never
/// taken for that of another.
pub proof fn law_macos_keycodes_are_distinct(code: Seq<char>, other: Seq<char>)
    requires
        macos_keycode_of(code) is Some,
        macos_keycode_of(code) == macos_keycode_of(other),
    ensures
        code == other,
{
    lemma_position_of_keycode(code);
    lemma_position_of_keycode(other);
}

proof fn lemma_position_of_keycode(code: Seq<char>)
    requires
        macos_keycode_of(code) is Some,
    ensures
        macos_position(macos_keycode_of(code)->0) == Some(code),
{
}

} // verus!
