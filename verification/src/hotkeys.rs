//! Global shortcut parsing and validation, and the bookkeeping of the
//! listener that registers the shortcuts with the system.
use vstd::prelude::*;
use vstd::string::*;
use crate::config::HotkeyConfig;
use crate::text::{
    ascii_lower, ascii_upper, chars_of, is_ascii_alphanumeric, is_ascii_digit, lemma_split_nonempty,
    range_eq, split_on, starts_with, str_eq, trim, trim_range, upper_range, Fold,
};

verus! {

pub const MOD_ALT: u32 = 0x0001;
pub const MOD_CTRL: u32 = 0x0002;
pub const MOD_SHIFT: u32 = 0x0004;
pub const MOD_WIN: u32 = 0x0008;

pub const ID_PAUSE: i32 = 1;
pub const ID_BRIGHTER: i32 = 2;
pub const ID_DARKER: i32 = 3;
pub const ID_THEME: i32 = 4;
pub const ID_DAY_NIGHT: i32 = 5;
pub const ID_BOOST: i32 = 6;

// ---------------------------------------------------------------------------
// What a shortcut string means
// ---------------------------------------------------------------------------

/// The trimmed, non-empty pieces of `segs`, in order.
pub open spec fn nonempty_trimmed(segs: Seq<Seq<char>>) -> Seq<Seq<char>>
    decreases segs.len(),
{
    if segs.len() == 0 {
        Seq::<Seq<char>>::empty()
    } else {
        let prev = nonempty_trimmed(segs.drop_last());
        let t = trim(segs.last());
        if t.len() > 0 {
            prev.push(t)
        } else {
            prev
        }
    }
}

/// The `+`-separated pieces of a shortcut, trimmed, empty ones dropped.
pub open spec fn hotkey_parts(s: Seq<char>) -> Seq<Seq<char>> {
    nonempty_trimmed(split_on(s, '+'))
}

/// The modifier flag that a piece names, compared without regard to ASCII case.
pub open spec fn modifier_bit(part: Seq<char>) -> Option<u32> {
    let m = ascii_lower(part);
    if m == "alt"@ {
        Some(MOD_ALT)
    } else if m == "ctrl"@ || m == "control"@ {
        Some(MOD_CTRL)
    } else if m == "shift"@ {
        Some(MOD_SHIFT)
    } else if m == "win"@ || m == "windows"@ || m == "meta"@ {
        Some(MOD_WIN)
    } else {
        None
    }
}

pub open spec fn unknown_modifier_message(part: Seq<char>) -> Seq<char> {
    "unknown modifier ‘"@ + part + "’"@
}

pub open spec fn unsupported_key_message(part: Seq<char>) -> Seq<char> {
    "unsupported key ‘"@ + part + "’"@
}

/// The combined modifier flags of `parts[0..n]`, or the message for the first
/// piece that names no modifier.
pub open spec fn modifier_mask(parts: Seq<Seq<char>>, n: int) -> Result<u32, Seq<char>>
    decreases n,
{
    if n <= 0 {
        Ok(0u32)
    } else {
        match modifier_mask(parts, n - 1) {
            Err(e) => Err(e),
            Ok(m) => match modifier_bit(parts[n - 1]) {
                Some(b) => Ok(m | b),
                None => Err(unknown_modifier_message(parts[n - 1])),
            },
        }
    }
}

/// Virtual-key codes of the keys known by name (`name` is upper-cased).
pub open spec fn named_key_code(name: Seq<char>) -> Option<u32> {
    if name == "UP"@ {
        Some(0x26)
    } else if name == "DOWN"@ {
        Some(0x28)
    } else if name == "LEFT"@ {
        Some(0x25)
    } else if name == "RIGHT"@ {
        Some(0x27)
    } else if name == "PAUSE"@ {
        Some(0x13)
    } else if name == "SPACE"@ {
        Some(0x20)
    } else if name == "HOME"@ {
        Some(0x24)
    } else if name == "END"@ {
        Some(0x23)
    } else if name == "PAGEUP"@ || name == "PAGE UP"@ {
        Some(0x21)
    } else if name == "PAGEDOWN"@ || name == "PAGE DOWN"@ {
        Some(0x22)
    } else if name == "NUMPAD0"@ {
        Some(0x60)
    } else if name == "NUMPAD1"@ {
        Some(0x61)
    } else if name == "NUMPAD2"@ {
        Some(0x62)
    } else if name == "NUMPAD3"@ {
        Some(0x63)
    } else if name == "NUMPAD4"@ {
        Some(0x64)
    } else if name == "NUMPAD5"@ {
        Some(0x65)
    } else if name == "NUMPAD6"@ {
        Some(0x66)
    } else if name == "NUMPAD7"@ {
        Some(0x67)
    } else if name == "NUMPAD8"@ {
        Some(0x68)
    } else if name == "NUMPAD9"@ {
        Some(0x69)
    } else if name == "NUMPADMULTIPLY"@ {
        Some(0x6a)
    } else if name == "NUMPADADD"@ {
        Some(0x6b)
    } else if name == "NUMPADSUBTRACT"@ {
        Some(0x6d)
    } else if name == "NUMPADDECIMAL"@ {
        Some(0x6e)
    } else if name == "NUMPADDIVIDE"@ {
        Some(0x6f)
    } else {
        None
    }
}

/// The value of a string of ASCII decimal digits.
pub open spec fn decimal_value(d: Seq<char>) -> nat
    decreases d.len(),
{
    if d.len() == 0 {
        0
    } else {
        decimal_value(d.drop_last()) * 10 + ((d.last() as u32) - 48) as nat
    }
}

/// The digits of an unsigned number: the text after an optional `+`.
pub open spec fn unsigned_digits(rest: Seq<char>) -> Seq<char> {
    if rest.len() > 0 && rest[0] == '+' {
        rest.skip(1)
    } else {
        rest
    }
}

pub open spec fn all_digits(d: Seq<char>) -> bool {
    forall|i: int| 0 <= i < d.len() ==> is_ascii_digit(#[trigger] d[i])
}

/// The number `n` in `F<n>`, as `u32::from_str` reads it, when it is a
/// function-key number 1..=24.
pub open spec fn function_key_number(rest: Seq<char>) -> Option<nat> {
    let digits = unsigned_digits(rest);
    if digits.len() > 0 && all_digits(digits) && 1 <= decimal_value(digits) <= 24 {
        Some(decimal_value(digits))
    } else {
        None
    }
}

/// The virtual-key code of the last piece of a shortcut.
pub open spec fn key_code(part: Seq<char>) -> Result<u32, Seq<char>> {
    let name = ascii_upper(part);
    match named_key_code(name) {
        Some(k) => Ok(k),
        None => if name.len() == 1 && is_ascii_alphanumeric(name[0]) {
            Ok(name[0] as u32)
        } else if name.len() > 0 && name[0] == 'F' {
            match function_key_number(name.skip(1)) {
                Some(n) => Ok((0x70 + n - 1) as u32),
                None => Err("function keys must be F1 through F24"@),
            }
        } else {
            Err(unsupported_key_message(part))
        },
    }
}

/// What `parse_hotkey` gives for a shortcut: the modifier flags and the
/// virtual-key code, or the message that says why the text is refused.
#[verifier::opaque]
pub open spec fn parse_hotkey_spec(s: Seq<char>) -> Result<(u32, u32), Seq<char>> {
    let parts = hotkey_parts(s);
    if parts.len() == 0 {
        Err("enter a shortcut or leave the field empty"@)
    } else {
        match modifier_mask(parts, parts.len() - 1) {
            Err(e) => Err(e),
            Ok(m) => match key_code(parts.last()) {
                Err(e) => Err(e),
                Ok(k) => if m == 0 && !starts_with(ascii_upper(parts.last()), "NUMPAD"@) {
                    Err("include Ctrl, Alt, Shift, or Win (numpad keys may be used alone)"@)
                } else {
                    Ok((m, k))
                },
            },
        }
    }
}

proof fn lemma_mask_bounded(parts: Seq<Seq<char>>, n: int)
    ensures
        modifier_mask(parts, n) matches Ok(m) ==> m <= 15,
    decreases n,
{
    if n > 0 {
        lemma_mask_bounded(parts, n - 1);
        if let Ok(m) = modifier_mask(parts, n - 1) {
            if let Some(b) = modifier_bit(parts[n - 1]) {
                assert(m | b <= 15) by (bit_vector)
                    requires
                        m <= 15,
                        b == 1u32 || b == 2u32 || b == 4u32 || b == 8u32,
                ;
            }
        }
    }
}

proof fn lemma_key_code_range(part: Seq<char>)
    ensures
        key_code(part) matches Ok(k) ==> 0x13 <= k <= 0x87,
{
    let name = ascii_upper(part);
    if named_key_code(name) is None && name.len() == 1 && is_ascii_alphanumeric(name[0]) {
        assert(0x30 <= name[0] as u32 <= 0x7a);
    }
}

/// Whether two key names spell one key: they are equal, or both spell Page Up,
/// or both spell Page Down.
pub open spec fn same_key_name(a: Seq<char>, b: Seq<char>) -> bool {
    ||| a == b
    ||| (a == "PAGEUP"@ || a == "PAGE UP"@) && (b == "PAGEUP"@ || b == "PAGE UP"@)
    ||| (a == "PAGEDOWN"@ || a == "PAGE DOWN"@) && (b == "PAGEDOWN"@ || b == "PAGE DOWN"@)
}

/// Distinct named keys register distinct virtual keys: two names with one code
/// spell the same key.
pub proof fn lemma_named_keys_distinct(a: Seq<char>, b: Seq<char>)
    requires
        named_key_code(a) is Some,
        named_key_code(a) == named_key_code(b),
    ensures
        same_key_name(a, b),
{
}

/// The navigation keys in the order of their virtual-key codes: Page Up, Page
/// Down, End, Home, then the arrow keys clockwise from Left.
pub open spec fn navigation_key_name(i: int) -> Seq<char> {
    if i == 0 {
        "PAGEUP"@
    } else if i == 1 {
        "PAGEDOWN"@
    } else if i == 2 {
        "END"@
    } else if i == 3 {
        "HOME"@
    } else if i == 4 {
        "LEFT"@
    } else if i == 5 {
        "UP"@
    } else if i == 6 {
        "RIGHT"@
    } else {
        "DOWN"@
    }
}

/// The navigation keys have the consecutive virtual-key codes 0x21..=0x28
/// (VK_PRIOR, VK_NEXT, VK_END, VK_HOME, VK_LEFT, VK_UP, VK_RIGHT, VK_DOWN): the
/// arrow keys are 0x25..=0x28, clockwise from Left.
pub proof fn lemma_navigation_key_codes(i: int)
    requires
        0 <= i < 8,
    ensures
        named_key_code(navigation_key_name(i)) == Some((0x21 + i) as u32),
{
    reveal_strlit("UP");
    reveal_strlit("DOWN");
    reveal_strlit("LEFT");
    reveal_strlit("RIGHT");
    reveal_strlit("PAUSE");
    reveal_strlit("SPACE");
    reveal_strlit("HOME");
    reveal_strlit("END");
    reveal_strlit("PAGEUP");
    reveal_strlit("PAGE UP");
    reveal_strlit("PAGEDOWN");
    if i == 0 {
        assert(
            "PAGEUP"@.len() != "UP"@.len()
            && "PAGEUP"@.len() != "DOWN"@.len()
            && "PAGEUP"@.len() != "LEFT"@.len()
            && "PAGEUP"@.len() != "RIGHT"@.len()
            && "PAGEUP"@.len() != "PAUSE"@.len()
            && "PAGEUP"@.len() != "SPACE"@.len()
            && "PAGEUP"@.len() != "HOME"@.len()
            && "PAGEUP"@.len() != "END"@.len()
        );
    } else if i == 1 {
        assert(
            "PAGEDOWN"@.len() != "UP"@.len()
            && "PAGEDOWN"@.len() != "DOWN"@.len()
            && "PAGEDOWN"@.len() != "LEFT"@.len()
            && "PAGEDOWN"@.len() != "RIGHT"@.len()
            && "PAGEDOWN"@.len() != "PAUSE"@.len()
            && "PAGEDOWN"@.len() != "SPACE"@.len()
            && "PAGEDOWN"@.len() != "HOME"@.len()
            && "PAGEDOWN"@.len() != "END"@.len()
            && "PAGEDOWN"@.len() != "PAGEUP"@.len()
            && "PAGEDOWN"@.len() != "PAGE UP"@.len()
        );
    } else if i == 2 {
        assert(
            "END"@.len() != "UP"@.len()
            && "END"@.len() != "DOWN"@.len()
            && "END"@.len() != "LEFT"@.len()
            && "END"@.len() != "RIGHT"@.len()
            && "END"@.len() != "PAUSE"@.len()
            && "END"@.len() != "SPACE"@.len()
            && "END"@.len() != "HOME"@.len()
        );
    } else if i == 3 {
        assert(
            "HOME"@.len() != "UP"@.len()
            && "HOME"@[0] != "DOWN"@[0]
            && "HOME"@[0] != "LEFT"@[0]
            && "HOME"@.len() != "RIGHT"@.len()
            && "HOME"@.len() != "PAUSE"@.len()
            && "HOME"@.len() != "SPACE"@.len()
        );
    } else if i == 4 {
        assert(
            "LEFT"@.len() != "UP"@.len()
            && "LEFT"@[0] != "DOWN"@[0]
        );
    } else if i == 5 {
    } else if i == 6 {
        assert(
            "RIGHT"@.len() != "UP"@.len()
            && "RIGHT"@.len() != "DOWN"@.len()
            && "RIGHT"@.len() != "LEFT"@.len()
        );
    } else {
        assert("DOWN"@.len() != "UP"@.len());
    }
}

/// The numpad operator keys in the order of their virtual-key codes, with the
/// separator key, which has no name here, in the gap.
pub open spec fn numpad_operator_name(i: int) -> Seq<char> {
    if i == 0 {
        "NUMPADMULTIPLY"@
    } else if i == 1 {
        "NUMPADADD"@
    } else if i == 3 {
        "NUMPADSUBTRACT"@
    } else if i == 4 {
        "NUMPADDECIMAL"@
    } else {
        "NUMPADDIVIDE"@
    }
}

/// The numpad operator keys follow the numpad digits: Multiply, Add, then
/// (after the separator) Subtract, Decimal and Divide have the codes
/// 0x6a + i (VK_MULTIPLY, VK_ADD, VK_SUBTRACT, VK_DECIMAL, VK_DIVIDE).
pub proof fn lemma_numpad_operator_codes(i: int)
    requires
        0 <= i < 6,
        i != 2,
    ensures
        named_key_code(numpad_operator_name(i)) == Some((0x6a + i) as u32),
{
    reveal_strlit("UP");
    reveal_strlit("DOWN");
    reveal_strlit("LEFT");
    reveal_strlit("RIGHT");
    reveal_strlit("PAUSE");
    reveal_strlit("SPACE");
    reveal_strlit("HOME");
    reveal_strlit("END");
    reveal_strlit("PAGEUP");
    reveal_strlit("PAGE UP");
    reveal_strlit("PAGEDOWN");
    reveal_strlit("PAGE DOWN");
    reveal_strlit("NUMPAD0");
    reveal_strlit("NUMPAD1");
    reveal_strlit("NUMPAD2");
    reveal_strlit("NUMPAD3");
    reveal_strlit("NUMPAD4");
    reveal_strlit("NUMPAD5");
    reveal_strlit("NUMPAD6");
    reveal_strlit("NUMPAD7");
    reveal_strlit("NUMPAD8");
    reveal_strlit("NUMPAD9");
    reveal_strlit("NUMPADMULTIPLY");
    reveal_strlit("NUMPADADD");
    reveal_strlit("NUMPADSUBTRACT");
    reveal_strlit("NUMPADDECIMAL");
    reveal_strlit("NUMPADDIVIDE");
    if i == 0 {
        assert(
            "NUMPADMULTIPLY"@.len() != "UP"@.len()
            && "NUMPADMULTIPLY"@.len() != "DOWN"@.len()
            && "NUMPADMULTIPLY"@.len() != "LEFT"@.len()
            && "NUMPADMULTIPLY"@.len() != "RIGHT"@.len()
            && "NUMPADMULTIPLY"@.len() != "PAUSE"@.len()
            && "NUMPADMULTIPLY"@.len() != "SPACE"@.len()
            && "NUMPADMULTIPLY"@.len() != "HOME"@.len()
            && "NUMPADMULTIPLY"@.len() != "END"@.len()
            && "NUMPADMULTIPLY"@.len() != "PAGEUP"@.len()
            && "NUMPADMULTIPLY"@.len() != "PAGE UP"@.len()
            && "NUMPADMULTIPLY"@.len() != "PAGEDOWN"@.len()
            && "NUMPADMULTIPLY"@.len() != "PAGE DOWN"@.len()
            && "NUMPADMULTIPLY"@.len() != "NUMPAD0"@.len()
            && "NUMPADMULTIPLY"@.len() != "NUMPAD1"@.len()
            && "NUMPADMULTIPLY"@.len() != "NUMPAD2"@.len()
            && "NUMPADMULTIPLY"@.len() != "NUMPAD3"@.len()
            && "NUMPADMULTIPLY"@.len() != "NUMPAD4"@.len()
            && "NUMPADMULTIPLY"@.len() != "NUMPAD5"@.len()
            && "NUMPADMULTIPLY"@.len() != "NUMPAD6"@.len()
            && "NUMPADMULTIPLY"@.len() != "NUMPAD7"@.len()
            && "NUMPADMULTIPLY"@.len() != "NUMPAD8"@.len()
            && "NUMPADMULTIPLY"@.len() != "NUMPAD9"@.len()
        );
    } else if i == 1 {
        assert(
            "NUMPADADD"@.len() != "UP"@.len()
            && "NUMPADADD"@.len() != "DOWN"@.len()
            && "NUMPADADD"@.len() != "LEFT"@.len()
            && "NUMPADADD"@.len() != "RIGHT"@.len()
            && "NUMPADADD"@.len() != "PAUSE"@.len()
            && "NUMPADADD"@.len() != "SPACE"@.len()
            && "NUMPADADD"@.len() != "HOME"@.len()
            && "NUMPADADD"@.len() != "END"@.len()
            && "NUMPADADD"@.len() != "PAGEUP"@.len()
            && "NUMPADADD"@.len() != "PAGE UP"@.len()
            && "NUMPADADD"@.len() != "PAGEDOWN"@.len()
            && "NUMPADADD"@[0] != "PAGE DOWN"@[0]
            && "NUMPADADD"@.len() != "NUMPAD0"@.len()
            && "NUMPADADD"@.len() != "NUMPAD1"@.len()
            && "NUMPADADD"@.len() != "NUMPAD2"@.len()
            && "NUMPADADD"@.len() != "NUMPAD3"@.len()
            && "NUMPADADD"@.len() != "NUMPAD4"@.len()
            && "NUMPADADD"@.len() != "NUMPAD5"@.len()
            && "NUMPADADD"@.len() != "NUMPAD6"@.len()
            && "NUMPADADD"@.len() != "NUMPAD7"@.len()
            && "NUMPADADD"@.len() != "NUMPAD8"@.len()
            && "NUMPADADD"@.len() != "NUMPAD9"@.len()
            && "NUMPADADD"@.len() != "NUMPADMULTIPLY"@.len()
        );
    } else if i == 3 {
        assert(
            "NUMPADSUBTRACT"@.len() != "UP"@.len()
            && "NUMPADSUBTRACT"@.len() != "DOWN"@.len()
            && "NUMPADSUBTRACT"@.len() != "LEFT"@.len()
            && "NUMPADSUBTRACT"@.len() != "RIGHT"@.len()
            && "NUMPADSUBTRACT"@.len() != "PAUSE"@.len()
            && "NUMPADSUBTRACT"@.len() != "SPACE"@.len()
            && "NUMPADSUBTRACT"@.len() != "HOME"@.len()
            && "NUMPADSUBTRACT"@.len() != "END"@.len()
            && "NUMPADSUBTRACT"@.len() != "PAGEUP"@.len()
            && "NUMPADSUBTRACT"@.len() != "PAGE UP"@.len()
            && "NUMPADSUBTRACT"@.len() != "PAGEDOWN"@.len()
            && "NUMPADSUBTRACT"@.len() != "PAGE DOWN"@.len()
            && "NUMPADSUBTRACT"@.len() != "NUMPAD0"@.len()
            && "NUMPADSUBTRACT"@.len() != "NUMPAD1"@.len()
            && "NUMPADSUBTRACT"@.len() != "NUMPAD2"@.len()
            && "NUMPADSUBTRACT"@.len() != "NUMPAD3"@.len()
            && "NUMPADSUBTRACT"@.len() != "NUMPAD4"@.len()
            && "NUMPADSUBTRACT"@.len() != "NUMPAD5"@.len()
            && "NUMPADSUBTRACT"@.len() != "NUMPAD6"@.len()
            && "NUMPADSUBTRACT"@.len() != "NUMPAD7"@.len()
            && "NUMPADSUBTRACT"@.len() != "NUMPAD8"@.len()
            && "NUMPADSUBTRACT"@.len() != "NUMPAD9"@.len()
            && "NUMPADSUBTRACT"@[6] != "NUMPADMULTIPLY"@[6]
            && "NUMPADSUBTRACT"@.len() != "NUMPADADD"@.len()
        );
    } else if i == 4 {
        assert(
            "NUMPADDECIMAL"@.len() != "UP"@.len()
            && "NUMPADDECIMAL"@.len() != "DOWN"@.len()
            && "NUMPADDECIMAL"@.len() != "LEFT"@.len()
            && "NUMPADDECIMAL"@.len() != "RIGHT"@.len()
            && "NUMPADDECIMAL"@.len() != "PAUSE"@.len()
            && "NUMPADDECIMAL"@.len() != "SPACE"@.len()
            && "NUMPADDECIMAL"@.len() != "HOME"@.len()
            && "NUMPADDECIMAL"@.len() != "END"@.len()
            && "NUMPADDECIMAL"@.len() != "PAGEUP"@.len()
            && "NUMPADDECIMAL"@.len() != "PAGE UP"@.len()
            && "NUMPADDECIMAL"@.len() != "PAGEDOWN"@.len()
            && "NUMPADDECIMAL"@.len() != "PAGE DOWN"@.len()
            && "NUMPADDECIMAL"@.len() != "NUMPAD0"@.len()
            && "NUMPADDECIMAL"@.len() != "NUMPAD1"@.len()
            && "NUMPADDECIMAL"@.len() != "NUMPAD2"@.len()
            && "NUMPADDECIMAL"@.len() != "NUMPAD3"@.len()
            && "NUMPADDECIMAL"@.len() != "NUMPAD4"@.len()
            && "NUMPADDECIMAL"@.len() != "NUMPAD5"@.len()
            && "NUMPADDECIMAL"@.len() != "NUMPAD6"@.len()
            && "NUMPADDECIMAL"@.len() != "NUMPAD7"@.len()
            && "NUMPADDECIMAL"@.len() != "NUMPAD8"@.len()
            && "NUMPADDECIMAL"@.len() != "NUMPAD9"@.len()
            && "NUMPADDECIMAL"@.len() != "NUMPADMULTIPLY"@.len()
            && "NUMPADDECIMAL"@.len() != "NUMPADADD"@.len()
            && "NUMPADDECIMAL"@.len() != "NUMPADSUBTRACT"@.len()
        );
    } else {
        assert(
            "NUMPADDIVIDE"@.len() != "UP"@.len()
            && "NUMPADDIVIDE"@.len() != "DOWN"@.len()
            && "NUMPADDIVIDE"@.len() != "LEFT"@.len()
            && "NUMPADDIVIDE"@.len() != "RIGHT"@.len()
            && "NUMPADDIVIDE"@.len() != "PAUSE"@.len()
            && "NUMPADDIVIDE"@.len() != "SPACE"@.len()
            && "NUMPADDIVIDE"@.len() != "HOME"@.len()
            && "NUMPADDIVIDE"@.len() != "END"@.len()
            && "NUMPADDIVIDE"@.len() != "PAGEUP"@.len()
            && "NUMPADDIVIDE"@.len() != "PAGE UP"@.len()
            && "NUMPADDIVIDE"@.len() != "PAGEDOWN"@.len()
            && "NUMPADDIVIDE"@.len() != "PAGE DOWN"@.len()
            && "NUMPADDIVIDE"@.len() != "NUMPAD0"@.len()
            && "NUMPADDIVIDE"@.len() != "NUMPAD1"@.len()
            && "NUMPADDIVIDE"@.len() != "NUMPAD2"@.len()
            && "NUMPADDIVIDE"@.len() != "NUMPAD3"@.len()
            && "NUMPADDIVIDE"@.len() != "NUMPAD4"@.len()
            && "NUMPADDIVIDE"@.len() != "NUMPAD5"@.len()
            && "NUMPADDIVIDE"@.len() != "NUMPAD6"@.len()
            && "NUMPADDIVIDE"@.len() != "NUMPAD7"@.len()
            && "NUMPADDIVIDE"@.len() != "NUMPAD8"@.len()
            && "NUMPADDIVIDE"@.len() != "NUMPAD9"@.len()
            && "NUMPADDIVIDE"@.len() != "NUMPADMULTIPLY"@.len()
            && "NUMPADDIVIDE"@.len() != "NUMPADADD"@.len()
            && "NUMPADDIVIDE"@.len() != "NUMPADSUBTRACT"@.len()
            && "NUMPADDIVIDE"@.len() != "NUMPADDECIMAL"@.len()
        );
    }
}

/// `NUMPAD<d>` for a decimal digit `d` is the numpad key with code 0x60 + d
/// (VK_NUMPAD0 + d).
pub proof fn lemma_numpad_digit_codes(d: char)
    requires
        is_ascii_digit(d),
    ensures
        named_key_code("NUMPAD"@.push(d)) == Some((0x60 + (d as u32 - 48)) as u32),
{
    let s = "NUMPAD"@.push(d);
    reveal_strlit("NUMPAD");
    reveal_strlit("UP");
    reveal_strlit("DOWN");
    reveal_strlit("LEFT");
    reveal_strlit("RIGHT");
    reveal_strlit("PAUSE");
    reveal_strlit("SPACE");
    reveal_strlit("HOME");
    reveal_strlit("END");
    reveal_strlit("PAGEUP");
    reveal_strlit("PAGE UP");
    reveal_strlit("PAGEDOWN");
    reveal_strlit("PAGE DOWN");
    reveal_strlit("NUMPAD0");
    reveal_strlit("NUMPAD1");
    reveal_strlit("NUMPAD2");
    reveal_strlit("NUMPAD3");
    reveal_strlit("NUMPAD4");
    reveal_strlit("NUMPAD5");
    reveal_strlit("NUMPAD6");
    reveal_strlit("NUMPAD7");
    reveal_strlit("NUMPAD8");
    reveal_strlit("NUMPAD9");
    assert(s.len() == 7 && s[6] == d);
    assert(s != "PAGE UP"@) by {
        assert(s[4] != "PAGE UP"@[4]);
    }
    if d == '0' {
        assert(s =~= "NUMPAD0"@);
    } else if d == '1' {
        assert(s =~= "NUMPAD1"@);
    } else if d == '2' {
        assert(s =~= "NUMPAD2"@);
    } else if d == '3' {
        assert(s =~= "NUMPAD3"@);
    } else if d == '4' {
        assert(s =~= "NUMPAD4"@);
    } else if d == '5' {
        assert(s =~= "NUMPAD5"@);
    } else if d == '6' {
        assert(s =~= "NUMPAD6"@);
    } else if d == '7' {
        assert(s =~= "NUMPAD7"@);
    } else if d == '8' {
        assert(s =~= "NUMPAD8"@);
    } else {
        assert(s =~= "NUMPAD9"@);
    }
}

/// A shortcut that parses carries only the Alt, Ctrl, Shift and Win flags, a
/// virtual-key code in 0x13..=0x87, and at least one modifier unless its key
/// is a numpad key.
pub proof fn lemma_accepted_shortcut(s: Seq<char>)
    ensures
        parse_hotkey_spec(s) matches Ok(p) ==> {
            &&& p.0 <= 15
            &&& 0x13 <= p.1 <= 0x87
            &&& p.0 != 0 || starts_with(ascii_upper(hotkey_parts(s).last()), "NUMPAD"@)
        },
{
    reveal(parse_hotkey_spec);
    let parts = hotkey_parts(s);
    if parts.len() > 0 {
        lemma_mask_bounded(parts, parts.len() - 1);
        lemma_key_code_range(parts.last());
    }
}

/// Whether one of the pieces `parts[0..n]` names the modifier flag `b`.
pub open spec fn names_modifier(parts: Seq<Seq<char>>, n: int, b: u32) -> bool {
    exists|i: int| 0 <= i < n && modifier_bit(parts[i]) == Some(b)
}

/// Whether every piece of `parts[0..n]` names a modifier.
pub open spec fn all_modifiers(parts: Seq<Seq<char>>, n: int) -> bool {
    forall|i: int| 0 <= i < n ==> (#[trigger] modifier_bit(parts[i])) is Some
}

pub open spec fn is_flag(b: u32) -> bool {
    b == MOD_ALT || b == MOD_CTRL || b == MOD_SHIFT || b == MOD_WIN
}

/// Two lists of pieces name the same key (up to ASCII case) and the same set of
/// modifiers, each modifier piece of `q` being a modifier name in any case,
/// order, alias or repetition.
pub open spec fn same_shortcut(p: Seq<Seq<char>>, q: Seq<Seq<char>>) -> bool {
    &&& p.len() > 0 && q.len() > 0
    &&& ascii_upper(p.last()) == ascii_upper(q.last())
    &&& all_modifiers(q, q.len() - 1)
    &&& forall|b: u32|
        is_flag(b) ==> (#[trigger] names_modifier(p, p.len() - 1, b) <==> names_modifier(
            q,
            q.len() - 1,
            b,
        ))
}

proof fn lemma_or_flag(m: u32, x: u32, c: u32)
    by (bit_vector)
    requires
        x == 1u32 || x == 2u32 || x == 4u32 || x == 8u32,
        c == 1u32 || c == 2u32 || c == 4u32 || c == 8u32,
    ensures
        ((m | x) & c != 0) == ((m & c != 0) || x == c),
{
}

proof fn lemma_flags_determine(m1: u32, m2: u32)
    by (bit_vector)
    requires
        m1 <= 15,
        m2 <= 15,
        (m1 & 1 != 0) == (m2 & 1 != 0),
        (m1 & 2 != 0) == (m2 & 2 != 0),
        (m1 & 4 != 0) == (m2 & 4 != 0),
        (m1 & 8 != 0) == (m2 & 8 != 0),
    ensures
        m1 == m2,
{
}

proof fn lemma_mask_flags(parts: Seq<Seq<char>>, n: int)
    requires
        0 <= n,
        all_modifiers(parts, n),
    ensures
        modifier_mask(parts, n) is Ok,
        forall|c: u32|
            is_flag(c) ==> ((modifier_mask(parts, n)->Ok_0 & c != 0) <==> #[trigger] names_modifier(
                parts,
                n,
                c,
            )),
    decreases n,
{
    if n > 0 {
        assert(all_modifiers(parts, n - 1));
        lemma_mask_flags(parts, n - 1);
        let m = modifier_mask(parts, n - 1)->Ok_0;
        assert(modifier_bit(parts[n - 1]) is Some);
        let x = modifier_bit(parts[n - 1])->Some_0;
        assert(is_flag(x));
        assert forall|c: u32| is_flag(c) implies ((m | x) & c != 0) <==> #[trigger] names_modifier(
            parts,
            n,
            c,
        ) by {
            lemma_or_flag(m, x, c);
            if names_modifier(parts, n - 1, c) {
                let i = choose|i: int| 0 <= i < n - 1 && modifier_bit(parts[i]) == Some(c);
                assert(0 <= i < n && modifier_bit(parts[i]) == Some(c));
            }
            if names_modifier(parts, n, c) && x != c {
                let i = choose|i: int| 0 <= i < n && modifier_bit(parts[i]) == Some(c);
                assert(i != n - 1);
                assert(names_modifier(parts, n - 1, c));
            }
            if x == c {
                assert(0 <= n - 1 < n && modifier_bit(parts[n - 1]) == Some(c));
            }
        }
    } else {
        assert forall|c: u32| is_flag(c) implies ((0u32 & c != 0) <==> #[trigger] names_modifier(
            parts,
            n,
            c,
        )) by {
            assert(0u32 & c == 0) by (bit_vector);
        }
    }
}

proof fn lemma_mask_ok_all_modifiers(parts: Seq<Seq<char>>, n: int)
    requires
        0 <= n,
        modifier_mask(parts, n) is Ok,
    ensures
        all_modifiers(parts, n),
    decreases n,
{
    if n > 0 {
        lemma_mask_ok_all_modifiers(parts, n - 1);
        assert forall|i: int| 0 <= i < n implies (#[trigger] modifier_bit(parts[i])) is Some by {
            if i < n - 1 {
                assert(all_modifiers(parts, n - 1));
            }
        }
    }
}

/// Whatever the case, spacing, empty pieces, order, aliases or repetitions of
/// its modifiers and the case of its key, a shortcut that parses gives the same
/// modifier flags and key as any other that names the same key and the same
/// set of modifiers.
pub proof fn lemma_parse_depends_on_key_and_modifier_set(s: Seq<char>, t: Seq<char>)
    requires
        parse_hotkey_spec(s) is Ok,
        same_shortcut(hotkey_parts(s), hotkey_parts(t)),
    ensures
        parse_hotkey_spec(t) == parse_hotkey_spec(s),
{
    reveal(parse_hotkey_spec);
    let p = hotkey_parts(s);
    let q = hotkey_parts(t);
    let np = p.len() - 1;
    let nq = q.len() - 1;
    lemma_mask_ok_all_modifiers(p, np);
    lemma_mask_flags(p, np);
    lemma_mask_flags(q, nq);
    let m1 = modifier_mask(p, np)->Ok_0;
    let m2 = modifier_mask(q, nq)->Ok_0;
    lemma_mask_bounded(p, np);
    lemma_mask_bounded(q, nq);
    assert(is_flag(1) && is_flag(2) && is_flag(4) && is_flag(8));
    assert(names_modifier(p, np, 1) <==> names_modifier(q, nq, 1));
    assert(names_modifier(p, np, 2) <==> names_modifier(q, nq, 2));
    assert(names_modifier(p, np, 4) <==> names_modifier(q, nq, 4));
    assert(names_modifier(p, np, 8) <==> names_modifier(q, nq, 8));
    lemma_flags_determine(m1, m2);
    assert(key_code(q.last()) == key_code(p.last()));
}

/// A `Result` with its error message taken as characters.
pub open spec fn message_view<T>(r: Result<T, String>) -> Result<T, Seq<char>> {
    match r {
        Ok(t) => Ok(t),
        Err(e) => Err(e@),
    }
}

// ---------------------------------------------------------------------------
// Parsing
// ---------------------------------------------------------------------------

pub open spec fn ranges_valid(s: Seq<char>, r: Seq<(usize, usize)>) -> bool {
    forall|k: int| 0 <= k < r.len() ==> #[trigger] r[k].0 <= r[k].1 && r[k].1 <= s.len()
}

pub open spec fn ranges_view(s: Seq<char>, r: Seq<(usize, usize)>) -> Seq<Seq<char>> {
    Seq::new(r.len(), |k: int| s.subrange(r[k].0 as int, r[k].1 as int))
}

proof fn lemma_parts_nonempty(segs: Seq<Seq<char>>)
    ensures
        forall|k: int|
            0 <= k < nonempty_trimmed(segs).len() ==> #[trigger] nonempty_trimmed(segs)[k].len()
                > 0,
    decreases segs.len(),
{
    if segs.len() > 0 {
        let prev = nonempty_trimmed(segs.drop_last());
        lemma_parts_nonempty(segs.drop_last());
        let t = trim(segs.last());
        if t.len() > 0 {
            assert forall|k: int| 0 <= k < prev.push(t).len() implies #[trigger] prev.push(t)[k].len()
                > 0 by {
                if k < prev.len() {
                    assert(prev.push(t)[k] == prev[k]);
                }
            }
        }
    }
}

proof fn lemma_mask_error_sticks(parts: Seq<Seq<char>>, n: int, m: int)
    requires
        0 <= n <= m,
        modifier_mask(parts, n) is Err,
    ensures
        modifier_mask(parts, m) == modifier_mask(parts, n),
    decreases m - n,
{
    if m > n {
        lemma_mask_error_sticks(parts, n, m - 1);
    }
}

/// Bounds of the trimmed, non-empty `+`-separated pieces of `v`.
fn part_ranges(v: &Vec<char>) -> (r: Vec<(usize, usize)>)
    ensures
        ranges_valid(v@, r@),
        ranges_view(v@, r@) == hotkey_parts(v@),
{
    let n = v.len();
    let mut out: Vec<(usize, usize)> = Vec::new();
    let mut st: usize = 0;
    let mut i: usize = 0;
    let ghost mut done: Seq<Seq<char>> = Seq::empty();
    assert(v@.take(0) =~= Seq::<char>::empty());
    assert(split_on(v@.take(0), '+') =~= done.push(v@.subrange(0, 0)));
    assert(ranges_view(v@, out@) =~= nonempty_trimmed(done));
    while i < n
        invariant
            n == v.len(),
            st <= i <= n,
            split_on(v@.take(i as int), '+') == done.push(v@.subrange(st as int, i as int)),
            ranges_valid(v@, out@),
            ranges_view(v@, out@) == nonempty_trimmed(done),
        decreases n - i,
    {
        let c = v[i];
        let ghost prev_view = ranges_view(v@, out@);
        assert(v@.take(i + 1).drop_last() =~= v@.take(i as int));
        assert(v@.take(i + 1).last() == c);
        if c == '+' {
            let (a, b) = trim_range(v, st, i);
            if a < b {
                let ghost before = out@;
                out.push((a, b));
                assert forall|k: int| 0 <= k < out@.len() implies #[trigger] out@[k].0 <= out@[k].1
                    && out@[k].1 <= v@.len() by {
                    if k < before.len() {
                        assert(out@[k] == before[k]);
                    }
                }
            }
            proof {
                let d2 = done.push(v@.subrange(st as int, i as int));
                assert(d2.drop_last() =~= done);
                assert(ranges_view(v@, out@) =~= nonempty_trimmed(d2));
                assert(v@.subrange(i + 1, i + 1) =~= Seq::<char>::empty());
                assert(split_on(v@.take(i + 1), '+') =~= d2.push(v@.subrange(i + 1, i + 1)));
                done = d2;
            }
            st = i + 1;
        } else {
            proof {
                lemma_split_nonempty(v@.take(i as int), '+');
                assert(v@.subrange(st as int, i as int).push(c) =~= v@.subrange(
                    st as int,
                    i + 1,
                ));
                assert(split_on(v@.take(i + 1), '+') =~= done.push(
                    v@.subrange(st as int, i + 1),
                ));
            }
        }
        i += 1;
    }
    let (a, b) = trim_range(v, st, n);
    if a < b {
        let ghost before = out@;
        out.push((a, b));
        assert forall|k: int| 0 <= k < out@.len() implies #[trigger] out@[k].0 <= out@[k].1
            && out@[k].1 <= v@.len() by {
            if k < before.len() {
                assert(out@[k] == before[k]);
            }
        }
    }
    proof {
        let d2 = done.push(v@.subrange(st as int, n as int));
        assert(d2.drop_last() =~= done);
        assert(v@.take(n as int) =~= v@);
        assert(ranges_view(v@, out@) =~= nonempty_trimmed(d2));
    }
    out
}

/// The modifier flag named by `v[a..b]`.
fn modifier_flag(v: &Vec<char>, a: usize, b: usize) -> (r: Option<u32>)
    requires
        a <= b <= v.len(),
    ensures
        r == modifier_bit(v@.subrange(a as int, b as int)),
{
    if range_eq(v, a, b, "alt", Fold::Lower) {
        Some(MOD_ALT)
    } else if range_eq(v, a, b, "ctrl", Fold::Lower) || range_eq(v, a, b, "control", Fold::Lower) {
        Some(MOD_CTRL)
    } else if range_eq(v, a, b, "shift", Fold::Lower) {
        Some(MOD_SHIFT)
    } else if range_eq(v, a, b, "win", Fold::Lower) || range_eq(v, a, b, "windows", Fold::Lower)
        || range_eq(v, a, b, "meta", Fold::Lower) {
        Some(MOD_WIN)
    } else {
        None
    }
}

/// The virtual-key code of an upper-cased key name from the named-key table.
fn named_key(name: &Vec<char>) -> (r: Option<u32>)
    ensures
        r == named_key_code(name@),
{
    let n = name.len();
    assert(name@.subrange(0, n as int) =~= name@);
    let e = Fold::Exact;
    if range_eq(name, 0, n, "UP", e) {
        Some(0x26)
    } else if range_eq(name, 0, n, "DOWN", e) {
        Some(0x28)
    } else if range_eq(name, 0, n, "LEFT", e) {
        Some(0x25)
    } else if range_eq(name, 0, n, "RIGHT", e) {
        Some(0x27)
    } else if range_eq(name, 0, n, "PAUSE", e) {
        Some(0x13)
    } else if range_eq(name, 0, n, "SPACE", e) {
        Some(0x20)
    } else if range_eq(name, 0, n, "HOME", e) {
        Some(0x24)
    } else if range_eq(name, 0, n, "END", e) {
        Some(0x23)
    } else if range_eq(name, 0, n, "PAGEUP", e) || range_eq(name, 0, n, "PAGE UP", e) {
        Some(0x21)
    } else if range_eq(name, 0, n, "PAGEDOWN", e) || range_eq(name, 0, n, "PAGE DOWN", e) {
        Some(0x22)
    } else if range_eq(name, 0, n, "NUMPAD0", e) {
        Some(0x60)
    } else if range_eq(name, 0, n, "NUMPAD1", e) {
        Some(0x61)
    } else if range_eq(name, 0, n, "NUMPAD2", e) {
        Some(0x62)
    } else if range_eq(name, 0, n, "NUMPAD3", e) {
        Some(0x63)
    } else if range_eq(name, 0, n, "NUMPAD4", e) {
        Some(0x64)
    } else if range_eq(name, 0, n, "NUMPAD5", e) {
        Some(0x65)
    } else if range_eq(name, 0, n, "NUMPAD6", e) {
        Some(0x66)
    } else if range_eq(name, 0, n, "NUMPAD7", e) {
        Some(0x67)
    } else if range_eq(name, 0, n, "NUMPAD8", e) {
        Some(0x68)
    } else if range_eq(name, 0, n, "NUMPAD9", e) {
        Some(0x69)
    } else if range_eq(name, 0, n, "NUMPADMULTIPLY", e) {
        Some(0x6a)
    } else if range_eq(name, 0, n, "NUMPADADD", e) {
        Some(0x6b)
    } else if range_eq(name, 0, n, "NUMPADSUBTRACT", e) {
        Some(0x6d)
    } else if range_eq(name, 0, n, "NUMPADDECIMAL", e) {
        Some(0x6e)
    } else if range_eq(name, 0, n, "NUMPADDIVIDE", e) {
        Some(0x6f)
    } else {
        None
    }
}

/// The function-key number of an upper-cased name `F<n>` (`name[0]` is `F`).
fn function_key(name: &Vec<char>) -> (r: Option<u32>)
    requires
        name.len() > 0,
    ensures
        match function_key_number(name@.skip(1)) {
            Some(n) => r == Some(n as u32),
            None => r is None,
        },
{
    let n = name.len();
    let ghost rest = name@.skip(1);
    let mut start: usize = 1;
    if start < n && name[start] == '+' {
        start = 2;
    }
    let ghost digits = name@.subrange(start as int, n as int);
    assert(digits =~= unsigned_digits(rest));
    if start == n {
        return None;
    }
    let mut value: u32 = 0;
    let mut j = start;
    assert(digits.take(0) =~= Seq::<char>::empty());
    while j < n
        invariant
            start <= j <= n == name.len(),
            digits == name@.subrange(start as int, n as int),
            digits == unsigned_digits(name@.skip(1)),
            digits.len() > 0,
            forall|k: int| 0 <= k < j - start ==> is_ascii_digit(#[trigger] digits[k]),
            value == (if decimal_value(digits.take(j - start)) > 24 {
                25
            } else {
                decimal_value(digits.take(j - start))
            }),
        decreases n - j,
    {
        let c = name[j];
        if !('0' <= c && c <= '9') {
            assert(!is_ascii_digit(digits[j - start]));
            assert(!all_digits(digits));
            return None;
        }
        let d = c as u32 - 48;
        proof {
            assert(digits.take(j + 1 - start).drop_last() =~= digits.take(j - start));
            assert(digits.take(j + 1 - start).last() == c);
        }
        if value > 24 {
            value = 25;
        } else {
            let next = value * 10 + d;
            value = if next > 24 {
                25
            } else {
                next
            };
        }
        j += 1;
    }
    assert(digits.take(n - start) =~= digits);
    if 1 <= value && value <= 24 {
        Some(value)
    } else {
        None
    }
}

/// The virtual-key code of the key piece `v[a..b]`.
fn key_of(shortcut: &str, v: &Vec<char>, a: usize, b: usize) -> (r: Result<u32, String>)
    requires
        a < b <= v.len(),
        v@ == shortcut@,
    ensures
        message_view(r) == key_code(v@.subrange(a as int, b as int)),
{
    let name = upper_range(v, a, b);
    let ghost part = v@.subrange(a as int, b as int);
    match named_key(&name) {
        Some(k) => Ok(k),
        None => {
            if name.len() == 1 && ('0' <= name[0] && name[0] <= '9' || 'A' <= name[0] && name[0]
                <= 'Z' || 'a' <= name[0] && name[0] <= 'z') {
                Ok(name[0] as u32)
            } else if name.len() > 0 && name[0] == 'F' {
                match function_key(&name) {
                    Some(n) => Ok(0x70 + n - 1),
                    None => Err(String::from_str("function keys must be F1 through F24")),
                }
            } else {
                let mut e = String::from_str("unsupported key ‘");
                e.append(shortcut.substring_char(a, b));
                e.append("’");
                Err(e)
            }
        },
    }
}

/// Parse a shortcut such as `Ctrl+Shift+F12` into its modifier flags and
/// virtual-key code. A shortcut needs a modifier unless its key is a numpad key.
pub fn parse_hotkey(shortcut: &str) -> (r: Result<(u32, u32), String>)
    ensures
        message_view(r) == parse_hotkey_spec(shortcut@),
{
    reveal(parse_hotkey_spec);
    let v = chars_of(shortcut);
    let parts = part_ranges(&v);
    let ghost pv = ranges_view(v@, parts@);
    if parts.len() == 0 {
        return Err(String::from_str("enter a shortcut or leave the field empty"));
    }
    let last = parts.len() - 1;
    let mut modifiers: u32 = 0;
    let mut idx: usize = 0;
    while idx < last
        invariant
            last == parts.len() - 1,
            idx <= last,
            ranges_valid(v@, parts@),
            pv == ranges_view(v@, parts@),
            pv == hotkey_parts(v@),
            v@ == shortcut@,
            modifier_mask(pv, idx as int) == Ok::<u32, Seq<char>>(modifiers),
        decreases last - idx,
    {
        let (a, b) = parts[idx];
        assert(pv[idx as int] == v@.subrange(a as int, b as int));
        match modifier_flag(&v, a, b) {
            Some(bit) => {
                modifiers = modifiers | bit;
            },
            None => {
                let mut e = String::from_str("unknown modifier ‘");
                e.append(shortcut.substring_char(a, b));
                e.append("’");
                proof {
                    reveal(parse_hotkey_spec);
                    lemma_mask_error_sticks(pv, idx + 1, last as int);
                }
                return Err(e);
            },
        }
        idx += 1;
    }
    let (a, b) = parts[last];
    assert(pv.last() == v@.subrange(a as int, b as int));
    proof {
        lemma_parts_nonempty(split_on(v@, '+'));
        assert(pv[last as int].len() > 0);
    }
    let key = match key_of(shortcut, &v, a, b) {
        Ok(k) => k,
        Err(e) => {
            return Err(e);
        },
    };
    if modifiers == 0 {
        let name = upper_range(&v, a, b);
        let p = "NUMPAD".unicode_len();
        let numpad = p <= name.len() && range_eq(&name, 0, p, "NUMPAD", Fold::Exact);
        assert(p <= name.len() ==> name@.subrange(0, p as int) =~= name@.take(p as int));
        if !numpad {
            return Err(
                String::from_str("include Ctrl, Alt, Shift, or Win (numpad keys may be used alone)"),
            );
        }
    }
    Ok((modifiers, key))
}

// ---------------------------------------------------------------------------
// The six bindings and their validation
// ---------------------------------------------------------------------------

/// Each configured shortcut with its hotkey id and its label, in the order in
/// which they are registered and checked.
pub open spec fn binding_table(config: HotkeyConfig) -> Seq<(i32, Seq<char>, Seq<char>)> {
    seq![
        (ID_PAUSE, "Toggle pause"@, config.toggle_pause@),
        (ID_BRIGHTER, "Brighter"@, config.brighter@),
        (ID_DARKER, "Darker"@, config.darker@),
        (ID_THEME, "Toggle theme"@, config.toggle_theme@),
        (ID_DAY_NIGHT, "Toggle day/night"@, config.toggle_day_night@),
        (ID_BOOST, "Boost"@, config.boost@),
    ]
}

pub open spec fn binding_view(b: (i32, &str, &str)) -> (i32, Seq<char>, Seq<char>) {
    (b.0, b.1@, b.2@)
}

/// The hotkey id, label and shortcut text of each configured action.
pub fn bindings(config: &HotkeyConfig) -> (r: [(i32, &'static str, &str); 6])
    ensures
        r@.map_values(|b: (i32, &str, &str)| binding_view(b)) == binding_table(*config),
{
    let r = [
        (ID_PAUSE, "Toggle pause", config.toggle_pause.as_str()),
        (ID_BRIGHTER, "Brighter", config.brighter.as_str()),
        (ID_DARKER, "Darker", config.darker.as_str()),
        (ID_THEME, "Toggle theme", config.toggle_theme.as_str()),
        (ID_DAY_NIGHT, "Toggle day/night", config.toggle_day_night.as_str()),
        (ID_BOOST, "Boost", config.boost.as_str()),
    ];
    assert(r@.map_values(|b: (i32, &str, &str)| binding_view(b)) =~= binding_table(*config));
    r
}

/// What `validate_config` answers for the bindings `bs`, given the key
/// combinations `used` by the bindings before them.
pub open spec fn validate_from(
    bs: Seq<(i32, Seq<char>, Seq<char>)>,
    used: Seq<(u32, u32)>,
) -> Result<(), Seq<char>>
    decreases bs.len(),
{
    if bs.len() == 0 {
        Ok(())
    } else {
        let label = bs[0].1;
        let t = trim(bs[0].2);
        if t.len() == 0 {
            validate_from(bs.drop_first(), used)
        } else {
            match parse_hotkey_spec(t) {
                Err(e) => Err(label + ": "@ + e),
                Ok(p) => if used.contains(p) {
                    Err(label + ": shortcut is already assigned"@)
                } else {
                    validate_from(bs.drop_first(), used.push(p))
                },
            }
        }
    }
}

/// Whether a binding has a shortcut at all (blank ones are skipped).
pub open spec fn in_use(b: (i32, Seq<char>, Seq<char>)) -> bool {
    trim(b.2).len() > 0
}

/// What a binding's shortcut parses to, surrounding whitespace removed.
pub open spec fn parsed_binding(b: (i32, Seq<char>, Seq<char>)) -> Result<(u32, u32), Seq<char>> {
    parse_hotkey_spec(trim(b.2))
}

/// Every shortcut in use parses, and no two shortcuts in use are the same key
/// combination.
pub open spec fn bindings_acceptable(bs: Seq<(i32, Seq<char>, Seq<char>)>) -> bool {
    &&& forall|k: int| 0 <= k < bs.len() && in_use(bs[k]) ==> (#[trigger] parsed_binding(bs[k])) is Ok
    &&& forall|j: int, k: int|
        0 <= j < k < bs.len() && in_use(bs[j]) && in_use(bs[k]) ==> #[trigger] parsed_binding(bs[j])
            != #[trigger] parsed_binding(bs[k])
}

/// None of the shortcuts in use parses to a combination in `used`.
pub open spec fn avoids(bs: Seq<(i32, Seq<char>, Seq<char>)>, used: Seq<(u32, u32)>) -> bool {
    forall|k: int|
        0 <= k < bs.len() && in_use(bs[k]) && (#[trigger] parsed_binding(bs[k])) is Ok ==> !used.contains(
            parsed_binding(bs[k])->Ok_0,
        )
}

proof fn lemma_validate_from(bs: Seq<(i32, Seq<char>, Seq<char>)>, used: Seq<(u32, u32)>)
    ensures
        validate_from(bs, used) is Ok <==> bindings_acceptable(bs) && avoids(bs, used),
    decreases bs.len(),
{
    if bs.len() > 0 {
        let rest = bs.drop_first();
        let b = bs[0];
        assert forall|k: int| 0 <= k < rest.len() implies rest[k] == bs[k + 1] by {}
        if !in_use(b) {
            lemma_validate_from(rest, used);
            if bindings_acceptable(rest) && avoids(rest, used) {
                assert forall|j: int, k: int|
                    0 <= j < k < bs.len() && in_use(bs[j]) && in_use(bs[k]) implies #[trigger] parsed_binding(
                    bs[j],
                ) != #[trigger] parsed_binding(bs[k]) by {
                    assert(parsed_binding(rest[j - 1]) != parsed_binding(rest[k - 1]));
                }
                assert forall|k: int|
                    0 <= k < bs.len() && in_use(bs[k]) implies (#[trigger] parsed_binding(bs[k])) is Ok by {
                    assert(parsed_binding(rest[k - 1]) is Ok);
                }
                assert forall|k: int|
                    0 <= k < bs.len() && in_use(bs[k]) && (#[trigger] parsed_binding(bs[k])) is Ok implies !used.contains(
                    parsed_binding(bs[k])->Ok_0,
                ) by {
                    assert(parsed_binding(rest[k - 1]) is Ok);
                }
            }
            if bindings_acceptable(bs) && avoids(bs, used) {
                assert forall|j: int, k: int|
                    0 <= j < k < rest.len() && in_use(rest[j]) && in_use(rest[k]) implies #[trigger] parsed_binding(
                    rest[j],
                ) != #[trigger] parsed_binding(rest[k]) by {
                    assert(parsed_binding(bs[j + 1]) != parsed_binding(bs[k + 1]));
                }
                assert forall|k: int|
                    0 <= k < rest.len() && in_use(rest[k]) implies (#[trigger] parsed_binding(rest[k])) is Ok by {
                    assert(parsed_binding(bs[k + 1]) is Ok);
                }
                assert forall|k: int|
                    0 <= k < rest.len() && in_use(rest[k]) && (#[trigger] parsed_binding(rest[k])) is Ok implies !used.contains(
                    parsed_binding(rest[k])->Ok_0,
                ) by {
                    assert(parsed_binding(bs[k + 1]) is Ok);
                }
            }
        } else {
            match parse_hotkey_spec(trim(b.2)) {
                Err(e) => {
                    assert(parsed_binding(bs[0]) is Err);
                },
                Ok(p) => {
                    assert(parsed_binding(bs[0]) == Ok::<(u32, u32), Seq<char>>(p));
                    if used.contains(p) {
                        assert(!avoids(bs, used));
                    } else {
                        let used2 = used.push(p);
                        lemma_validate_from(rest, used2);
                        if bindings_acceptable(rest) && avoids(rest, used2) {
                            assert forall|j: int, k: int|
                                0 <= j < k < bs.len() && in_use(bs[j]) && in_use(bs[k]) implies #[trigger] parsed_binding(
                                bs[j],
                            ) != #[trigger] parsed_binding(bs[k]) by {
                                if j == 0 {
                                    assert(parsed_binding(rest[k - 1]) is Ok);
                                    assert(used2.contains(p)) by {
                                        assert(used2[used.len() as int] == p);
                                    }
                                } else {
                                    assert(parsed_binding(rest[j - 1]) != parsed_binding(rest[k - 1]));
                                }
                            }
                            assert forall|k: int|
                                0 <= k < bs.len() && in_use(bs[k]) implies (#[trigger] parsed_binding(bs[k])) is Ok by {
                                if k > 0 {
                                    assert(parsed_binding(rest[k - 1]) is Ok);
                                }
                            }
                            assert forall|k: int|
                                0 <= k < bs.len() && in_use(bs[k]) && (#[trigger] parsed_binding(bs[k])) is Ok implies !used.contains(
                                parsed_binding(bs[k])->Ok_0,
                            ) by {
                                if k > 0 {
                                    assert(parsed_binding(rest[k - 1]) is Ok);
                                    let x = parsed_binding(rest[k - 1])->Ok_0;
                                    assert(!used2.contains(x));
                                    if used.contains(x) {
                                        let i = choose|i: int| 0 <= i < used.len() && used[i] == x;
                                        assert(used2[i] == x);
                                    }
                                }
                            }
                        }
                        if bindings_acceptable(bs) && avoids(bs, used) {
                            assert forall|j: int, k: int|
                                0 <= j < k < rest.len() && in_use(rest[j]) && in_use(rest[k]) implies #[trigger] parsed_binding(
                                rest[j],
                            ) != #[trigger] parsed_binding(rest[k]) by {
                                assert(parsed_binding(bs[j + 1]) != parsed_binding(bs[k + 1]));
                            }
                            assert forall|k: int|
                                0 <= k < rest.len() && in_use(rest[k]) implies (#[trigger] parsed_binding(rest[k])) is Ok by {
                                assert(parsed_binding(bs[k + 1]) is Ok);
                            }
                            assert forall|k: int|
                                0 <= k < rest.len() && in_use(rest[k]) && (#[trigger] parsed_binding(rest[k])) is Ok implies !used2.contains(
                                parsed_binding(rest[k])->Ok_0,
                            ) by {
                                assert(parsed_binding(bs[k + 1]) is Ok);
                                assert(parsed_binding(bs[0]) != parsed_binding(bs[k + 1]));
                                let x = parsed_binding(rest[k])->Ok_0;
                                assert(!used.contains(x));
                                if used2.contains(x) {
                                    let i = choose|i: int| 0 <= i < used2.len() && used2[i] == x;
                                    if i < used.len() {
                                        assert(used[i] == x);
                                    }
                                }
                            }
                        }
                    }
                },
            }
        }
    }
}

/// A configuration passes `validate_config` exactly when every shortcut in use
/// parses and no two shortcuts in use name the same key combination.
pub proof fn lemma_validate_config_accepts(config: HotkeyConfig)
    ensures
        validate_from(binding_table(config), Seq::empty()) is Ok <==> bindings_acceptable(
            binding_table(config),
        ),
{
    lemma_validate_from(binding_table(config), Seq::empty());
}

fn contains_pair(v: &Vec<(u32, u32)>, p: (u32, u32)) -> (r: bool)
    ensures
        r == v@.contains(p),
{
    let mut i: usize = 0;
    while i < v.len()
        invariant
            i <= v.len(),
            forall|j: int| 0 <= j < i ==> v@[j] != p,
        decreases v.len() - i,
    {
        let q = v[i];
        if q.0 == p.0 && q.1 == p.1 {
            return true;
        }
        i += 1;
    }
    false
}

/// Check that every non-empty shortcut parses and that no two of them are the
/// same key combination. The message names the first binding at fault.
pub fn validate_config(config: &HotkeyConfig) -> (r: Result<(), String>)
    ensures
        message_view(r) == validate_from(binding_table(*config), Seq::empty()),
{
    let list = bindings(config);
    let ghost table = binding_table(*config);
    let mut used: Vec<(u32, u32)> = Vec::new();
    let mut i: usize = 0;
    assert(table.skip(0) =~= table);
    while i < 6
        invariant
            i <= 6,
            table == binding_table(*config),
            list@.map_values(|b: (i32, &str, &str)| binding_view(b)) == table,
            validate_from(table, Seq::empty()) == validate_from(table.skip(i as int), used@),
        decreases 6 - i,
    {
        let (_, label, shortcut) = list[i];
        assert(binding_view(list@[i as int]) == table[i as int]);
        let ghost rest = table.skip(i as int);
        assert(rest[0] == table[i as int]);
        assert(rest.drop_first() =~= table.skip(i + 1));
        let v = chars_of(shortcut);
        let (a, b) = trim_range(&v, 0, v.len());
        assert(v@.subrange(0, v@.len() as int) =~= v@);
        if a < b {
            let t = shortcut.substring_char(a, b);
            match parse_hotkey(t) {
                Err(e) => {
                    let mut msg = String::from_str(label);
                    msg.append(": ");
                    msg.append(e.as_str());
                    return Err(msg);
                },
                Ok(p) => {
                    if contains_pair(&used, p) {
                        let mut msg = String::from_str(label);
                        msg.append(": shortcut is already assigned");
                        return Err(msg);
                    }
                    used.push(p);
                },
            }
        }
        i += 1;
    }
    Ok(())
}

// ---------------------------------------------------------------------------
// The listener
// ---------------------------------------------------------------------------

pub const WM_HOTKEY: u32 = 0x0312;
pub const WM_RELOAD_HOTKEYS: u32 = 0x8001;

/// One shortcut that a reload registers, or reports as invalid.
pub struct Registration {
    pub id: i32,
    pub label: String,
    pub shortcut: String,
    /// The parsed shortcut, or why it could not be parsed.
    pub outcome: Result<(u32, u32), String>,
}

pub open spec fn registration_view(r: Registration) -> (
    i32,
    Seq<char>,
    Seq<char>,
    Result<(u32, u32), Seq<char>>,
) {
    (r.id, r.label@, r.shortcut@, message_view(r.outcome))
}

/// The registrations a reload performs for the bindings `bs`, in order: every
/// binding whose shortcut is not blank, with what its shortcut parses to.
pub open spec fn registration_plan(bs: Seq<(i32, Seq<char>, Seq<char>)>) -> Seq<
    (i32, Seq<char>, Seq<char>, Result<(u32, u32), Seq<char>>),
>
    decreases bs.len(),
{
    if bs.len() == 0 {
        Seq::empty()
    } else {
        let prev = registration_plan(bs.drop_last());
        let b = bs.last();
        if trim(b.2).len() == 0 {
            prev
        } else {
            prev.push((b.0, b.1, b.2, parse_hotkey_spec(b.2)))
        }
    }
}

/// What the shortcut listener keeps: the configuration to register, a
/// generation number that every update advances, and the thread that runs
/// the listener (0 until it has started).
pub struct HotkeyManager {
    thread_id: u32,
    generation: u64,
    pending: HotkeyConfig,
}

impl HotkeyManager {
    pub closed spec fn listener_thread(&self) -> u32 {
        self.thread_id
    }

    pub closed spec fn generation_value(&self) -> u64 {
        self.generation
    }

    pub closed spec fn pending_config(&self) -> HotkeyConfig {
        self.pending
    }

    /// Whether a listener that last applied generation `applied` has shortcuts
    /// to register again.
    pub open spec fn reload_due(&self, applied: u64) -> bool {
        applied != self.generation_value()
    }

    /// A manager for `config`, at generation 1, before its listener runs.
    pub fn new(config: HotkeyConfig) -> (r: Self)
        ensures
            r.listener_thread() == 0,
            r.generation_value() == 1,
            r.pending_config() == config,
    {
        HotkeyManager { thread_id: 0, generation: 1, pending: config }
    }

    /// Record the thread that runs the listener, so that updates can wake it.
    pub fn set_listener_thread(&mut self, thread_id: u32)
        ensures
            final(self).listener_thread() == thread_id,
            final(self).generation_value() == old(self).generation_value(),
            final(self).pending_config() == old(self).pending_config(),
    {
        self.thread_id = thread_id;
    }

    /// Replace the configuration and advance the generation. Returns the
    /// listener thread to wake with `WM_RELOAD_HOTKEYS`, if it has started.
    pub fn update(&mut self, config: HotkeyConfig) -> (wake: Option<u32>)
        ensures
            final(self).pending_config() == config,
            final(self).generation_value() == (old(self).generation_value() + 1) % 0x1_0000_0000_0000_0000,
            final(self).listener_thread() == old(self).listener_thread(),
            wake == (if old(self).listener_thread() != 0 {
                Some(old(self).listener_thread())
            } else {
                None
            }),
    {
        self.pending = config;
        self.generation = self.generation.wrapping_add(1);
        if self.thread_id != 0 {
            Some(self.thread_id)
        } else {
            None
        }
    }

    /// The shortcuts to register when the listener last applied generation
    /// `applied`: none when it is current; otherwise every non-blank binding
    /// of the pending configuration, and `applied` becomes current. The
    /// caller unregisters the old shortcuts before it registers these.
    pub fn reload(&self, applied: &mut u64) -> (plan: Option<Vec<Registration>>)
        ensures
            !self.reload_due(*old(applied)) ==> plan is None && *final(applied) == *old(applied),
            self.reload_due(*old(applied)) ==> plan is Some && plan->0@.map_values(
                |r: Registration| registration_view(r),
            ) == registration_plan(binding_table(self.pending_config())) && *final(applied)
                == self.generation_value(),
    {
        if *applied == self.generation {
            return None;
        }
        let list = bindings(&self.pending);
        let ghost table = binding_table(self.pending);
        let mut plan: Vec<Registration> = Vec::new();
        let mut i: usize = 0;
        assert(table.take(0) =~= Seq::<(i32, Seq<char>, Seq<char>)>::empty());
        assert(plan@.map_values(|r: Registration| registration_view(r)) =~= registration_plan(
            table.take(0),
        ));
        while i < 6
            invariant
                i <= 6,
                table == binding_table(self.pending),
                list@.map_values(|b: (i32, &str, &str)| binding_view(b)) == table,
                plan@.map_values(|r: Registration| registration_view(r)) == registration_plan(
                    table.take(i as int),
                ),
            decreases 6 - i,
        {
            let (id, label, shortcut) = list[i];
            assert(binding_view(list@[i as int]) == table[i as int]);
            assert(table.take(i + 1).drop_last() =~= table.take(i as int));
            assert(table.take(i + 1).last() == table[i as int]);
            let v = chars_of(shortcut);
            let (a, b) = trim_range(&v, 0, v.len());
            assert(v@.subrange(0, v@.len() as int) =~= v@);
            if a < b {
                let reg = Registration {
                    id,
                    label: String::from_str(label),
                    shortcut: String::from_str(shortcut),
                    outcome: parse_hotkey(shortcut),
                };
                let ghost before = plan@;
                plan.push(reg);
                assert(plan@.map_values(|r: Registration| registration_view(r)) =~= before.map_values(
                    |r: Registration| registration_view(r),
                ).push(registration_view(reg)));
            }
            i += 1;
        }
        assert(table.take(6) =~= table);
        *applied = self.generation;
        Some(plan)
    }
}

/// Reloading twice with no update in between registers nothing the second
/// time.
pub proof fn lemma_reload_settles(m: HotkeyManager)
    ensures
        !m.reload_due(m.generation_value()),
{
}

/// After an update, a listener that was current has shortcuts to register.
pub proof fn lemma_update_makes_reload_due(before: HotkeyManager, after: HotkeyManager)
    requires
        after.generation_value() == (before.generation_value() + 1) % 0x1_0000_0000_0000_0000,
    ensures
        after.reload_due(before.generation_value()),
{
}

/// What the listener does with what `GetMessageW` gave it.
#[derive(Debug, Clone, Copy, PartialEq, Eq, Structural)]
pub enum ListenerStep {
    /// The queue is closed or failed: leave the loop and unregister every
    /// hotkey id.
    Exit,
    /// Re-read the configuration and register it again; nothing is dispatched.
    Reload,
    /// Carry out the action of this hotkey id once, then dispatch the message.
    Hotkey(i32),
    /// Only dispatch the message.
    Dispatch,
}

/// The step for a `GetMessageW` result and the message it filled in.
pub fn listener_step(get_message_result: i32, message: u32, wparam: usize) -> (r: ListenerStep)
    ensures
        r == (if get_message_result <= 0 {
            ListenerStep::Exit
        } else if message == WM_RELOAD_HOTKEYS {
            ListenerStep::Reload
        } else if message == WM_HOTKEY {
            ListenerStep::Hotkey(wparam as i32)
        } else {
            ListenerStep::Dispatch
        }),
{
    if get_message_result <= 0 {
        ListenerStep::Exit
    } else if message == WM_RELOAD_HOTKEYS {
        ListenerStep::Reload
    } else if message == WM_HOTKEY {
        ListenerStep::Hotkey(wparam as i32)
    } else {
        ListenerStep::Dispatch
    }
}

/// Every hotkey id the listener may have registered, which leaving the loop or
/// reloading unregisters.
pub fn hotkey_ids() -> (r: [i32; 6])
    ensures
        r@ == seq![ID_PAUSE, ID_BRIGHTER, ID_DARKER, ID_THEME, ID_DAY_NIGHT, ID_BOOST],
        forall|id: i32| 1 <= id <= 6 ==> r@.contains(id),
{
    let r = [ID_PAUSE, ID_BRIGHTER, ID_DARKER, ID_THEME, ID_DAY_NIGHT, ID_BOOST];
    assert(r@ =~= seq![ID_PAUSE, ID_BRIGHTER, ID_DARKER, ID_THEME, ID_DAY_NIGHT, ID_BOOST]);
    assert forall|id: i32| 1 <= id <= 6 implies r@.contains(id) by {
        assert(r@[id - 1] == id);
    }
    r
}

/// What a pressed hotkey does.
#[derive(Debug, Clone, Copy, PartialEq, Eq, Structural)]
pub enum HotkeyAction {
    TogglePause,
    /// Change the brightness by this many percentage points.
    StepBrightness(i32),
    ToggleTheme,
    /// Jump to night (`true`) or to day.
    JumpTo(bool),
    /// Reset the display to its unmodified ramps.
    Boost,
}

/// The action of hotkey `id` while the engine is in phase `phase`; the
/// day/night hotkey jumps to night from day or morning, and to day otherwise.
pub fn hotkey_action(id: i32, phase: &str) -> (r: Option<HotkeyAction>)
    ensures
        r == (if id == ID_PAUSE {
            Some(HotkeyAction::TogglePause)
        } else if id == ID_BRIGHTER {
            Some(HotkeyAction::StepBrightness(5))
        } else if id == ID_DARKER {
            Some(HotkeyAction::StepBrightness(-5i32))
        } else if id == ID_THEME {
            Some(HotkeyAction::ToggleTheme)
        } else if id == ID_DAY_NIGHT {
            Some(HotkeyAction::JumpTo(phase@ == "day"@ || phase@ == "morning"@))
        } else if id == ID_BOOST {
            Some(HotkeyAction::Boost)
        } else {
            None
        }),
{
    if id == ID_PAUSE {
        Some(HotkeyAction::TogglePause)
    } else if id == ID_BRIGHTER {
        Some(HotkeyAction::StepBrightness(5))
    } else if id == ID_DARKER {
        Some(HotkeyAction::StepBrightness(-5i32))
    } else if id == ID_THEME {
        Some(HotkeyAction::ToggleTheme)
    } else if id == ID_DAY_NIGHT {
        Some(HotkeyAction::JumpTo(str_eq(phase, "day") || str_eq(phase, "morning")))
    } else if id == ID_BOOST {
        Some(HotkeyAction::Boost)
    } else {
        None
    }
}

} // verus!
