//! Hotkey strings such as "Cmd+Shift+V": their tokens, and the global
//! hotkey they describe.

use vstd::prelude::*;
use vstd::string::*;

use crate::config::Config;
use crate::text::{chars_eq, chars_of, is_word, lowercase, lowercase_chars, pieces, split_chars, trim_chars, trimmed};

verus! {

/// The tokens of a hotkey string: the pieces between `+` signs, each with
/// white space trimmed and then lower-cased.
pub open spec fn hotkey_tokens(s: Seq<char>) -> Seq<Seq<char>> {
    pieces(s, '+', 0).map_values(|p: Seq<char>| lowercase(trimmed(p)))
}

/// The tokens of the hotkey string `s`.
pub fn hotkey_tokens_of(s: &str) -> (r: Vec<Vec<char>>)
    ensures
        r@.len() == hotkey_tokens(s@).len(),
        forall|k: int| 0 <= k < r@.len() ==> #[trigger] r@[k]@ == hotkey_tokens(s@)[k],
{
    let v = chars_of(s);
    let parts = split_chars(v.as_slice(), '+', 0);
    let mut r: Vec<Vec<char>> = Vec::new();
    let mut i: usize = 0;
    while i < parts.len()
        invariant
            v@ == s@,
            parts@.len() == pieces(s@, '+', 0).len(),
            forall|k: int| 0 <= k < parts@.len() ==> #[trigger] parts@[k]@ == pieces(s@, '+', 0)[k],
            i <= parts@.len(),
            r@.len() == i,
            forall|k: int| 0 <= k < i ==> #[trigger] r@[k]@ == hotkey_tokens(s@)[k],
        decreases parts.len() - i,
    {
        let t = trim_chars(parts[i].as_slice());
        let l = lowercase_chars(t.as_slice());
        r.push(l);
        i += 1;
    }
    r
}


/// The modifier keys of a hotkey.
#[derive(Debug, Clone, Copy, PartialEq, Eq, Structural)]
pub struct Modifiers {
    /// Cmd / Command / Meta / Super.
    pub meta: bool,
    /// Ctrl / Control.
    pub control: bool,
    pub shift: bool,
    /// Alt / Option.
    pub alt: bool,
}

/// The main key of a hotkey.
#[derive(Debug, Clone, Copy, PartialEq, Eq, Structural)]
pub enum HotkeyKey {
    /// A letter, `'A'..='Z'`.
    Letter(char),
    /// A digit, `'0'..='9'`.
    Digit(char),
    /// A function key F1 to F12.
    Function(u8),
    Space,
    Enter,
    Tab,
    Escape,
    Backspace,
    Delete,
    Home,
    End,
    PageUp,
    PageDown,
    ArrowUp,
    ArrowDown,
    ArrowLeft,
    ArrowRight,
}

/// A global hotkey: modifiers and one key.
#[derive(Debug, Clone, Copy, PartialEq, Eq, Structural)]
pub struct Hotkey {
    pub modifiers: Modifiers,
    pub key: HotkeyKey,
}

/// What a non-modifier token does to the key read so far.
#[derive(Debug, Clone, Copy, PartialEq, Eq, Structural)]
pub enum TokenEffect {
    /// The token names this key, which replaces the key read so far.
    Key(HotkeyKey),
    /// A single ASCII character that names no key: no key so far.
    Clear,
    /// Any other token that names no key (a longer word, or one non-ASCII
    /// character): the key read so far stays.
    Keep,
}

/// What the lower-cased, non-modifier token `t` does to the key: letters,
/// digits, F1 to F12 and the named special keys are keys.
pub open spec fn token_effect(t: Seq<char>) -> TokenEffect {
    if t.len() == 1 && 'a' <= t[0] && t[0] <= 'z' {
        TokenEffect::Key(HotkeyKey::Letter(upper_letter(t[0])))
    } else if t.len() == 1 && '0' <= t[0] && t[0] <= '9' {
        TokenEffect::Key(HotkeyKey::Digit(t[0]))
    }
    else if t == "f1"@ { TokenEffect::Key(HotkeyKey::Function(1)) }
    else if t == "f2"@ { TokenEffect::Key(HotkeyKey::Function(2)) }
    else if t == "f3"@ { TokenEffect::Key(HotkeyKey::Function(3)) }
    else if t == "f4"@ { TokenEffect::Key(HotkeyKey::Function(4)) }
    else if t == "f5"@ { TokenEffect::Key(HotkeyKey::Function(5)) }
    else if t == "f6"@ { TokenEffect::Key(HotkeyKey::Function(6)) }
    else if t == "f7"@ { TokenEffect::Key(HotkeyKey::Function(7)) }
    else if t == "f8"@ { TokenEffect::Key(HotkeyKey::Function(8)) }
    else if t == "f9"@ { TokenEffect::Key(HotkeyKey::Function(9)) }
    else if t == "f10"@ { TokenEffect::Key(HotkeyKey::Function(10)) }
    else if t == "f11"@ { TokenEffect::Key(HotkeyKey::Function(11)) }
    else if t == "f12"@ { TokenEffect::Key(HotkeyKey::Function(12)) }
    else if t == "space"@ { TokenEffect::Key(HotkeyKey::Space) }
    else if t == "enter"@ { TokenEffect::Key(HotkeyKey::Enter) }
    else if t == "tab"@ { TokenEffect::Key(HotkeyKey::Tab) }
    else if t == "esc"@ { TokenEffect::Key(HotkeyKey::Escape) }
    else if t == "backspace"@ { TokenEffect::Key(HotkeyKey::Backspace) }
    else if t == "delete"@ { TokenEffect::Key(HotkeyKey::Delete) }
    else if t == "home"@ { TokenEffect::Key(HotkeyKey::Home) }
    else if t == "end"@ { TokenEffect::Key(HotkeyKey::End) }
    else if t == "pageup"@ { TokenEffect::Key(HotkeyKey::PageUp) }
    else if t == "pagedown"@ { TokenEffect::Key(HotkeyKey::PageDown) }
    else if t == "up"@ { TokenEffect::Key(HotkeyKey::ArrowUp) }
    else if t == "down"@ { TokenEffect::Key(HotkeyKey::ArrowDown) }
    else if t == "left"@ { TokenEffect::Key(HotkeyKey::ArrowLeft) }
    else if t == "right"@ { TokenEffect::Key(HotkeyKey::ArrowRight) }
    else if t.len() == 1 && (t[0] as u32) < 0x80 {
        TokenEffect::Clear
    } else {
        TokenEffect::Keep
    }
}

/// The upper-case form of the ASCII lower-case letter `c`.
pub open spec fn upper_letter(c: char) -> char {
    if c == 'a' { 'A' } else if c == 'b' { 'B' } else if c == 'c' { 'C' } else if c == 'd' { 'D' }
    else if c == 'e' { 'E' } else if c == 'f' { 'F' } else if c == 'g' { 'G' } else if c == 'h' { 'H' }
    else if c == 'i' { 'I' } else if c == 'j' { 'J' } else if c == 'k' { 'K' } else if c == 'l' { 'L' }
    else if c == 'm' { 'M' } else if c == 'n' { 'N' } else if c == 'o' { 'O' } else if c == 'p' { 'P' }
    else if c == 'q' { 'Q' } else if c == 'r' { 'R' } else if c == 's' { 'S' } else if c == 't' { 'T' }
    else if c == 'u' { 'U' } else if c == 'v' { 'V' } else if c == 'w' { 'W' } else if c == 'x' { 'X' }
    else if c == 'y' { 'Y' } else { 'Z' }
}

/// The upper-case form of an ASCII lower-case letter.
fn to_upper_letter(c: char) -> (r: char)
    ensures
        r == upper_letter(c),
{
    if c == 'a' { 'A' } else if c == 'b' { 'B' } else if c == 'c' { 'C' } else if c == 'd' { 'D' }
    else if c == 'e' { 'E' } else if c == 'f' { 'F' } else if c == 'g' { 'G' } else if c == 'h' { 'H' }
    else if c == 'i' { 'I' } else if c == 'j' { 'J' } else if c == 'k' { 'K' } else if c == 'l' { 'L' }
    else if c == 'm' { 'M' } else if c == 'n' { 'N' } else if c == 'o' { 'O' } else if c == 'p' { 'P' }
    else if c == 'q' { 'Q' } else if c == 'r' { 'R' } else if c == 's' { 'S' } else if c == 't' { 'T' }
    else if c == 'u' { 'U' } else if c == 'v' { 'V' } else if c == 'w' { 'W' } else if c == 'x' { 'X' }
    else if c == 'y' { 'Y' } else { 'Z' }
}

/// What the lower-cased, non-modifier token `t` does to the key.
pub fn classify_key_token(t: &[char]) -> (r: TokenEffect)
    ensures
        r == token_effect(t@),
{
    if t.len() == 1 && 'a' <= t[0] && t[0] <= 'z' {
        TokenEffect::Key(HotkeyKey::Letter(to_upper_letter(t[0])))
    } else if t.len() == 1 && '0' <= t[0] && t[0] <= '9' {
        TokenEffect::Key(HotkeyKey::Digit(t[0]))
    }
    else if is_word(t, "f1") { TokenEffect::Key(HotkeyKey::Function(1)) }
    else if is_word(t, "f2") { TokenEffect::Key(HotkeyKey::Function(2)) }
    else if is_word(t, "f3") { TokenEffect::Key(HotkeyKey::Function(3)) }
    else if is_word(t, "f4") { TokenEffect::Key(HotkeyKey::Function(4)) }
    else if is_word(t, "f5") { TokenEffect::Key(HotkeyKey::Function(5)) }
    else if is_word(t, "f6") { TokenEffect::Key(HotkeyKey::Function(6)) }
    else if is_word(t, "f7") { TokenEffect::Key(HotkeyKey::Function(7)) }
    else if is_word(t, "f8") { TokenEffect::Key(HotkeyKey::Function(8)) }
    else if is_word(t, "f9") { TokenEffect::Key(HotkeyKey::Function(9)) }
    else if is_word(t, "f10") { TokenEffect::Key(HotkeyKey::Function(10)) }
    else if is_word(t, "f11") { TokenEffect::Key(HotkeyKey::Function(11)) }
    else if is_word(t, "f12") { TokenEffect::Key(HotkeyKey::Function(12)) }
    else if is_word(t, "space") { TokenEffect::Key(HotkeyKey::Space) }
    else if is_word(t, "enter") { TokenEffect::Key(HotkeyKey::Enter) }
    else if is_word(t, "tab") { TokenEffect::Key(HotkeyKey::Tab) }
    else if is_word(t, "esc") { TokenEffect::Key(HotkeyKey::Escape) }
    else if is_word(t, "backspace") { TokenEffect::Key(HotkeyKey::Backspace) }
    else if is_word(t, "delete") { TokenEffect::Key(HotkeyKey::Delete) }
    else if is_word(t, "home") { TokenEffect::Key(HotkeyKey::Home) }
    else if is_word(t, "end") { TokenEffect::Key(HotkeyKey::End) }
    else if is_word(t, "pageup") { TokenEffect::Key(HotkeyKey::PageUp) }
    else if is_word(t, "pagedown") { TokenEffect::Key(HotkeyKey::PageDown) }
    else if is_word(t, "up") { TokenEffect::Key(HotkeyKey::ArrowUp) }
    else if is_word(t, "down") { TokenEffect::Key(HotkeyKey::ArrowDown) }
    else if is_word(t, "left") { TokenEffect::Key(HotkeyKey::ArrowLeft) }
    else if is_word(t, "right") { TokenEffect::Key(HotkeyKey::ArrowRight) }
    else if t.len() == 1 && (t[0] as u32) < 0x80 {
        TokenEffect::Clear
    } else {
        TokenEffect::Keep
    }
}

/// Modifiers and key read so far.
#[derive(Debug, Clone, Copy, PartialEq, Eq, Structural)]
pub struct HotkeyScan {
    pub modifiers: Modifiers,
    pub key: Option<HotkeyKey>,
}

/// Reading one lower-cased token: a modifier name adds that modifier; any
/// other token acts on the key as [`token_effect`] says.
pub open spec fn hotkey_step(st: HotkeyScan, t: Seq<char>) -> HotkeyScan {
    if t == "cmd"@ || t == "command"@ || t == "meta"@ || t == "super"@ {
        HotkeyScan { modifiers: Modifiers { meta: true, ..st.modifiers }, ..st }
    } else if t == "ctrl"@ || t == "control"@ {
        HotkeyScan { modifiers: Modifiers { control: true, ..st.modifiers }, ..st }
    } else if t == "shift"@ {
        HotkeyScan { modifiers: Modifiers { shift: true, ..st.modifiers }, ..st }
    } else if t == "alt"@ || t == "option"@ {
        HotkeyScan { modifiers: Modifiers { alt: true, ..st.modifiers }, ..st }
    } else {
        match token_effect(t) {
            TokenEffect::Key(k) => HotkeyScan { key: Some(k), ..st },
            TokenEffect::Clear => HotkeyScan { key: None, ..st },
            TokenEffect::Keep => st,
        }
    }
}

/// The scan after all of `tokens`, starting with no modifier and no key.
pub open spec fn hotkey_scan(tokens: Seq<Seq<char>>) -> HotkeyScan
    decreases tokens.len(),
{
    if tokens.len() == 0 {
        HotkeyScan {
            modifiers: Modifiers { meta: false, control: false, shift: false, alt: false },
            key: None,
        }
    } else {
        hotkey_step(hotkey_scan(tokens.drop_last()), tokens.last())
    }
}

/// The hotkey a hotkey string describes: all modifiers named, with the
/// key read last; nothing when no key was read.
pub open spec fn spec_parse_hotkey(s: Seq<char>) -> Option<Hotkey> {
    let st = hotkey_scan(hotkey_tokens(s));
    match st.key {
        Some(k) => Some(Hotkey { modifiers: st.modifiers, key: k }),
        None => None,
    }
}

/// Reads one lower-cased token into the scan.
pub fn scan_hotkey_token(st: HotkeyScan, t: &[char]) -> (r: HotkeyScan)
    ensures
        r == hotkey_step(st, t@),
{
    if is_word(t, "cmd") || is_word(t, "command") || is_word(t, "meta") || is_word(t, "super") {
        HotkeyScan { modifiers: Modifiers { meta: true, ..st.modifiers }, ..st }
    } else if is_word(t, "ctrl") || is_word(t, "control") {
        HotkeyScan { modifiers: Modifiers { control: true, ..st.modifiers }, ..st }
    } else if is_word(t, "shift") {
        HotkeyScan { modifiers: Modifiers { shift: true, ..st.modifiers }, ..st }
    } else if is_word(t, "alt") || is_word(t, "option") {
        HotkeyScan { modifiers: Modifiers { alt: true, ..st.modifiers }, ..st }
    } else {
        match classify_key_token(t) {
            TokenEffect::Key(k) => HotkeyScan { key: Some(k), ..st },
            TokenEffect::Clear => HotkeyScan { key: None, ..st },
            TokenEffect::Keep => st,
        }
    }
}

/// Parses a hotkey string such as "Cmd+Shift+V", "Ctrl+Alt+P", "Cmd+F6" or
/// "Ctrl+Shift+Space": the pieces between `+` signs are read in order, case
/// and surrounding white space aside; modifiers accumulate and the last key
/// named is the hotkey's key.
pub fn parse_hotkey(s: &str) -> (r: Option<Hotkey>)
    ensures
        r == spec_parse_hotkey(s@),
{
    let tokens = hotkey_tokens_of(s);
    let ghost ts = hotkey_tokens(s@);
    let mut st = HotkeyScan {
        modifiers: Modifiers { meta: false, control: false, shift: false, alt: false },
        key: None,
    };
    let mut i: usize = 0;
    while i < tokens.len()
        invariant
            ts == hotkey_tokens(s@),
            tokens@.len() == ts.len(),
            forall|k: int| 0 <= k < tokens@.len() ==> #[trigger] tokens@[k]@ == ts[k],
            i <= tokens@.len(),
            st == hotkey_scan(ts.take(i as int)),
        decreases tokens.len() - i,
    {
        proof {
            assert(ts.take(i + 1).drop_last() =~= ts.take(i as int));
            assert(ts.take(i + 1).last() == tokens@[i as int]@);
        }
        st = scan_hotkey_token(st, tokens[i].as_slice());
        i += 1;
    }
    assert(ts.take(tokens.len() as int) =~= ts);
    match st.key {
        Some(k) => Some(Hotkey { modifiers: st.modifiers, key: k }),
        None => None,
    }
}


/// The hotkeys that trigger pasting: the primary hotkey, then the
/// additional one when it is set and differs from the primary; a hotkey
/// string that names no key registers nothing.
pub open spec fn spec_hotkeys_to_register(primary: Seq<char>, additional: Seq<char>) -> Seq<Hotkey> {
    let base = match spec_parse_hotkey(primary) {
        Some(h) => seq![h],
        None => Seq::empty(),
    };
    match spec_parse_hotkey(additional) {
        Some(h) => if spec_parse_hotkey(primary) == Some(h) { base } else { base.push(h) },
        None => base,
    }
}

/// The hotkeys to register for the configured primary and additional
/// hotkey strings.
pub fn hotkeys_to_register(primary: &str, additional: &str) -> (r: Vec<Hotkey>)
    ensures
        r@ == spec_hotkeys_to_register(primary@, additional@),
{
    let mut r: Vec<Hotkey> = Vec::new();
    let p = parse_hotkey(primary);
    match p {
        Some(h) => r.push(h),
        None => {},
    }
    match parse_hotkey(additional) {
        Some(h) => {
            let same = match p {
                Some(q) => q == h,
                None => false,
            };
            if !same {
                r.push(h);
            }
        },
        None => {},
    }
    assert(r@ =~= spec_hotkeys_to_register(primary@, additional@));
    r
}

/// The hotkeys to register once the configuration may have changed:
/// `None` while its hotkey strings are still the registered ones, else the
/// hotkeys its new strings name, so that a change takes effect at once.
pub fn rebind_hotkeys(registered_primary: &str, registered_additional: &str, config: &Config) -> (r: Option<
    Vec<Hotkey>,
>)
    ensures
        r is None <==> (registered_primary@ == config.hotkey@ && registered_additional@ == config.paste_hotkey@),
        r matches Some(v) ==> v@ == spec_hotkeys_to_register(config.hotkey@, config.paste_hotkey@),
{
    let same_primary = chars_eq(chars_of(registered_primary).as_slice(), chars_of(config.hotkey.as_str()).as_slice());
    let same_additional = chars_eq(
        chars_of(registered_additional).as_slice(),
        chars_of(config.paste_hotkey.as_str()).as_slice(),
    );
    if same_primary && same_additional {
        None
    } else {
        Some(hotkeys_to_register(config.hotkey.as_str(), config.paste_hotkey.as_str()))
    }
}

/// A token made of one lower-case ASCII letter names the key of that
/// letter in upper case (its code less 0x20), whatever was read before,
/// and leaves the modifiers as they were.
pub proof fn lemma_letter_token(ts: Seq<Seq<char>>, c: char)
    requires
        'a' <= c <= 'z',
    ensures
        hotkey_scan(ts.push(seq![c])).modifiers == hotkey_scan(ts).modifiers,
        hotkey_scan(ts.push(seq![c])).key matches Some(HotkeyKey::Letter(u)) && u as u32 + 0x20 == c as u32,
{
    reveal_strlit("cmd");
    reveal_strlit("command");
    reveal_strlit("meta");
    reveal_strlit("super");
    reveal_strlit("ctrl");
    reveal_strlit("control");
    reveal_strlit("shift");
    reveal_strlit("alt");
    reveal_strlit("option");
    let t = seq![c];
    assert(ts.push(t).drop_last() =~= ts);
    assert(ts.push(t).last() == t);
    assert(t.len() == 1 && t[0] == c);
    assert(t != "cmd"@ && t != "command"@ && t != "meta"@ && t != "super"@);
    assert(t != "ctrl"@ && t != "control"@ && t != "shift"@ && t != "alt"@ && t != "option"@);
}

/// The modifier names: "option" is another name for "alt", "control" for
/// "ctrl", and "command", "meta" and "super" for "cmd"; each adds exactly
/// its own modifier and leaves the key read so far.
pub proof fn lemma_modifier_names(st: HotkeyScan)
    ensures
        hotkey_step(st, "option"@) == hotkey_step(st, "alt"@),
        hotkey_step(st, "alt"@) == (HotkeyScan { modifiers: Modifiers { alt: true, ..st.modifiers }, ..st }),
        hotkey_step(st, "control"@) == hotkey_step(st, "ctrl"@),
        hotkey_step(st, "ctrl"@) == (HotkeyScan { modifiers: Modifiers { control: true, ..st.modifiers }, ..st }),
        hotkey_step(st, "shift"@) == (HotkeyScan { modifiers: Modifiers { shift: true, ..st.modifiers }, ..st }),
        hotkey_step(st, "command"@) == hotkey_step(st, "cmd"@),
        hotkey_step(st, "meta"@) == hotkey_step(st, "cmd"@),
        hotkey_step(st, "super"@) == hotkey_step(st, "cmd"@),
        hotkey_step(st, "cmd"@) == (HotkeyScan { modifiers: Modifiers { meta: true, ..st.modifiers }, ..st }),
{
    reveal_strlit("cmd");
    reveal_strlit("command");
    reveal_strlit("meta");
    reveal_strlit("super");
    reveal_strlit("ctrl");
    reveal_strlit("control");
    reveal_strlit("shift");
    reveal_strlit("alt");
    reveal_strlit("option");
    assert("cmd"@.len() != "command"@.len());
    assert("cmd"@.len() != "meta"@.len());
    assert("cmd"@.len() != "super"@.len());
    assert("cmd"@.len() != "ctrl"@.len());
    assert("cmd"@.len() != "control"@.len());
    assert("cmd"@.len() != "shift"@.len());
    assert("cmd"@[0] != "alt"@[0]);
    assert("cmd"@.len() != "option"@.len());
    assert("command"@.len() != "meta"@.len());
    assert("command"@.len() != "super"@.len());
    assert("command"@.len() != "ctrl"@.len());
    assert("command"@[2] != "control"@[2]);
    assert("command"@.len() != "shift"@.len());
    assert("command"@.len() != "alt"@.len());
    assert("command"@.len() != "option"@.len());
    assert("meta"@.len() != "super"@.len());
    assert("meta"@[0] != "ctrl"@[0]);
    assert("meta"@.len() != "control"@.len());
    assert("meta"@.len() != "shift"@.len());
    assert("meta"@.len() != "alt"@.len());
    assert("meta"@.len() != "option"@.len());
    assert("super"@.len() != "ctrl"@.len());
    assert("super"@.len() != "control"@.len());
    assert("super"@[1] != "shift"@[1]);
    assert("super"@.len() != "alt"@.len());
    assert("super"@.len() != "option"@.len());
    assert("ctrl"@.len() != "control"@.len());
    assert("ctrl"@.len() != "shift"@.len());
    assert("ctrl"@.len() != "alt"@.len());
    assert("ctrl"@.len() != "option"@.len());
    assert("control"@.len() != "shift"@.len());
    assert("control"@.len() != "alt"@.len());
    assert("control"@.len() != "option"@.len());
    assert("shift"@.len() != "alt"@.len());
    assert("shift"@.len() != "option"@.len());
    assert("alt"@.len() != "option"@.len());
}

} // verus!
