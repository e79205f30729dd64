//! Windows: the decisions around the Win32 window and input APIs.
//!
//! The application enumerates windows, reads their titles and sends
//! keyboard input; this module decides which window a request means, which
//! windows are listed and which virtual-key events a hotkey becomes.

use vstd::prelude::*;
use vstd::string::*;

use crate::error::TypePasteError;
use crate::hotkey::{hotkey_tokens, hotkey_tokens_of};
use crate::platform::{no_title_message, no_window_for_title, WindowInfo};
use crate::text::{
    chars_of, contains, contains_chars, decimal, decimal_string, ends_with, ends_with_chars, is_word,
    lowercase, lowercase_chars, push_all, slice_chars, string_of,
};

verus! {

/// Virtual-key code of Shift.
pub const VK_SHIFT: u16 = 0x10;
/// Virtual-key code of Control.
pub const VK_CONTROL: u16 = 0x11;
/// Virtual-key code of Alt (the "menu" key).
pub const VK_MENU: u16 = 0x12;
/// Virtual-key code of the left Windows key.
pub const VK_LWIN: u16 = 0x5B;

/// Accessibility needs no permission on Windows.
pub fn check_accessibility() -> (r: Result<(), TypePasteError>)
    ensures
        r is Ok,
{
    Ok(())
}

/// The code of `c` with ASCII lower-case letters made upper-case.
pub open spec fn ascii_upper_code(c: char) -> u32 {
    if 0x61 <= c as u32 && c as u32 <= 0x7A { (c as u32 - 0x20) as u32 } else { c as u32 }
}

/// The virtual key of a named, non-character key: Space, Enter, Tab, Esc, Backspace, Delete, Home, End, PageUp, PageDown, the
/// arrows and F1 to F12, as lower-cased tokens.
pub open spec fn named_vk(t: Seq<char>) -> Option<u16> {
    if t == "space"@ { Some(0x20) }
    else if t == "enter"@ { Some(0x0D) }
    else if t == "tab"@ { Some(0x09) }
    else if t == "esc"@ { Some(0x1B) }
    else if t == "backspace"@ { Some(0x08) }
    else if t == "delete"@ { Some(0x2E) }
    else if t == "home"@ { Some(0x24) }
    else if t == "end"@ { Some(0x23) }
    else if t == "pageup"@ { Some(0x21) }
    else if t == "pagedown"@ { Some(0x22) }
    else if t == "up"@ { Some(0x26) }
    else if t == "down"@ { Some(0x28) }
    else if t == "left"@ { Some(0x25) }
    else if t == "right"@ { Some(0x27) }
    else if t == "f1"@ { Some(0x70) }
    else if t == "f2"@ { Some(0x71) }
    else if t == "f3"@ { Some(0x72) }
    else if t == "f4"@ { Some(0x73) }
    else if t == "f5"@ { Some(0x74) }
    else if t == "f6"@ { Some(0x75) }
    else if t == "f7"@ { Some(0x76) }
    else if t == "f8"@ { Some(0x77) }
    else if t == "f9"@ { Some(0x78) }
    else if t == "f10"@ { Some(0x79) }
    else if t == "f11"@ { Some(0x7A) }
    else if t == "f12"@ { Some(0x7B) }
    else { None }
}

/// The virtual key of the named key `t`, if it names one.
fn token_named_vk(t: &[char]) -> (r: Option<u16>)
    ensures
        r == named_vk(t@),
{
    if is_word(t, "space") { Some(0x20) }
    else if is_word(t, "enter") { Some(0x0D) }
    else if is_word(t, "tab") { Some(0x09) }
    else if is_word(t, "esc") { Some(0x1B) }
    else if is_word(t, "backspace") { Some(0x08) }
    else if is_word(t, "delete") { Some(0x2E) }
    else if is_word(t, "home") { Some(0x24) }
    else if is_word(t, "end") { Some(0x23) }
    else if is_word(t, "pageup") { Some(0x21) }
    else if is_word(t, "pagedown") { Some(0x22) }
    else if is_word(t, "up") { Some(0x26) }
    else if is_word(t, "down") { Some(0x28) }
    else if is_word(t, "left") { Some(0x25) }
    else if is_word(t, "right") { Some(0x27) }
    else if is_word(t, "f1") { Some(0x70) }
    else if is_word(t, "f2") { Some(0x71) }
    else if is_word(t, "f3") { Some(0x72) }
    else if is_word(t, "f4") { Some(0x73) }
    else if is_word(t, "f5") { Some(0x74) }
    else if is_word(t, "f6") { Some(0x75) }
    else if is_word(t, "f7") { Some(0x76) }
    else if is_word(t, "f8") { Some(0x77) }
    else if is_word(t, "f9") { Some(0x78) }
    else if is_word(t, "f10") { Some(0x79) }
    else if is_word(t, "f11") { Some(0x7A) }
    else if is_word(t, "f12") { Some(0x7B) }
    else { None }
}

/// The virtual key a lower-cased hotkey token names, if any: a modifier by
/// name, a named key such as "space", or a single ASCII character by its
/// upper-case code.
pub open spec fn vk_of_token(t: Seq<char>) -> Option<u16> {
    if t == "shift"@ {
        Some(VK_SHIFT)
    } else if t == "ctrl"@ || t == "control"@ {
        Some(VK_CONTROL)
    } else if t == "alt"@ || t == "option"@ {
        Some(VK_MENU)
    } else if t == "win"@ || t == "meta"@ || t == "super"@ || t == "cmd"@ || t == "command"@ {
        Some(VK_LWIN)
    } else if named_vk(t) is Some {
        named_vk(t)
    } else if t.len() == 1 && (t[0] as u32) < 0x80 {
        Some(ascii_upper_code(t[0]) as u16)
    } else {
        None
    }
}

/// The virtual keys of hotkey tokens: Shift is 0x10; Ctrl and Control are
/// 0x11; Alt and Option are 0x12; Win, Meta, Super, Cmd and Command are the
/// left Windows key 0x5B; Space is 0x20; a lower-case ASCII letter is its
/// upper-case code (its own code less 0x20), and a digit its own code.
pub proof fn lemma_token_virtual_keys(c: char)
    ensures
        vk_of_token("shift"@) == Some(0x10u16),
        vk_of_token("ctrl"@) == Some(0x11u16),
        vk_of_token("control"@) == Some(0x11u16),
        vk_of_token("alt"@) == Some(0x12u16),
        vk_of_token("option"@) == Some(0x12u16),
        vk_of_token("win"@) == Some(0x5Bu16),
        vk_of_token("meta"@) == Some(0x5Bu16),
        vk_of_token("super"@) == Some(0x5Bu16),
        vk_of_token("cmd"@) == Some(0x5Bu16),
        vk_of_token("command"@) == Some(0x5Bu16),
        vk_of_token("space"@) == Some(0x20u16),
        'a' <= c <= 'z' ==> vk_of_token(seq![c]) == Some((c as u32 - 0x20) as u16),
        '0' <= c <= '9' ==> vk_of_token(seq![c]) == Some(c as u32 as u16),
{
    reveal_strlit("shift");
    reveal_strlit("ctrl");
    reveal_strlit("control");
    reveal_strlit("alt");
    reveal_strlit("option");
    reveal_strlit("cmd");
    reveal_strlit("command");
    reveal_strlit("meta");
    reveal_strlit("super");
    reveal_strlit("win");
    reveal_strlit("space");
    assert("shift"@.len() != "ctrl"@.len());
    assert("shift"@.len() != "control"@.len());
    assert("shift"@.len() != "alt"@.len());
    assert("shift"@.len() != "option"@.len());
    assert("shift"@.len() != "cmd"@.len());
    assert("shift"@.len() != "command"@.len());
    assert("shift"@.len() != "meta"@.len());
    assert("shift"@[1] != "super"@[1]);
    assert("shift"@.len() != "win"@.len());
    assert("shift"@[1] != "space"@[1]);
    assert("ctrl"@.len() != "control"@.len());
    assert("ctrl"@.len() != "alt"@.len());
    assert("ctrl"@.len() != "option"@.len());
    assert("ctrl"@.len() != "cmd"@.len());
    assert("ctrl"@.len() != "command"@.len());
    assert("ctrl"@[0] != "meta"@[0]);
    assert("ctrl"@.len() != "super"@.len());
    assert("ctrl"@.len() != "win"@.len());
    assert("ctrl"@.len() != "space"@.len());
    assert("control"@.len() != "alt"@.len());
    assert("control"@.len() != "option"@.len());
    assert("control"@.len() != "cmd"@.len());
    assert("control"@[2] != "command"@[2]);
    assert("control"@.len() != "meta"@.len());
    assert("control"@.len() != "super"@.len());
    assert("control"@.len() != "win"@.len());
    assert("control"@.len() != "space"@.len());
    assert("alt"@.len() != "option"@.len());
    assert("alt"@[0] != "cmd"@[0]);
    assert("alt"@.len() != "command"@.len());
    assert("alt"@.len() != "meta"@.len());
    assert("alt"@.len() != "super"@.len());
    assert("alt"@[0] != "win"@[0]);
    assert("alt"@.len() != "space"@.len());
    assert("option"@.len() != "cmd"@.len());
    assert("option"@.len() != "command"@.len());
    assert("option"@.len() != "meta"@.len());
    assert("option"@.len() != "super"@.len());
    assert("option"@.len() != "win"@.len());
    assert("option"@.len() != "space"@.len());
    assert("cmd"@.len() != "command"@.len());
    assert("cmd"@.len() != "meta"@.len());
    assert("cmd"@.len() != "super"@.len());
    assert("cmd"@[0] != "win"@[0]);
    assert("cmd"@.len() != "space"@.len());
    assert("command"@.len() != "meta"@.len());
    assert("command"@.len() != "super"@.len());
    assert("command"@.len() != "win"@.len());
    assert("command"@.len() != "space"@.len());
    assert("meta"@.len() != "super"@.len());
    assert("meta"@.len() != "win"@.len());
    assert("meta"@.len() != "space"@.len());
    assert("super"@.len() != "win"@.len());
    assert("super"@[1] != "space"@[1]);
    assert("win"@.len() != "space"@.len());
    reveal_strlit("enter");
    reveal_strlit("tab");
    reveal_strlit("esc");
    reveal_strlit("backspace");
    reveal_strlit("delete");
    reveal_strlit("home");
    reveal_strlit("end");
    reveal_strlit("pageup");
    reveal_strlit("pagedown");
    reveal_strlit("up");
    reveal_strlit("down");
    reveal_strlit("left");
    reveal_strlit("right");
    reveal_strlit("f1");
    reveal_strlit("f2");
    reveal_strlit("f3");
    reveal_strlit("f4");
    reveal_strlit("f5");
    reveal_strlit("f6");
    reveal_strlit("f7");
    reveal_strlit("f8");
    reveal_strlit("f9");
    reveal_strlit("f10");
    reveal_strlit("f11");
    reveal_strlit("f12");
    assert("space"@.len() >= 2);
    assert("enter"@.len() >= 2);
    assert("tab"@.len() >= 2);
    assert("esc"@.len() >= 2);
    assert("backspace"@.len() >= 2);
    assert("delete"@.len() >= 2);
    assert("home"@.len() >= 2);
    assert("end"@.len() >= 2);
    assert("pageup"@.len() >= 2);
    assert("pagedown"@.len() >= 2);
    assert("up"@.len() >= 2);
    assert("down"@.len() >= 2);
    assert("left"@.len() >= 2);
    assert("right"@.len() >= 2);
    assert("f1"@.len() >= 2);
    assert("f2"@.len() >= 2);
    assert("f3"@.len() >= 2);
    assert("f4"@.len() >= 2);
    assert("f5"@.len() >= 2);
    assert("f6"@.len() >= 2);
    assert("f7"@.len() >= 2);
    assert("f8"@.len() >= 2);
    assert("f9"@.len() >= 2);
    assert("f10"@.len() >= 2);
    assert("f11"@.len() >= 2);
    assert("f12"@.len() >= 2);
    let t = seq![c];
    assert(t.len() == 1 && t[0] == c);
    assert(named_vk(t) is None);
}

/// The virtual keys of the tokens that name one, in order.
pub open spec fn vk_codes(tokens: Seq<Seq<char>>) -> Seq<u16>
    decreases tokens.len(),
{
    if tokens.len() == 0 {
        Seq::empty()
    } else {
        let r = vk_codes(tokens.drop_last());
        match vk_of_token(tokens.last()) {
            Some(v) => r.push(v),
            None => r,
        }
    }
}

/// The virtual key named by the lower-cased token `t`.
pub fn token_vk(t: &[char]) -> (r: Option<u16>)
    ensures
        r == vk_of_token(t@),
{
    if is_word(t, "shift") {
        Some(VK_SHIFT)
    } else if is_word(t, "ctrl") || is_word(t, "control") {
        Some(VK_CONTROL)
    } else if is_word(t, "alt") || is_word(t, "option") {
        Some(VK_MENU)
    } else if is_word(t, "win") || is_word(t, "meta") || is_word(t, "super") || is_word(t, "cmd")
        || is_word(t, "command") {
        Some(VK_LWIN)
    } else if let Some(v) = token_named_vk(t) {
        Some(v)
    } else if t.len() == 1 && (t[0] as u32) < 0x80 {
        let u = t[0] as u32;
        if 0x61 <= u && u <= 0x7A {
            Some((u - 0x20) as u16)
        } else {
            Some(u as u16)
        }
    } else {
        None
    }
}

/// The virtual keys named by the lower-cased tokens, in order.
pub fn tokens_vk(tokens: &Vec<Vec<char>>) -> (r: Vec<u16>)
    ensures
        r@ == vk_codes(tokens@.map_values(|t: Vec<char>| t@)),
{
    let ghost ts = tokens@.map_values(|t: Vec<char>| t@);
    let mut r: Vec<u16> = Vec::new();
    let mut i: usize = 0;
    while i < tokens.len()
        invariant
            i <= tokens@.len(),
            ts == tokens@.map_values(|t: Vec<char>| t@),
            r@ == vk_codes(ts.take(i as int)),
        decreases tokens.len() - i,
    {
        proof {
            assert(ts.take(i + 1).drop_last() =~= ts.take(i as int));
            assert(ts.take(i + 1).last() == tokens@[i as int]@);
        }
        match token_vk(tokens[i].as_slice()) {
            Some(v) => r.push(v),
            None => {},
        }
        i += 1;
    }
    assert(ts.take(tokens.len() as int) =~= ts);
    r
}

/// The virtual keys of a hotkey string such as "Alt+Shift", in the order
/// written; tokens that name no key are left out.
pub fn parse_hotkey_to_vk(s: &str) -> (r: Vec<u16>)
    ensures
        r@ == vk_codes(hotkey_tokens(s@)),
{
    let tokens = hotkey_tokens_of(s);
    proof {
        assert(tokens@.map_values(|t: Vec<char>| t@) =~= hotkey_tokens(s@));
    }
    tokens_vk(&tokens)
}

/// One keyboard event for `SendInput`: a key going down or coming up.
#[derive(Debug, Clone, Copy, PartialEq, Eq, Structural)]
pub struct VkEvent {
    pub vk: u16,
    pub key_up: bool,
}

/// Every key pressed in order, then released in reverse order.
pub open spec fn chord_events(keys: Seq<u16>) -> Seq<VkEvent> {
    Seq::new(keys.len(), |i: int| VkEvent { vk: keys[i], key_up: false })
        + Seq::new(keys.len(), |i: int| VkEvent { vk: keys[keys.len() - 1 - i], key_up: true })
}

/// The message for a layout switch hotkey that names no key.
pub open spec fn unparsable_switch_message(hotkey: Seq<char>) -> Seq<char> {
    "Cannot parse layout switch hotkey: "@ + hotkey
}

/// The keyboard events that press the layout switch hotkey once: all its
/// keys down in order, then up in reverse order. A hotkey naming no key is
/// refused.
pub fn layout_switch_events(hotkey: &str) -> (r: Result<Vec<VkEvent>, TypePasteError>)
    ensures
        vk_codes(hotkey_tokens(hotkey@)).len() == 0 <==> r is Err,
        r matches Ok(ev) ==> ev@ == chord_events(vk_codes(hotkey_tokens(hotkey@))),
        r matches Err(e) ==> e matches TypePasteError::Platform(m) && m@ == unparsable_switch_message(hotkey@),
{
    let keys = parse_hotkey_to_vk(hotkey);
    if keys.len() == 0 {
        let mut m = String::from_str("Cannot parse layout switch hotkey: ");
        m.append(hotkey);
        return Err(TypePasteError::Platform(m));
    }
    let n = keys.len();
    let mut ev: Vec<VkEvent> = Vec::new();
    let mut i: usize = 0;
    while i < n
        invariant
            n == keys@.len(),
            i <= n,
            ev@ =~= Seq::new(i as nat, |j: int| VkEvent { vk: keys@[j], key_up: false }),
        decreases n - i,
    {
        ev.push(VkEvent { vk: keys[i], key_up: false });
        i += 1;
    }
    let ghost downs = ev@;
    let mut k: usize = 0;
    while k < n
        invariant
            n == keys@.len(),
            k <= n,
            downs =~= Seq::new(n as nat, |j: int| VkEvent { vk: keys@[j], key_up: false }),
            ev@ =~= downs + Seq::new(k as nat, |j: int| VkEvent { vk: keys@[n - 1 - j], key_up: true }),
        decreases n - k,
    {
        ev.push(VkEvent { vk: keys[n - 1 - k], key_up: true });
        k += 1;
    }
    Ok(ev)
}

// ───────────────────────────── windows ─────────────────────────────

/// What the application read of one top-level window, in enumeration order.
#[derive(Debug, Clone)]
pub struct WindowSnapshot {
    pub visible: bool,
    pub title: String,
    pub pid: u32,
    /// The executable's base name, when the process could be queried.
    pub module_name: Option<String>,
}

/// Whether a window takes part in searches and listings: it is visible and
/// has a title.
pub open spec fn is_candidate(w: WindowSnapshot) -> bool {
    w.visible && w.title@.len() > 0
}

/// Whether `w` is a candidate whose lower-cased title holds `target`.
pub open spec fn title_matches(w: WindowSnapshot, target: Seq<char>) -> bool {
    is_candidate(w) && contains(lowercase(w.title@), target)
}

/// The message when no window belongs to process `pid`.
pub open spec fn no_pid_message(pid: u32) -> Seq<char> {
    "No window found with PID "@ + decimal(pid as nat)
}

/// The index of the first window, in enumeration order, that is visible,
/// has a title and whose title contains `title` ignoring case.
pub fn find_window_by_title(windows: &Vec<WindowSnapshot>, title: &str) -> (r: Option<usize>)
    ensures
        r matches Some(i) ==> i < windows@.len() && title_matches(windows@[i as int], lowercase(title@))
            && forall|j: int| 0 <= j < i ==> !title_matches(#[trigger] windows@[j], lowercase(title@)),
        r is None <==> forall|i: int| 0 <= i < windows@.len() ==> !title_matches(#[trigger] windows@[i], lowercase(title@)),
{
    let target = lowercase_chars(chars_of(title).as_slice());
    let mut i: usize = 0;
    while i < windows.len()
        invariant
            target@ == lowercase(title@),
            i <= windows@.len(),
            forall|j: int| 0 <= j < i ==> !title_matches(#[trigger] windows@[j], lowercase(title@)),
        decreases windows.len() - i,
    {
        let w = &windows[i];
        if w.visible && !w.title.as_str().is_empty() {
            let lowered = lowercase_chars(chars_of(w.title.as_str()).as_slice());
            if contains_chars(lowered.as_slice(), target.as_slice()) {
                return Some(i);
            }
        }
        i += 1;
    }
    None
}

/// The first window, in enumeration order, that is visible, has a title and
/// whose title contains `title` ignoring case; its process id and title.
pub fn focus_window_by_title(windows: &Vec<WindowSnapshot>, title: &str) -> (r: Result<(u32, String), TypePasteError>)
    ensures
        r matches Ok((pid, t)) ==> exists|i: int|
            0 <= i < windows@.len() && title_matches(windows@[i], lowercase(title@))
            && (forall|j: int| 0 <= j < i ==> !title_matches(#[trigger] windows@[j], lowercase(title@)))
            && pid == windows@[i].pid && t@ == windows@[i].title@,
        r is Err <==> forall|i: int| 0 <= i < windows@.len() ==> !title_matches(#[trigger] windows@[i], lowercase(title@)),
        r matches Err(e) ==> e matches TypePasteError::Platform(m) && m@ == no_title_message(title@),
{
    match find_window_by_title(windows, title) {
        Some(i) => {
            let w = &windows[i];
            assert(title_matches(windows@[i as int], lowercase(title@)));
            Ok((w.pid, w.title.clone()))
        },
        None => Err(no_window_for_title(title)),
    }
}

/// The index of the first window, in enumeration order, that is visible,
/// has a title and belongs to process `pid`.
pub fn find_window_by_pid(windows: &Vec<WindowSnapshot>, pid: u32) -> (r: Option<usize>)
    ensures
        r matches Some(i) ==> i < windows@.len() && is_candidate(windows@[i as int]) && windows@[i as int].pid == pid
            && forall|j: int| 0 <= j < i ==> !(is_candidate(#[trigger] windows@[j]) && windows@[j].pid == pid),
        r is None <==> forall|i: int| 0 <= i < windows@.len() ==> !(is_candidate(#[trigger] windows@[i]) && windows@[i].pid == pid),
{
    let mut i: usize = 0;
    while i < windows.len()
        invariant
            i <= windows@.len(),
            forall|j: int| 0 <= j < i ==> !(is_candidate(#[trigger] windows@[j]) && windows@[j].pid == pid),
        decreases windows.len() - i,
    {
        let w = &windows[i];
        if w.visible && !w.title.as_str().is_empty() && w.pid == pid {
            return Some(i);
        }
        i += 1;
    }
    None
}

/// The title of the first window, in enumeration order, that is visible,
/// has a title and belongs to process `pid`.
pub fn focus_window_by_pid(windows: &Vec<WindowSnapshot>, pid: u32) -> (r: Result<String, TypePasteError>)
    ensures
        r matches Ok(t) ==> exists|i: int|
            0 <= i < windows@.len() && is_candidate(windows@[i]) && windows@[i].pid == pid
            && (forall|j: int| 0 <= j < i ==> !(is_candidate(#[trigger] windows@[j]) && windows@[j].pid == pid))
            && t@ == windows@[i].title@,
        r is Err <==> forall|i: int| 0 <= i < windows@.len() ==> !(is_candidate(#[trigger] windows@[i]) && windows@[i].pid == pid),
        r matches Err(e) ==> e matches TypePasteError::Platform(m) && m@ == no_pid_message(pid),
{
    match find_window_by_pid(windows, pid) {
        Some(i) => {
            assert(is_candidate(windows@[i as int]));
            Ok(windows[i].title.clone())
        },
        None => {
            let mut m = String::from_str("No window found with PID ");
            let digits = decimal_string(pid as u64);
            m.append(digits.as_str());
            Err(TypePasteError::Platform(m))
        },
    }
}

/// `name` with every trailing ".exe" removed, as `trim_end_matches(".exe")`
/// gives it.
pub open spec fn strip_exe(name: Seq<char>) -> Seq<char>
    decreases name.len(),
{
    if name.len() >= 4 && ends_with(name, ".exe"@) {
        strip_exe(name.subrange(0, name.len() - 4))
    } else {
        name
    }
}

/// The name shown for a process: its executable's base name without the
/// ".exe" suffix, or "PID_<pid>" when the process could not be queried.
pub open spec fn spec_process_name(module_name: Option<Seq<char>>, pid: u32) -> Seq<char> {
    match module_name {
        Some(n) => strip_exe(n),
        None => "PID_"@ + decimal(pid as nat),
    }
}

/// The name shown for process `pid` given its executable's base name.
pub fn process_name(module_name: &Option<String>, pid: u32) -> (r: String)
    ensures
        r@ == spec_process_name(
            match module_name { Some(n) => Some(n@), None => None },
            pid,
        ),
{
    match module_name {
        Some(name) => {
            let mut v = chars_of(name.as_str());
            let suffix = chars_of(".exe");
            while v.len() >= 4 && ends_with_chars(v.as_slice(), suffix.as_slice())
                invariant
                    suffix@ == ".exe"@,
                    strip_exe(v@) == strip_exe(name@),
                decreases v.len(),
            {
                proof {
                    reveal_strlit(".exe");
                }
                v = slice_chars(v.as_slice(), 0, v.len() - 4);
            }
            string_of(v.as_slice())
        },
        None => {
            let mut s = String::from_str("PID_");
            let digits = decimal_string(pid as u64);
            s.append(digits.as_str());
            s
        },
    }
}

/// A name with its ".exe" suffixes removed no longer ends in ".exe".
pub proof fn lemma_strip_exe_done(name: Seq<char>)
    ensures
        !ends_with(strip_exe(name), ".exe"@),
    decreases name.len(),
{
    reveal_strlit(".exe");
    if name.len() >= 4 && ends_with(name, ".exe"@) {
        lemma_strip_exe_done(name.subrange(0, name.len() - 4));
    }
}

/// The visible windows that have a title, in enumeration order, each with
/// the name of its process.
pub open spec fn listed(windows: Seq<WindowSnapshot>) -> Seq<WindowSnapshot>
    decreases windows.len(),
{
    if windows.len() == 0 {
        Seq::empty()
    } else {
        let r = listed(windows.drop_last());
        if is_candidate(windows.last()) { r.push(windows.last()) } else { r }
    }
}

/// Whether `info` describes the window `w`.
pub open spec fn describes(info: WindowInfo, w: WindowSnapshot) -> bool {
    &&& info.title@ == w.title@
    &&& info.pid == w.pid
    &&& info.app_name@ == spec_process_name(
        match w.module_name { Some(n) => Some(n@), None => None },
        w.pid,
    )
}

/// The visible, titled windows with their process names, in enumeration
/// order.
pub fn list_windows(windows: &Vec<WindowSnapshot>) -> (r: Vec<WindowInfo>)
    ensures
        r@.len() == listed(windows@).len(),
        forall|k: int| 0 <= k < r@.len() ==> describes(#[trigger] r@[k], listed(windows@)[k]),
{
    let mut r: Vec<WindowInfo> = Vec::new();
    let mut i: usize = 0;
    while i < windows.len()
        invariant
            i <= windows@.len(),
            r@.len() == listed(windows@.take(i as int)).len(),
            forall|k: int| 0 <= k < r@.len() ==> describes(#[trigger] r@[k], listed(windows@.take(i as int))[k]),
        decreases windows.len() - i,
    {
        let w = &windows[i];
        proof {
            assert(windows@.take(i + 1).drop_last() =~= windows@.take(i as int));
            assert(windows@.take(i + 1).last() == windows@[i as int]);
        }
        if w.visible && !w.title.as_str().is_empty() {
            let name = process_name(&w.module_name, w.pid);
            r.push(WindowInfo { title: w.title.clone(), pid: w.pid, app_name: name });
        }
        i += 1;
    }
    assert(windows@.take(windows.len() as int) =~= windows@);
    r
}

/// The message when `SendInput` inserted no event.
pub open spec fn send_input_failed_message() -> Seq<char> {
    "SendInput failed"@
}

/// The outcome of one `SendInput` call, given how many events it inserted:
/// success when it inserted any, an error when it inserted none.
pub fn send_input_result(inserted: u32) -> (r: Result<(), TypePasteError>)
    ensures
        r is Ok <==> inserted != 0,
        r matches Err(e) ==> e matches TypePasteError::Platform(m) && m@ == send_input_failed_message(),
{
    if inserted == 0 {
        Err(TypePasteError::Platform(String::from_str("SendInput failed")))
    } else {
        Ok(())
    }
}

} // verus!
