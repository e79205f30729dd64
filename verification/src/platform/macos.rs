//! macOS: the decisions around the accessibility check, CGEvent key events
//! and the AppleScript that finds and focuses windows.
//!
//! The application asks the system whether it is trusted, posts the key
//! events and runs `osascript`; this module turns those answers into
//! results and builds the scripts and hotkey chords.

use vstd::prelude::*;
use vstd::string::*;

use crate::error::TypePasteError;
use crate::hotkey::{hotkey_tokens, hotkey_tokens_of};
use crate::platform::{no_title_message, no_window_for_title, WindowInfo};
use crate::text::{
    chars_of, decimal, decimal_string, is_word, lines, lines_of, parse_unsigned, parse_unsigned_chars,
    pieces, split_chars, string_of, trim_chars, trimmed,
};

verus! {

/// Key code of Return.
pub const KEY_RETURN: u16 = 0x24;
/// Key code of Tab.
pub const KEY_TAB: u16 = 0x30;
/// Key code of Shift.
pub const KEY_SHIFT: u16 = 0x38;
/// Key code of Control.
pub const KEY_CONTROL: u16 = 0x3B;
/// Key code of Option.
pub const KEY_ALT: u16 = 0x3A;
/// Key code of Command.
pub const KEY_CMD: u16 = 0x37;

/// `CGEventFlags` bit of Shift.
pub const FLAG_SHIFT: u64 = 0x0002_0000;
/// `CGEventFlags` bit of Control.
pub const FLAG_CONTROL: u64 = 0x0004_0000;
/// `CGEventFlags` bit of Option.
pub const FLAG_ALTERNATE: u64 = 0x0008_0000;
/// `CGEventFlags` bit of Command.
pub const FLAG_COMMAND: u64 = 0x0010_0000;

/// The result of the accessibility check, given whether the system trusts
/// the process.
pub fn check_accessibility(trusted: bool) -> (r: Result<(), TypePasteError>)
    ensures
        trusted <==> r is Ok,
        r matches Err(e) ==> e is AccessibilityDenied,
{
    if !trusted {
        return Err(TypePasteError::AccessibilityDenied);
    }
    Ok(())
}

// ───────────────────────────── hotkey chords ─────────────────────────────

/// A key press with modifier flags, as posted for the layout switch hotkey.
#[derive(Debug, Clone, Copy, PartialEq, Eq, Structural)]
pub struct CgChord {
    /// The `CGEventFlags` bits.
    pub flags: u64,
    pub key_code: u16,
}

/// What has been read of a hotkey string so far.
#[derive(Debug, Clone, Copy, PartialEq, Eq, Structural)]
pub struct CgScan {
    pub shift: bool,
    pub control: bool,
    pub alternate: bool,
    pub command: bool,
    pub last_key: Option<u16>,
    pub last_modifier: Option<u16>,
}

/// The key code of a non-modifier token: "space" or a letter.
pub open spec fn cg_key_of_token(t: Seq<char>) -> Option<u16> {
    if t == "space"@ { Some(0x31) }
    else if t == "a"@ { Some(0x00) } else if t == "b"@ { Some(0x0B) } else if t == "c"@ { Some(0x08) }
    else if t == "d"@ { Some(0x02) } else if t == "e"@ { Some(0x0E) } else if t == "f"@ { Some(0x03) }
    else if t == "g"@ { Some(0x05) } else if t == "h"@ { Some(0x04) } else if t == "i"@ { Some(0x22) }
    else if t == "j"@ { Some(0x26) } else if t == "k"@ { Some(0x28) } else if t == "l"@ { Some(0x25) }
    else if t == "m"@ { Some(0x2E) } else if t == "n"@ { Some(0x2D) } else if t == "o"@ { Some(0x1F) }
    else if t == "p"@ { Some(0x23) } else if t == "q"@ { Some(0x0C) } else if t == "r"@ { Some(0x0F) }
    else if t == "s"@ { Some(0x01) } else if t == "t"@ { Some(0x11) } else if t == "u"@ { Some(0x20) }
    else if t == "v"@ { Some(0x09) } else if t == "w"@ { Some(0x0D) } else if t == "x"@ { Some(0x07) }
    else if t == "y"@ { Some(0x10) } else if t == "z"@ { Some(0x06) }
    else { None }
}

/// Reading one lower-cased token: a modifier sets its flag and becomes the
/// last modifier; any other token replaces the last key (with nothing when
/// it names no key).
pub open spec fn cg_step(st: CgScan, t: Seq<char>) -> CgScan {
    if t == "shift"@ {
        CgScan { shift: true, last_modifier: Some(KEY_SHIFT), ..st }
    } else if t == "ctrl"@ || t == "control"@ {
        CgScan { control: true, last_modifier: Some(KEY_CONTROL), ..st }
    } else if t == "alt"@ || t == "option"@ {
        CgScan { alternate: true, last_modifier: Some(KEY_ALT), ..st }
    } else if t == "cmd"@ || t == "command"@ || t == "meta"@ || t == "super"@ || t == "win"@ {
        CgScan { command: true, last_modifier: Some(KEY_CMD), ..st }
    } else {
        CgScan { last_key: cg_key_of_token(t), ..st }
    }
}

/// The modifier names of a chord: "option" is another name for "alt",
/// "control" for "ctrl", and "command", "meta", "super" and "win" for "cmd".
/// Each sets exactly its own flag (Shift, Control, Alternate, Command) and
/// makes its own key (0x38, 0x3B, 0x3A, 0x37) the last modifier; the key
/// read so far and the other flags stay.
pub proof fn lemma_chord_modifier_names(st: CgScan)
    ensures
        cg_step(st, "shift"@) == (CgScan { shift: true, last_modifier: Some(0x38u16), ..st }),
        cg_step(st, "ctrl"@) == (CgScan { control: true, last_modifier: Some(0x3Bu16), ..st }),
        cg_step(st, "control"@) == cg_step(st, "ctrl"@),
        cg_step(st, "alt"@) == (CgScan { alternate: true, last_modifier: Some(0x3Au16), ..st }),
        cg_step(st, "option"@) == cg_step(st, "alt"@),
        cg_step(st, "cmd"@) == (CgScan { command: true, last_modifier: Some(0x37u16), ..st }),
        cg_step(st, "command"@) == cg_step(st, "cmd"@),
        cg_step(st, "meta"@) == cg_step(st, "cmd"@),
        cg_step(st, "super"@) == cg_step(st, "cmd"@),
        cg_step(st, "win"@) == cg_step(st, "cmd"@),
{
    reveal_strlit("shift");
    reveal_strlit("ctrl");
    reveal_strlit("control");
    reveal_strlit("alt");
    reveal_strlit("option");
    reveal_strlit("cmd");
    reveal_strlit("command");
    reveal_strlit("meta");
    reveal_strlit("super");
    reveal_strlit("win");
    assert("shift"@.len() != "ctrl"@.len());
    assert("shift"@.len() != "control"@.len());
    assert("shift"@.len() != "alt"@.len());
    assert("shift"@.len() != "option"@.len());
    assert("shift"@.len() != "cmd"@.len());
    assert("shift"@.len() != "command"@.len());
    assert("shift"@.len() != "meta"@.len());
    assert("shift"@[1] != "super"@[1]);
    assert("shift"@.len() != "win"@.len());
    assert("ctrl"@.len() != "control"@.len());
    assert("ctrl"@.len() != "alt"@.len());
    assert("ctrl"@.len() != "option"@.len());
    assert("ctrl"@.len() != "cmd"@.len());
    assert("ctrl"@.len() != "command"@.len());
    assert("ctrl"@[0] != "meta"@[0]);
    assert("ctrl"@.len() != "super"@.len());
    assert("ctrl"@.len() != "win"@.len());
    assert("control"@.len() != "alt"@.len());
    assert("control"@.len() != "option"@.len());
    assert("control"@.len() != "cmd"@.len());
    assert("control"@[2] != "command"@[2]);
    assert("control"@.len() != "meta"@.len());
    assert("control"@.len() != "super"@.len());
    assert("control"@.len() != "win"@.len());
    assert("alt"@.len() != "option"@.len());
    assert("alt"@[0] != "cmd"@[0]);
    assert("alt"@.len() != "command"@.len());
    assert("alt"@.len() != "meta"@.len());
    assert("alt"@.len() != "super"@.len());
    assert("alt"@[0] != "win"@[0]);
    assert("option"@.len() != "cmd"@.len());
    assert("option"@.len() != "command"@.len());
    assert("option"@.len() != "meta"@.len());
    assert("option"@.len() != "super"@.len());
    assert("option"@.len() != "win"@.len());
    assert("cmd"@.len() != "command"@.len());
    assert("cmd"@.len() != "meta"@.len());
    assert("cmd"@.len() != "super"@.len());
    assert("cmd"@[0] != "win"@[0]);
    assert("command"@.len() != "meta"@.len());
    assert("command"@.len() != "super"@.len());
    assert("command"@.len() != "win"@.len());
    assert("meta"@.len() != "super"@.len());
    assert("meta"@.len() != "win"@.len());
    assert("super"@.len() != "win"@.len());
}

/// The scan before any token.
pub open spec fn cg_start() -> CgScan {
    CgScan { shift: false, control: false, alternate: false, command: false, last_key: None, last_modifier: None }
}

/// The scan after all of `tokens`.
pub open spec fn cg_scan(tokens: Seq<Seq<char>>) -> CgScan
    decreases tokens.len(),
{
    if tokens.len() == 0 {
        cg_start()
    } else {
        cg_step(cg_scan(tokens.drop_last()), tokens.last())
    }
}

/// The flag bits of a scan.
pub open spec fn cg_flags(st: CgScan) -> u64 {
    ((if st.shift { FLAG_SHIFT } else { 0 }) + (if st.control { FLAG_CONTROL } else { 0 })
        + (if st.alternate { FLAG_ALTERNATE } else { 0 }) + (if st.command { FLAG_COMMAND } else { 0 })) as u64
}

/// The chord a finished scan describes: the last key named, or else the last
/// modifier named, pressed with every modifier flag.
pub open spec fn cg_chord(st: CgScan) -> Option<CgChord> {
    match st.last_key {
        Some(k) => Some(CgChord { flags: cg_flags(st), key_code: k }),
        None => match st.last_modifier {
            Some(m) => Some(CgChord { flags: cg_flags(st), key_code: m }),
            None => None,
        },
    }
}

/// The key code of the non-modifier token `t`.
pub fn token_key_code(t: &[char]) -> (r: Option<u16>)
    ensures
        r == cg_key_of_token(t@),
{
    if is_word(t, "space") { Some(0x31) }
    else if is_word(t, "a") { Some(0x00) } else if is_word(t, "b") { Some(0x0B) } else if is_word(t, "c") { Some(0x08) }
    else if is_word(t, "d") { Some(0x02) } else if is_word(t, "e") { Some(0x0E) } else if is_word(t, "f") { Some(0x03) }
    else if is_word(t, "g") { Some(0x05) } else if is_word(t, "h") { Some(0x04) } else if is_word(t, "i") { Some(0x22) }
    else if is_word(t, "j") { Some(0x26) } else if is_word(t, "k") { Some(0x28) } else if is_word(t, "l") { Some(0x25) }
    else if is_word(t, "m") { Some(0x2E) } else if is_word(t, "n") { Some(0x2D) } else if is_word(t, "o") { Some(0x1F) }
    else if is_word(t, "p") { Some(0x23) } else if is_word(t, "q") { Some(0x0C) } else if is_word(t, "r") { Some(0x0F) }
    else if is_word(t, "s") { Some(0x01) } else if is_word(t, "t") { Some(0x11) } else if is_word(t, "u") { Some(0x20) }
    else if is_word(t, "v") { Some(0x09) } else if is_word(t, "w") { Some(0x0D) } else if is_word(t, "x") { Some(0x07) }
    else if is_word(t, "y") { Some(0x10) } else if is_word(t, "z") { Some(0x06) }
    else { None }
}

/// Reads one lower-cased token into the scan.
pub fn scan_token(st: CgScan, t: &[char]) -> (r: CgScan)
    ensures
        r == cg_step(st, t@),
{
    if is_word(t, "shift") {
        CgScan { shift: true, last_modifier: Some(KEY_SHIFT), ..st }
    } else if is_word(t, "ctrl") || is_word(t, "control") {
        CgScan { control: true, last_modifier: Some(KEY_CONTROL), ..st }
    } else if is_word(t, "alt") || is_word(t, "option") {
        CgScan { alternate: true, last_modifier: Some(KEY_ALT), ..st }
    } else if is_word(t, "cmd") || is_word(t, "command") || is_word(t, "meta") || is_word(t, "super")
        || is_word(t, "win") {
        CgScan { command: true, last_modifier: Some(KEY_CMD), ..st }
    } else {
        CgScan { last_key: token_key_code(t), ..st }
    }
}

/// The chord of a hotkey string such as "Alt+Shift" or "Ctrl+Space": every
/// modifier named sets its flag; the key pressed is the last non-modifier
/// key named or, when there is none, the last modifier named.
pub fn parse_hotkey_to_cg(s: &str) -> (r: Option<CgChord>)
    ensures
        r == cg_chord(cg_scan(hotkey_tokens(s@))),
{
    let tokens = hotkey_tokens_of(s);
    let ghost ts = hotkey_tokens(s@);
    let mut st = CgScan {
        shift: false,
        control: false,
        alternate: false,
        command: false,
        last_key: None,
        last_modifier: None,
    };
    let mut i: usize = 0;
    while i < tokens.len()
        invariant
            ts == hotkey_tokens(s@),
            tokens@.len() == ts.len(),
            forall|k: int| 0 <= k < tokens@.len() ==> #[trigger] tokens@[k]@ == ts[k],
            i <= tokens@.len(),
            st == cg_scan(ts.take(i as int)),
        decreases tokens.len() - i,
    {
        proof {
            assert(ts.take(i + 1).drop_last() =~= ts.take(i as int));
            assert(ts.take(i + 1).last() == tokens@[i as int]@);
        }
        st = scan_token(st, tokens[i].as_slice());
        i += 1;
    }
    assert(ts.take(tokens.len() as int) =~= ts);
    let flags: u64 = (if st.shift { FLAG_SHIFT } else { 0 }) + (if st.control { FLAG_CONTROL } else { 0 })
        + (if st.alternate { FLAG_ALTERNATE } else { 0 }) + (if st.command { FLAG_COMMAND } else { 0 });
    match st.last_key {
        Some(k) => Some(CgChord { flags, key_code: k }),
        None => match st.last_modifier {
            Some(m) => Some(CgChord { flags, key_code: m }),
            None => None,
        },
    }
}

/// The chord that presses the layout switch hotkey once; a hotkey naming no
/// key is refused.
pub fn layout_switch_chord(hotkey: &str) -> (r: Result<CgChord, TypePasteError>)
    ensures
        r matches Ok(c) ==> cg_chord(cg_scan(hotkey_tokens(hotkey@))) == Some(c),
        r is Err <==> cg_chord(cg_scan(hotkey_tokens(hotkey@))) is None,
        r matches Err(e) ==> e matches TypePasteError::Platform(m)
            && m@ == "Cannot parse layout switch hotkey: "@ + hotkey@,
{
    match parse_hotkey_to_cg(hotkey) {
        Some(c) => Ok(c),
        None => {
            let mut m = String::from_str("Cannot parse layout switch hotkey: ");
            m.append(hotkey);
            Err(TypePasteError::Platform(m))
        },
    }
}


// ───────────────────────────── AppleScript ─────────────────────────────

/// The script that focuses the first window whose title contains the
/// searched text and prints "<pid>|<title>" (nothing when none matches).
pub const TITLE_SCRIPT_HEAD: &'static str = r#"
        tell application "System Events"
            repeat with proc in (every process whose background only is false)
                try
                    repeat with win in (every window of proc)
                        set winTitle to name of win
                        if winTitle contains ""#;
/// See [`TITLE_SCRIPT_HEAD`].
pub const TITLE_SCRIPT_TAIL: &'static str = r#"" then
                            set matchedPID to unix id of proc
                            tell proc to set frontmost to true
                            delay 0.3
                            return (matchedPID as text) & "|" & winTitle
                        end if
                    end repeat
                end try
            end repeat
            return ""
        end tell
        "#;

/// The script that brings process `pid` to the front and prints the name
/// of its first window: the text before the process id.
pub const PID_SCRIPT_HEAD: &'static str = r#"
        tell application "System Events"
            set targetProc to first process whose unix id is "#;
/// See [`PID_SCRIPT_HEAD`].
pub const PID_SCRIPT_TAIL: &'static str = r#"
            set frontmost of targetProc to true
            delay 0.3
            try
                set winName to name of first window of targetProc
                return winName
            on error
                return "(no window)"
            end try
        end tell
        "#;

/// The script that prints one line "<pid>\t<app>\t<title>" per window.
pub const LIST_SCRIPT: &'static str = r#"
        set output to ""
        tell application "System Events"
            repeat with proc in (every process whose background only is false)
                try
                    set procPID to unix id of proc
                    set procName to name of proc
                    repeat with win in (every window of proc)
                        set winTitle to name of win
                        set output to output & procPID & "\t" & procName & "\t" & winTitle & "\n"
                    end repeat
                end try
            end repeat
        end tell
        return output
    "#;


/// `s` as the contents of an AppleScript string literal: every backslash
/// and double quote preceded by a backslash, so that the literal stands for
/// `s` itself.
pub open spec fn applescript_escaped(s: Seq<char>) -> Seq<char>
    decreases s.len(),
{
    if s.len() == 0 {
        Seq::empty()
    } else if s.last() == '\\' || s.last() == '"' {
        applescript_escaped(s.drop_last()) + seq!['\\', s.last()]
    } else {
        applescript_escaped(s.drop_last()).push(s.last())
    }
}

/// The script that focuses a window whose title contains `title`, matched
/// as literal text: the title is escaped inside its string literal.
pub fn focus_by_title_script(title: &str) -> (r: String)
    ensures
        r@ == TITLE_SCRIPT_HEAD@ + applescript_escaped(title@) + TITLE_SCRIPT_TAIL@,
{
    let mut r = String::from_str(TITLE_SCRIPT_HEAD);
    let chars = chars_of(title);
    let ghost head = r@;
    let mut i: usize = 0;
    while i < chars.len()
        invariant
            chars@ == title@,
            i <= chars@.len(),
            r@ == head + applescript_escaped(chars@.take(i as int)),
        decreases chars.len() - i,
    {
        let c = chars[i];
        proof {
            assert(chars@.take(i + 1).drop_last() =~= chars@.take(i as int));
            assert(chars@.take(i + 1).last() == c);
        }
        if c == '\\' || c == '"' {
            r.push('\\');
            r.push(c);
            assert(r@ =~= head + applescript_escaped(chars@.take(i + 1)));
        } else {
            r.push(c);
            assert(r@ =~= head + applescript_escaped(chars@.take(i + 1)));
        }
        i += 1;
    }
    assert(chars@.take(chars@.len() as int) =~= chars@);
    r.append(TITLE_SCRIPT_TAIL);
    r
}

/// The script that focuses process `pid`.
pub fn focus_by_pid_script(pid: u32) -> (r: String)
    ensures
        r@ == PID_SCRIPT_HEAD@ + decimal(pid as nat) + PID_SCRIPT_TAIL@,
{
    let mut r = String::from_str(PID_SCRIPT_HEAD);
    let digits = decimal_string(pid as u64);
    r.append(digits.as_str());
    r.append(PID_SCRIPT_TAIL);
    r
}

/// The number a text field holds, or 0 when it holds none.
pub open spec fn pid_or_zero(s: Seq<char>) -> u32 {
    match parse_unsigned(s, u32::MAX as nat) {
        Some(n) => n as u32,
        None => 0,
    }
}

/// Reads the process id in the characters `v`, 0 when there is none.
fn read_pid(v: &[char]) -> (r: u32)
    ensures
        r == pid_or_zero(v@),
{
    match parse_unsigned_chars(v, 0xFFFF_FFFF) {
        Some(n) => n as u32,
        None => 0,
    }
}

/// The message when the focus script's output has no "|".
pub open spec fn unparsable_focus_message() -> Seq<char> {
    "Failed to parse window focus result"@
}

/// The outcome of the focus-by-title script, given what it printed: no
/// window when it printed nothing; otherwise the process id and the title
/// around the first "|".
pub fn focus_by_title_result(stdout: &str, title: &str) -> (r: Result<(u32, String), TypePasteError>)
    ensures
        trimmed(stdout@).len() == 0 ==> (r matches Err(TypePasteError::Platform(m))
            && m@ == no_title_message(title@)),
        trimmed(stdout@).len() > 0 && pieces(trimmed(stdout@), '|', 2).len() == 2 ==> (r matches Ok((pid, t))
            && pid == pid_or_zero(trimmed(pieces(trimmed(stdout@), '|', 2)[0]))
            && t@ == trimmed(pieces(trimmed(stdout@), '|', 2)[1])),
        trimmed(stdout@).len() > 0 && pieces(trimmed(stdout@), '|', 2).len() != 2 ==> (r matches Err(
            TypePasteError::Platform(m),
        ) && m@ == unparsable_focus_message()),
{
    let out = trim_chars(chars_of(stdout).as_slice());
    if out.len() == 0 {
        return Err(no_window_for_title(title));
    }
    let parts = split_chars(out.as_slice(), '|', 2);
    if parts.len() == 2 {
        let pid = read_pid(trim_chars(parts[0].as_slice()).as_slice());
        let t = trim_chars(parts[1].as_slice());
        Ok((pid, string_of(t.as_slice())))
    } else {
        Err(TypePasteError::Platform(String::from_str("Failed to parse window focus result")))
    }
}

/// The message when process `pid` could not be focused.
pub open spec fn no_process_message(pid: u32, stderr: Seq<char>) -> Seq<char> {
    "No process found with PID "@ + decimal(pid as nat) + ": "@ + stderr
}

/// The outcome of the focus-by-pid script, given whether it succeeded and
/// what it printed: the trimmed window name, or the error it reported.
pub fn focus_by_pid_result(pid: u32, success: bool, stdout: &str, stderr: &str) -> (r: Result<String, TypePasteError>)
    ensures
        success ==> (r matches Ok(t) && t@ == trimmed(stdout@)),
        !success ==> (r matches Err(TypePasteError::Platform(m)) && m@ == no_process_message(pid, stderr@)),
{
    if !success {
        let mut m = String::from_str("No process found with PID ");
        let digits = decimal_string(pid as u64);
        m.append(digits.as_str());
        m.append(": ");
        m.append(stderr);
        return Err(TypePasteError::Platform(m));
    }
    let t = trim_chars(chars_of(stdout).as_slice());
    Ok(string_of(t.as_slice()))
}

/// The window a line of the listing describes: process id, application
/// name and title, trimmed, when the line has three tab-separated fields
/// and a title.
pub open spec fn listing_entry(line: Seq<char>) -> Option<(u32, Seq<char>, Seq<char>)> {
    let p = pieces(line, '\t', 3);
    if p.len() == 3 && trimmed(p[2]).len() > 0 {
        Some((pid_or_zero(trimmed(p[0])), trimmed(p[1]), trimmed(p[2])))
    } else {
        None
    }
}

/// The windows described by the lines, in order.
pub open spec fn listing(ls: Seq<Seq<char>>) -> Seq<(u32, Seq<char>, Seq<char>)>
    decreases ls.len(),
{
    if ls.len() == 0 {
        Seq::empty()
    } else {
        let r = listing(ls.drop_last());
        match listing_entry(ls.last()) {
            Some(e) => r.push(e),
            None => r,
        }
    }
}

/// The windows that the listing script printed, one per line.
pub fn parse_window_list(stdout: &str) -> (r: Vec<WindowInfo>)
    ensures
        r@.len() == listing(lines(stdout@)).len(),
        forall|k: int| 0 <= k < r@.len() ==> {
            let e = #[trigger] listing(lines(stdout@))[k];
            r@[k].pid == e.0 && r@[k].app_name@ == e.1 && r@[k].title@ == e.2
        },
{
    let ls = lines_of(chars_of(stdout).as_slice());
    let ghost all = lines(stdout@);
    let mut r: Vec<WindowInfo> = Vec::new();
    let mut i: usize = 0;
    while i < ls.len()
        invariant
            all == lines(stdout@),
            ls@.len() == all.len(),
            forall|k: int| 0 <= k < ls@.len() ==> #[trigger] ls@[k]@ == all[k],
            i <= ls@.len(),
            r@.len() == listing(all.take(i as int)).len(),
            forall|k: int| 0 <= k < r@.len() ==> {
                let e = #[trigger] listing(all.take(i as int))[k];
                r@[k].pid == e.0 && r@[k].app_name@ == e.1 && r@[k].title@ == e.2
            },
        decreases ls.len() - i,
    {
        proof {
            assert(all.take(i + 1).drop_last() =~= all.take(i as int));
            assert(all.take(i + 1).last() == ls@[i as int]@);
        }
        let parts = split_chars(ls[i].as_slice(), '\t', 3);
        if parts.len() == 3 {
            let title = trim_chars(parts[2].as_slice());
            if title.len() > 0 {
                let pid = read_pid(trim_chars(parts[0].as_slice()).as_slice());
                let app = trim_chars(parts[1].as_slice());
                r.push(WindowInfo { title: string_of(title.as_slice()), pid, app_name: string_of(app.as_slice()) });
            }
        }
        i += 1;
    }
    assert(all.take(ls.len() as int) =~= all);
    r
}

} // verus!
