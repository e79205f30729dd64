use typepaste::config::{Config, Platform};
use typepaste::hotkey::{hotkeys_to_register, parse_hotkey, rebind_hotkeys, Hotkey, HotkeyKey, Modifiers};

fn mods(meta: bool, control: bool, shift: bool, alt: bool) -> Modifiers {
    Modifiers { meta, control, shift, alt }
}

#[test]
fn documented_examples() {
    assert_eq!(
        parse_hotkey("Cmd+Shift+V"),
        Some(Hotkey { modifiers: mods(true, false, true, false), key: HotkeyKey::Letter('V') })
    );
    assert_eq!(
        parse_hotkey("Ctrl+Shift+V"),
        Some(Hotkey { modifiers: mods(false, true, true, false), key: HotkeyKey::Letter('V') })
    );
    assert_eq!(
        parse_hotkey("Ctrl+Alt+P"),
        Some(Hotkey { modifiers: mods(false, true, false, true), key: HotkeyKey::Letter('P') })
    );
    assert_eq!(
        parse_hotkey("Cmd+F6"),
        Some(Hotkey { modifiers: mods(true, false, false, false), key: HotkeyKey::Function(6) })
    );
    assert_eq!(
        parse_hotkey("Ctrl+Shift+Space"),
        Some(Hotkey { modifiers: mods(false, true, true, false), key: HotkeyKey::Space })
    );
}

#[test]
fn names_are_case_insensitive_and_trimmed() {
    assert_eq!(parse_hotkey(" cmd + shift + v "), parse_hotkey("Cmd+Shift+V"));
    assert_eq!(parse_hotkey("COMMAND+OPTION+x"), parse_hotkey("Meta+Alt+X"));
    assert_eq!(parse_hotkey("Super+Control+PageUp").unwrap().key, HotkeyKey::PageUp);
}

#[test]
fn supported_keys() {
    assert_eq!(parse_hotkey("Ctrl+7").unwrap().key, HotkeyKey::Digit('7'));
    assert_eq!(parse_hotkey("Ctrl+F12").unwrap().key, HotkeyKey::Function(12));
    assert_eq!(parse_hotkey("Ctrl+Esc").unwrap().key, HotkeyKey::Escape);
    assert_eq!(parse_hotkey("Ctrl+Enter").unwrap().key, HotkeyKey::Enter);
    assert_eq!(parse_hotkey("Ctrl+Backspace").unwrap().key, HotkeyKey::Backspace);
    assert_eq!(parse_hotkey("Alt+Left").unwrap().key, HotkeyKey::ArrowLeft);
    assert_eq!(parse_hotkey("Alt+Down").unwrap().key, HotkeyKey::ArrowDown);
}

#[test]
fn no_key_means_no_hotkey() {
    assert_eq!(parse_hotkey(""), None);
    assert_eq!(parse_hotkey("Ctrl+Shift"), None);
    assert_eq!(parse_hotkey("Ctrl+F13"), None);
    assert_eq!(parse_hotkey("Ctrl+V+!"), None);
}

#[test]
fn last_key_wins_and_unknown_words_are_ignored() {
    assert_eq!(parse_hotkey("Ctrl+A+B").unwrap().key, HotkeyKey::Letter('B'));
    assert_eq!(parse_hotkey("Ctrl+V+Hyper").unwrap().key, HotkeyKey::Letter('V'));
    assert_eq!(parse_hotkey("Ctrl+V+é").unwrap().key, HotkeyKey::Letter('V'));
    assert_eq!(parse_hotkey("Ctrl+V+#"), None);
    assert_eq!(parse_hotkey("Shift+V+Cmd").unwrap().modifiers, mods(true, false, true, false));
}

#[test]
fn primary_and_additional_hotkeys() {
    let v = parse_hotkey("Cmd+Shift+V").unwrap();
    let p = parse_hotkey("Ctrl+Alt+P").unwrap();
    assert_eq!(hotkeys_to_register("Cmd+Shift+V", ""), vec![v]);
    assert_eq!(hotkeys_to_register("Cmd+Shift+V", "Ctrl+Alt+P"), vec![v, p]);
    assert_eq!(hotkeys_to_register("Cmd+Shift+V", "shift+cmd+v"), vec![v]);
    assert_eq!(hotkeys_to_register("Cmd+Shift", "Ctrl+Alt+P"), vec![p]);
    assert_eq!(hotkeys_to_register("", ""), vec![]);
}

#[test]
fn changed_hotkeys_are_registered_again() {
    let mut c = Config::default_for(Platform::Windows);
    assert_eq!(rebind_hotkeys("Ctrl+Shift+V", "", &c), None);
    c.paste_hotkey = "Ctrl+Alt+P".to_string();
    assert_eq!(
        rebind_hotkeys("Ctrl+Shift+V", "", &c),
        Some(vec![parse_hotkey("Ctrl+Shift+V").unwrap(), parse_hotkey("Ctrl+Alt+P").unwrap()])
    );
    c.hotkey = "Cmd+F6".to_string();
    c.paste_hotkey = String::new();
    assert_eq!(rebind_hotkeys("Ctrl+Shift+V", "Ctrl+Alt+P", &c), Some(vec![parse_hotkey("Cmd+F6").unwrap()]));
}
