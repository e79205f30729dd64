use typepaste::config::{Config, Platform};
use typepaste::error::TypePasteError;
use typepaste::platform::macos::{self, CgChord};
use typepaste::platform::windows::{self, VkEvent, WindowSnapshot};
use typepaste::platform::{compute_delay, delay_with_jitter, fallback, pause_after, plan_keystrokes, Keystroke};

fn platform_message(r: Result<(), TypePasteError>) -> String {
    match r {
        Err(TypePasteError::Platform(m)) => m,
        other => panic!("unexpected {other:?}"),
    }
}

#[test]
fn fallback_reports_unsupported_platform() {
    assert_eq!(
        platform_message(fallback::check_accessibility()),
        "TypePaste is not yet supported on this platform. Supported: macOS, Windows."
    );
    let c = Config::default_for(Platform::Other);
    assert_eq!(
        platform_message(fallback::type_string("hi", &c)),
        "Keystroke emulation is not available on this platform."
    );
}

#[test]
fn newlines_and_tabs_become_keys() {
    let c = Config::default_for(Platform::Other);
    assert_eq!(
        plan_keystrokes("a\tb\r\nc", &c),
        vec![Keystroke::Char('a'), Keystroke::Tab, Keystroke::Char('b'), Keystroke::Enter, Keystroke::Char('c')]
    );
}

#[test]
fn newlines_and_tabs_typed_as_characters_when_disabled() {
    let mut c = Config::default_for(Platform::Other);
    c.newlines_as_enter = false;
    c.tabs_as_tab = false;
    assert_eq!(
        plan_keystrokes("\t\r\n", &c),
        vec![Keystroke::Char('\t'), Keystroke::Char('\n')]
    );
}

#[test]
fn unicode_characters_are_typed_as_themselves() {
    let c = Config::default_for(Platform::Other);
    assert_eq!(plan_keystrokes("é€", &c), vec![Keystroke::Char('é'), Keystroke::Char('€')]);
    assert_eq!(plan_keystrokes("", &c), vec![]);
}

#[test]
fn layout_switch_at_script_boundaries() {
    let mut c = Config::default_for(Platform::Other);
    c.layout_switch.enabled = true;
    assert_eq!(
        plan_keystrokes("ab дa 1", &c),
        vec![
            Keystroke::Char('a'),
            Keystroke::Char('b'),
            Keystroke::Char(' '),
            Keystroke::SwitchLayout,
            Keystroke::Char('д'),
            Keystroke::SwitchLayout,
            Keystroke::Char('a'),
            Keystroke::Char(' '),
            Keystroke::Char('1'),
        ]
    );
}

#[test]
fn layout_switch_from_initial_layout() {
    let mut c = Config::default_for(Platform::Other);
    c.layout_switch.enabled = true;
    c.layout_switch.initial_layout = 1;
    assert_eq!(plan_keystrokes("дa", &c), vec![
        Keystroke::Char('д'),
        Keystroke::SwitchLayout,
        Keystroke::Char('a'),
    ]);
}

#[test]
fn layout_switch_needs_hotkey_and_two_layouts() {
    let mut c = Config::default_for(Platform::Other);
    c.layout_switch.enabled = true;
    c.layout_switch.switch_hotkey = String::new();
    assert_eq!(plan_keystrokes("aд", &c), vec![Keystroke::Char('a'), Keystroke::Char('д')]);
    let mut d = Config::default_for(Platform::Other);
    d.layout_switch.enabled = true;
    d.layout_switch.layouts.truncate(1);
    assert_eq!(plan_keystrokes("aд", &d), vec![Keystroke::Char('a'), Keystroke::Char('д')]);
}

#[test]
fn fixed_delay_without_jitter() {
    let c = Config::default_for(Platform::Other);
    assert_eq!(compute_delay(&c), 5);
    assert_eq!(delay_with_jitter(&c, 40), 5);
}

#[test]
fn human_like_delay_range() {
    let mut c = Config::default_for(Platform::Other);
    c.keystroke_delay_ms = 20;
    c.random_delay_min_ms = 10;
    c.random_delay_max_ms = 80;
    for _ in 0..200 {
        let d = compute_delay(&c);
        assert!((30..=100).contains(&d), "delay {d}");
    }
    assert_eq!(delay_with_jitter(&c, 40), 60);
}

#[test]
fn satellite_delay_range() {
    let mut c = Config::default_for(Platform::Other);
    c.keystroke_delay_ms = 100;
    c.random_delay_min_ms = 20;
    c.random_delay_max_ms = 150;
    for _ in 0..200 {
        let d = compute_delay(&c);
        assert!((120..=250).contains(&d), "delay {d}");
    }
}

#[test]
fn windows_virtual_keys() {
    assert_eq!(windows::parse_hotkey_to_vk("Alt+Shift"), vec![0x12, 0x10]);
    assert_eq!(windows::parse_hotkey_to_vk(" ctrl + SHIFT "), vec![0x11, 0x10]);
    assert_eq!(windows::parse_hotkey_to_vk("Win+Space"), vec![0x5B, 0x20]);
    assert_eq!(windows::parse_hotkey_to_vk("Ctrl+Enter"), vec![0x11, 0x0D]);
    assert_eq!(windows::parse_hotkey_to_vk("Alt+Tab"), vec![0x12, 0x09]);
    assert_eq!(windows::parse_hotkey_to_vk("Ctrl+F5"), vec![0x11, 0x74]);
    assert_eq!(windows::parse_hotkey_to_vk("Ctrl+Hyper"), vec![0x11]);
    assert_eq!(windows::parse_hotkey_to_vk("Ctrl+Esc"), vec![0x11, 0x1B]);
    assert_eq!(windows::parse_hotkey_to_vk("Ctrl+Return"), vec![0x11]);
    assert_eq!(windows::parse_hotkey_to_vk("Ctrl+Escape"), vec![0x11]);
    assert_eq!(windows::parse_hotkey_to_vk("Ctrl+k"), vec![0x11, 0x4B]);
    assert_eq!(windows::parse_hotkey_to_vk("Cmd+1"), vec![0x5B, 0x31]);
    assert_eq!(windows::parse_hotkey_to_vk(""), Vec::<u16>::new());
}

#[test]
fn windows_layout_switch_presses_then_releases_in_reverse() {
    let ev = windows::layout_switch_events("Alt+Shift").unwrap();
    assert_eq!(ev, vec![
        VkEvent { vk: 0x12, key_up: false },
        VkEvent { vk: 0x10, key_up: false },
        VkEvent { vk: 0x10, key_up: true },
        VkEvent { vk: 0x12, key_up: true },
    ]);
    match windows::layout_switch_events("Hyper") {
        Err(TypePasteError::Platform(m)) => assert_eq!(m, "Cannot parse layout switch hotkey: Hyper"),
        other => panic!("unexpected {other:?}"),
    }
}

fn snap(visible: bool, title: &str, pid: u32, module: Option<&str>) -> WindowSnapshot {
    WindowSnapshot { visible, title: title.to_string(), pid, module_name: module.map(|m| m.to_string()) }
}

#[test]
fn windows_focus_by_title_picks_first_visible_match() {
    let ws = vec![
        snap(false, "Terminal hidden", 1, None),
        snap(true, "", 2, None),
        snap(true, "My TERMINAL", 3, None),
        snap(true, "terminal 2", 4, None),
    ];
    let (pid, title) = windows::focus_window_by_title(&ws, "terminal").unwrap();
    assert_eq!((pid, title.as_str()), (3, "My TERMINAL"));
    assert_eq!(windows::find_window_by_title(&ws, "terminal"), Some(2));
    assert_eq!(windows::find_window_by_title(&ws, "Editor"), None);
    match windows::focus_window_by_title(&ws, "Editor") {
        Err(TypePasteError::Platform(m)) => assert_eq!(m, "No window found matching title: \"Editor\""),
        other => panic!("unexpected {other:?}"),
    }
}

#[test]
fn windows_focus_by_pid() {
    let ws = vec![snap(true, "", 7, None), snap(false, "Hidden", 7, None), snap(true, "Main", 7, None)];
    assert_eq!(windows::focus_window_by_pid(&ws, 7).unwrap(), "Main");
    assert_eq!(windows::find_window_by_pid(&ws, 7), Some(2));
    assert_eq!(windows::find_window_by_pid(&ws, 8), None);
    match windows::focus_window_by_pid(&ws, 8) {
        Err(TypePasteError::Platform(m)) => assert_eq!(m, "No window found with PID 8"),
        other => panic!("unexpected {other:?}"),
    }
}

#[test]
fn windows_process_names() {
    assert_eq!(windows::process_name(&Some("notepad.exe".to_string()), 1), "notepad");
    assert_eq!(windows::process_name(&Some("a.exe.exe".to_string()), 1), "a");
    assert_eq!(windows::process_name(&Some("explorer.EXE".to_string()), 1), "explorer.EXE");
    assert_eq!(windows::process_name(&None, 1234), "PID_1234");
}

#[test]
fn windows_list_keeps_visible_titled_windows() {
    let ws = vec![
        snap(true, "Editor", 10, Some("code.exe")),
        snap(false, "Hidden", 11, Some("x.exe")),
        snap(true, "", 12, Some("y.exe")),
        snap(true, "Shell", 13, None),
    ];
    let list = windows::list_windows(&ws);
    assert_eq!(list.len(), 2);
    assert_eq!((list[0].title.as_str(), list[0].pid, list[0].app_name.as_str()), ("Editor", 10, "code"));
    assert_eq!((list[1].title.as_str(), list[1].pid, list[1].app_name.as_str()), ("Shell", 13, "PID_13"));
}

#[test]
fn windows_needs_no_permission() {
    assert!(windows::check_accessibility().is_ok());
}

#[test]
fn macos_accessibility() {
    assert!(macos::check_accessibility(true).is_ok());
    assert!(matches!(macos::check_accessibility(false), Err(TypePasteError::AccessibilityDenied)));
}

#[test]
fn macos_hotkey_chords() {
    assert_eq!(
        macos::parse_hotkey_to_cg("Alt+Shift"),
        Some(CgChord { flags: 0x0008_0000 + 0x0002_0000, key_code: 0x38 })
    );
    assert_eq!(
        macos::parse_hotkey_to_cg("Ctrl+Space"),
        Some(CgChord { flags: 0x0004_0000, key_code: 0x31 })
    );
    assert_eq!(
        macos::parse_hotkey_to_cg("cmd+SHIFT+v"),
        Some(CgChord { flags: 0x0010_0000 + 0x0002_0000, key_code: 0x09 })
    );
    assert_eq!(macos::parse_hotkey_to_cg("Shift+V+F5"), Some(CgChord { flags: 0x0002_0000, key_code: 0x38 }));
    assert_eq!(
        macos::parse_hotkey_to_cg("Win+Space"),
        Some(CgChord { flags: 0x0010_0000, key_code: 0x31 })
    );
    assert_eq!(macos::parse_hotkey_to_cg(""), None);
    match macos::layout_switch_chord("Hyper") {
        Err(TypePasteError::Platform(m)) => assert_eq!(m, "Cannot parse layout switch hotkey: Hyper"),
        other => panic!("unexpected {other:?}"),
    }
}

#[test]
fn macos_scripts_embed_title_and_pid() {
    let s = macos::focus_by_title_script("Terminal");
    assert!(s.contains("if winTitle contains \"Terminal\" then"));
    assert!(s.starts_with("\n        tell application \"System Events\""));
    let q = macos::focus_by_title_script(r#"x" & (do shell script "id") & ""#);
    assert!(q.contains(r#"if winTitle contains "x\" & (do shell script \"id\") & \"" then"#), "{q}");
    let b = macos::focus_by_title_script(r"C:\dir");
    assert!(b.contains(r#"if winTitle contains "C:\\dir" then"#), "{b}");
    let p = macos::focus_by_pid_script(4321);
    assert!(p.contains("set targetProc to first process whose unix id is 4321\n"));
}

#[test]
fn macos_focus_by_title_output() {
    let (pid, title) = macos::focus_by_title_result(" 123|My Terminal \n", "Term").unwrap();
    assert_eq!((pid, title.as_str()), (123, "My Terminal"));
    let (pid, title) = macos::focus_by_title_result("x|a|b", "a").unwrap();
    assert_eq!((pid, title.as_str()), (0, "a|b"));
    match macos::focus_by_title_result("  \n", "Term") {
        Err(TypePasteError::Platform(m)) => assert_eq!(m, "No window found matching title: \"Term\""),
        other => panic!("unexpected {other:?}"),
    }
    match macos::focus_by_title_result("garbage", "Term") {
        Err(TypePasteError::Platform(m)) => assert_eq!(m, "Failed to parse window focus result"),
        other => panic!("unexpected {other:?}"),
    }
}

#[test]
fn macos_focus_by_pid_output() {
    assert_eq!(macos::focus_by_pid_result(5, true, " Main \n", "").unwrap(), "Main");
    match macos::focus_by_pid_result(5, false, "", "execution error") {
        Err(TypePasteError::Platform(m)) => assert_eq!(m, "No process found with PID 5: execution error"),
        other => panic!("unexpected {other:?}"),
    }
}

#[test]
fn macos_window_list_output() {
    let out = "101\tSafari\tApple\n102\tTerminal\t \nbad line\n103\t Finder \t Downloads\t(2)\r\n";
    let list = macos::parse_window_list(out);
    assert_eq!(list.len(), 2);
    assert_eq!((list[0].pid, list[0].app_name.as_str(), list[0].title.as_str()), (101, "Safari", "Apple"));
    assert_eq!(
        (list[1].pid, list[1].app_name.as_str(), list[1].title.as_str()),
        (103, "Finder", "Downloads\t(2)")
    );
}

#[test]
fn pauses_follow_each_keystroke() {
    let mut c = Config::default_for(Platform::Windows);
    c.keystroke_delay_ms = 7;
    c.layout_switch.switch_delay_ms = 120;
    assert_eq!(pause_after(Keystroke::SwitchLayout, &c), 120);
    assert_eq!(pause_after(Keystroke::Enter, &c), 7);
    assert_eq!(pause_after(Keystroke::Char('x'), &c), 7);
    c.random_delay_min_ms = 10;
    c.random_delay_max_ms = 80;
    for _ in 0..50 {
        let d = pause_after(Keystroke::Tab, &c);
        assert!((17..=87).contains(&d), "pause {d}");
    }
    assert_eq!(pause_after(Keystroke::SwitchLayout, &c), 120);
}

#[test]
fn send_input_outcome() {
    assert!(windows::send_input_result(1).is_ok());
    match windows::send_input_result(0) {
        Err(TypePasteError::Platform(m)) => assert_eq!(m, "SendInput failed"),
        other => panic!("unexpected {other:?}"),
    }
}
