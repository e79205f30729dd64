use typepaste::config::{CharRange, Config, KeyboardLayout, Platform};

#[test]
fn documented_defaults() {
    let c = Config::default_for(Platform::MacOs);
    assert_eq!(c.keystroke_delay_ms, 5);
    assert_eq!(c.random_delay_min_ms, 0);
    assert_eq!(c.random_delay_max_ms, 0);
    assert_eq!(c.initial_delay_ms, 500);
    assert!(c.show_notification);
    assert!(!c.start_on_login);
    assert_eq!(c.hotkey, "Cmd+Shift+V");
    assert_eq!(c.paste_hotkey, "");
    assert_eq!(c.max_text_length, 100_000);
    assert!(c.newlines_as_enter);
    assert!(c.tabs_as_tab);
    assert!(!c.layout_switch.enabled);
    assert_eq!(c.layout_switch.switch_hotkey, "Alt+Shift");
    assert_eq!(c.layout_switch.switch_delay_ms, 100);
    assert_eq!(Config::default_for(Platform::Windows).hotkey, "Ctrl+Shift+V");
    assert_eq!(Config::default_for(Platform::Other).hotkey, "Ctrl+Shift+V");
}

#[test]
fn jitter_is_off_when_max_is_zero() {
    let mut c = Config::default_for(Platform::Other);
    assert!(!c.has_random_delay());
    c.random_delay_min_ms = 10;
    c.random_delay_max_ms = 80;
    assert!(c.has_random_delay());
    c.random_delay_min_ms = 0;
    c.random_delay_max_ms = 0;
    assert!(!c.has_random_delay());
}

#[test]
fn validate_orders_jitter_bounds() {
    let mut c = Config::default_for(Platform::Other);
    c.random_delay_min_ms = 80;
    c.random_delay_max_ms = 10;
    assert!(!c.has_random_delay());
    c.validate();
    assert_eq!((c.random_delay_min_ms, c.random_delay_max_ms), (10, 80));
    c.validate();
    assert_eq!((c.random_delay_min_ms, c.random_delay_max_ms), (10, 80));
    assert!(c.has_random_delay());
}

#[test]
fn layout_for_char_finds_first_layout() {
    let c = Config::default_for(Platform::Other);
    let ls = &c.layout_switch;
    assert_eq!(ls.layout_for_char('a'), Some(0));
    assert_eq!(ls.layout_for_char('Z'), Some(0));
    assert_eq!(ls.layout_for_char('ж'), Some(1));
    assert_eq!(ls.layout_for_char('Ё'), Some(1));
    assert_eq!(ls.layout_for_char('1'), None);
    assert_eq!(ls.layout_for_char(' '), None);
}

#[test]
fn presses_cycle_through_layouts() {
    let mut c = Config::default_for(Platform::Other);
    c.layout_switch.layouts.push(KeyboardLayout {
        name: "Greek".to_string(),
        ranges: vec![CharRange { first: 0x370, last: 0x3FF }],
    });
    let ls = &c.layout_switch;
    assert_eq!(ls.presses_needed(0, 1), 1);
    assert_eq!(ls.presses_needed(0, 2), 2);
    assert_eq!(ls.presses_needed(2, 0), 1);
    assert_eq!(ls.presses_needed(1, 0), 2);
    assert_eq!(ls.presses_needed(1, 1), 0);
}

#[test]
fn start_layout_falls_back_to_first() {
    let mut c = Config::default_for(Platform::Other);
    c.layout_switch.initial_layout = 1;
    assert_eq!(c.layout_switch.start_layout(), 1);
    c.layout_switch.initial_layout = 5;
    assert_eq!(c.layout_switch.start_layout(), 0);
}
