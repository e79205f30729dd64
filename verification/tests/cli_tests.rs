use typepaste::cli::{TextSource, TypeArgs};
use typepaste::config::{Config, Platform};
use typepaste::engine::TypingRequest;

fn args() -> TypeArgs {
    TypeArgs {
        text: None,
        clipboard: false,
        stdin: false,
        window: None,
        pid: None,
        delay: None,
        random_min: None,
        random_max: None,
        initial_delay: None,
        no_delay: false,
        layout_switch: false,
        layout_switch_hotkey: None,
        layout_switch_delay: None,
        initial_layout: None,
    }
}

#[test]
fn text_sources() {
    let mut a = args();
    assert_eq!(a.text_source(), TextSource::Missing);
    a.stdin = true;
    assert_eq!(a.text_source(), TextSource::Stdin);
    a.stdin = false;
    a.clipboard = true;
    assert_eq!(a.text_source(), TextSource::Clipboard);
    a.text = Some("Hello, World!".to_string());
    assert_eq!(a.text_source(), TextSource::Given("Hello, World!".to_string()));
}

#[test]
fn delay_overrides() {
    let mut a = args();
    a.delay = Some(50);
    a.random_min = Some(10);
    a.random_max = Some(80);
    a.initial_delay = Some(0);
    let mut c = Config::default_for(Platform::Other);
    a.apply_overrides(&mut c);
    assert_eq!(c.keystroke_delay_ms, 50);
    assert_eq!((c.random_delay_min_ms, c.random_delay_max_ms), (10, 80));
    assert_eq!(c.initial_delay_ms, 0);
}

#[test]
fn layout_overrides() {
    let mut a = args();
    a.layout_switch = true;
    a.layout_switch_hotkey = Some("Win+Space".to_string());
    a.layout_switch_delay = Some(250);
    a.initial_layout = Some(1);
    let mut c = Config::default_for(Platform::Other);
    a.apply_overrides(&mut c);
    assert!(c.layout_switch.enabled);
    assert_eq!(c.layout_switch.switch_hotkey, "Win+Space");
    assert_eq!(c.layout_switch.switch_delay_ms, 250);
    assert_eq!(c.layout_switch.initial_layout, 1);
    assert_eq!(c.keystroke_delay_ms, 5);
}

#[test]
fn requests_by_target() {
    let mut a = args();
    a.no_delay = true;
    match a.request_for("fast") {
        TypingRequest::Text { text, use_initial_delay } => assert_eq!((text.as_str(), use_initial_delay), ("fast", false)),
        other => panic!("unexpected {other:?}"),
    }
    a.no_delay = false;
    a.window = Some("Terminal".to_string());
    match a.request_for("ls -la") {
        TypingRequest::ToWindowTitle { text, title, use_initial_delay } => {
            assert_eq!((text.as_str(), title.as_str(), use_initial_delay), ("ls -la", "Terminal", true))
        }
        other => panic!("unexpected {other:?}"),
    }
    a.window = None;
    a.pid = Some(12345);
    match a.request_for("ls -la") {
        TypingRequest::ToWindowPid { text, pid, .. } => assert_eq!((text.as_str(), pid), ("ls -la", 12345)),
        other => panic!("unexpected {other:?}"),
    }
}
