use typepaste::config::{Config, Platform};
use typepaste::engine::{
    clipboard_result, ClipboardAccess,
    EngineAction, EngineEvent, SessionStage, TypeEngine, TypingJob, TypingRequest, TypingSession,
};
use typepaste::error::TypePasteError;

fn engine() -> TypeEngine {
    TypeEngine::new(Config::default_for(Platform::Other))
}

fn expect_job(a: EngineAction) -> TypingJob {
    match a {
        EngineAction::Type(job) => job,
        other => panic!("expected a typing job, got {other:?}"),
    }
}

#[test]
fn engine_keeps_and_replaces_config() {
    let mut e = engine();
    assert_eq!(e.config().keystroke_delay_ms, 5);
    let mut c = Config::default_for(Platform::Other);
    c.keystroke_delay_ms = 50;
    e.update_config(c);
    assert_eq!(e.config().keystroke_delay_ms, 50);
}

#[test]
fn prepare_job_truncates_by_characters() {
    let mut c = Config::default_for(Platform::Other);
    c.max_text_length = 3;
    let e = TypeEngine::new(c);
    let job = e.prepare_job("привет", true);
    assert_eq!(job.text, "при");
    assert_eq!(job.wait_ms, 500);
    let job = e.prepare_job("ab", false);
    assert_eq!(job.text, "ab");
    assert_eq!(job.wait_ms, 0);
}

#[test]
fn no_wait_when_initial_delay_is_zero() {
    let mut c = Config::default_for(Platform::Other);
    c.initial_delay_ms = 0;
    let e = TypeEngine::new(c);
    assert_eq!(e.prepare_job("x", true).wait_ms, 0);
}

#[test]
fn type_text_flow() {
    let e = engine();
    let (mut s, a) = e.type_text("hello", true);
    assert!(matches!(a, EngineAction::CheckAccessibility));
    let job = expect_job(s.advance(&e, EngineEvent::AccessibilityChecked(Ok(()))));
    assert_eq!(job.text, "hello");
    assert_eq!(job.wait_ms, 500);
    assert_eq!(s.stage, SessionStage::AwaitingTyping);
    let done = s.advance(&e, EngineEvent::Typed(Ok(())));
    assert!(matches!(done, EngineAction::Done(Ok(()))));
    assert_eq!(s.stage, SessionStage::Finished);
}

#[test]
fn empty_text_does_nothing() {
    let e = engine();
    let (mut s, _) = e.type_text("", true);
    assert!(matches!(s.advance(&e, EngineEvent::AccessibilityChecked(Ok(()))), EngineAction::Done(Ok(()))));
}

#[test]
fn accessibility_denied_ends_request() {
    let e = engine();
    let (mut s, _) = e.type_text("hello", false);
    let a = s.advance(&e, EngineEvent::AccessibilityChecked(Err(TypePasteError::AccessibilityDenied)));
    assert!(matches!(a, EngineAction::Done(Err(TypePasteError::AccessibilityDenied))));
    assert_eq!(s.stage, SessionStage::Finished);
}

#[test]
fn paste_flow() {
    let e = engine();
    let (mut s, _) = e.paste_as_keystrokes();
    assert!(matches!(s.request, TypingRequest::Paste));
    assert!(matches!(s.advance(&e, EngineEvent::AccessibilityChecked(Ok(()))), EngineAction::ReadClipboard));
    let job = expect_job(s.advance(&e, EngineEvent::ClipboardRead(Ok("copied".to_string()))));
    assert_eq!(job.text, "copied");
    assert_eq!(job.wait_ms, 500);
}

#[test]
fn empty_clipboard_does_nothing() {
    let e = engine();
    let (mut s, _) = e.paste_as_keystrokes();
    s.advance(&e, EngineEvent::AccessibilityChecked(Ok(())));
    assert!(matches!(s.advance(&e, EngineEvent::ClipboardRead(Ok(String::new()))), EngineAction::Done(Ok(()))));
}

#[test]
fn clipboard_error_ends_paste() {
    let e = engine();
    let (mut s, _) = e.paste_as_keystrokes();
    s.advance(&e, EngineEvent::AccessibilityChecked(Ok(())));
    let err = TypePasteError::Clipboard("Read clipboard: empty".to_string());
    match s.advance(&e, EngineEvent::ClipboardRead(Err(err))) {
        EngineAction::Done(Err(TypePasteError::Clipboard(m))) => assert_eq!(m, "Read clipboard: empty"),
        other => panic!("unexpected {other:?}"),
    }
}

#[test]
fn window_by_title_flow() {
    let e = engine();
    let (mut s, _) = e.type_text_to_window_by_title("ls -la", "Terminal", false);
    match s.advance(&e, EngineEvent::AccessibilityChecked(Ok(()))) {
        EngineAction::FocusWindowByTitle(t) => assert_eq!(t, "Terminal"),
        other => panic!("unexpected {other:?}"),
    }
    assert_eq!(s.stage, SessionStage::AwaitingFocus);
    let job = expect_job(s.advance(&e, EngineEvent::WindowFocused(Ok(()))));
    assert_eq!(job.text, "ls -la");
    assert_eq!(job.wait_ms, 0);
}

#[test]
fn window_by_pid_flow_and_focus_error() {
    let e = engine();
    let (mut s, _) = e.type_text_to_window_by_pid("x", 12345, true);
    assert!(matches!(s.advance(&e, EngineEvent::AccessibilityChecked(Ok(()))), EngineAction::FocusWindowByPid(12345)));
    let err = TypePasteError::Platform("No window found with PID 12345".to_string());
    match s.advance(&e, EngineEvent::WindowFocused(Err(err))) {
        EngineAction::Done(Err(TypePasteError::Platform(m))) => assert_eq!(m, "No window found with PID 12345"),
        other => panic!("unexpected {other:?}"),
    }
}

#[test]
fn window_request_types_even_empty_text() {
    let e = engine();
    let (mut s, _) = e.type_text_to_window_by_pid("", 1, false);
    s.advance(&e, EngineEvent::AccessibilityChecked(Ok(())));
    let job = expect_job(s.advance(&e, EngineEvent::WindowFocused(Ok(()))));
    assert_eq!(job.text, "");
}

#[test]
fn typing_error_is_the_result() {
    let e = engine();
    let mut s = TypingSession {
        request: TypingRequest::Text { text: "a".to_string(), use_initial_delay: false },
        stage: SessionStage::AwaitingTyping,
    };
    let err = TypePasteError::Platform("Keystroke emulation is not available on this platform.".to_string());
    assert!(matches!(s.advance(&e, EngineEvent::Typed(Err(err))), EngineAction::Done(Err(TypePasteError::Platform(_)))));
}

#[test]
fn clipboard_read_reports_its_step_on_failure() {
    let e = engine();
    match e.read_clipboard() {
        Ok(_) => {}
        Err(TypePasteError::Clipboard(m)) => {
            assert!(m.starts_with("Init clipboard: ") || m.starts_with("Read clipboard: "), "{m}");
        }
        Err(other) => panic!("unexpected {other:?}"),
    }
}

#[test]
fn clipboard_outcomes_map_to_results() {
    assert_eq!(clipboard_result(ClipboardAccess::Text("hi".into())).unwrap(), "hi");
    match clipboard_result(ClipboardAccess::OpenFailed("no display".into())) {
        Err(TypePasteError::Clipboard(m)) => assert_eq!(m, "Init clipboard: no display"),
        other => panic!("unexpected {other:?}"),
    }
    match clipboard_result(ClipboardAccess::ReadFailed("empty".into())) {
        Err(TypePasteError::Clipboard(m)) => assert_eq!(m, "Read clipboard: empty"),
        other => panic!("unexpected {other:?}"),
    }
}

#[test]
fn error_messages() {
    assert_eq!(TypePasteError::Clipboard("x".into()).message(), "Clipboard error: x");
    assert_eq!(TypePasteError::Keystroke("x".into()).message(), "Keystroke emulation error: x");
    assert_eq!(TypePasteError::Platform("x".into()).message(), "Platform error: x");
    assert_eq!(TypePasteError::Config("x".into()).message(), "Configuration error: x");
    assert_eq!(TypePasteError::AccessibilityDenied.message(), "Accessibility permission not granted");
    assert_eq!(TypePasteError::HotkeyRegistration("x".into()).message(), "Hotkey registration failed: x");
    assert_eq!(TypePasteError::Io("x".into()).message(), "IO error: x");
}
