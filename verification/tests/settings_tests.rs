use typepaste::config::{Config, Platform};
use typepaste::error::TypePasteError;
use typepaste::settings::SettingsForm;

#[test]
fn form_shows_config() {
    let f = SettingsForm::new(Config::default_for(Platform::MacOs));
    assert_eq!(f.buf_keystroke_delay, "5");
    assert_eq!(f.buf_random_min, "0");
    assert_eq!(f.buf_random_max, "0");
    assert_eq!(f.buf_initial_delay, "500");
    assert_eq!(f.buf_max_text_length, "100000");
    assert_eq!(f.buf_hotkey, "Cmd+Shift+V");
    assert_eq!(f.buf_paste_hotkey, "");
    assert_eq!(f.status, "");
}

#[test]
fn show_then_read_gives_config_back() {
    let mut c = Config::default_for(Platform::Other);
    c.keystroke_delay_ms = 20;
    c.random_delay_min_ms = 10;
    c.random_delay_max_ms = 80;
    c.paste_hotkey = "Ctrl+Alt+P".to_string();
    let mut f = SettingsForm::new(c.clone());
    f.sync_buffers_to_config();
    assert_eq!(f.config.keystroke_delay_ms, 20);
    assert_eq!(f.config.random_delay_min_ms, 10);
    assert_eq!(f.config.random_delay_max_ms, 80);
    assert_eq!(f.config.initial_delay_ms, c.initial_delay_ms);
    assert_eq!(f.config.max_text_length, c.max_text_length);
    assert_eq!(f.config.hotkey, c.hotkey);
    assert_eq!(f.config.paste_hotkey, c.paste_hotkey);
}

#[test]
fn reading_buffers_parses_trims_and_validates() {
    let mut f = SettingsForm::new(Config::default_for(Platform::Other));
    f.buf_keystroke_delay = " 50 ".to_string();
    f.buf_random_min = "90".to_string();
    f.buf_random_max = "30".to_string();
    f.buf_initial_delay = "abc".to_string();
    f.buf_max_text_length = "-5".to_string();
    f.buf_hotkey = "  Ctrl+Shift+V ".to_string();
    f.buf_paste_hotkey = "\tCtrl+Alt+P\n".to_string();
    f.sync_buffers_to_config();
    assert_eq!(f.config.keystroke_delay_ms, 50);
    assert_eq!((f.config.random_delay_min_ms, f.config.random_delay_max_ms), (30, 90));
    assert_eq!(f.config.initial_delay_ms, 500);
    assert_eq!(f.config.max_text_length, 100_000);
    assert_eq!(f.config.hotkey, "Ctrl+Shift+V");
    assert_eq!(f.config.paste_hotkey, "Ctrl+Alt+P");
}

#[test]
fn config_to_buffers() {
    let mut f = SettingsForm::new(Config::default_for(Platform::Other));
    f.config.keystroke_delay_ms = 123;
    f.config.hotkey = "Cmd+F6".to_string();
    f.sync_config_to_buffers();
    assert_eq!(f.buf_keystroke_delay, "123");
    assert_eq!(f.buf_hotkey, "Cmd+F6");
}

#[test]
fn save_status() {
    let mut f = SettingsForm::new(Config::default_for(Platform::Other));
    f.buf_keystroke_delay = "9".to_string();
    let saved = f.prepare_save();
    assert_eq!(saved.keystroke_delay_ms, 9);
    assert!(f.finish_save(Ok(())));
    assert_eq!(f.status, "✓ Saved and applied.");
    assert!(!f.finish_save(Err(TypePasteError::Io("disk full".to_string()))));
    assert_eq!(f.status, "✗ Save failed: IO error: disk full");
}

#[test]
fn reset_to_defaults() {
    let mut f = SettingsForm::new(Config::default_for(Platform::Other));
    f.config.keystroke_delay_ms = 77;
    f.buf_keystroke_delay = "77".to_string();
    f.reset_defaults(Platform::Windows);
    assert_eq!(f.config.keystroke_delay_ms, 5);
    assert_eq!(f.buf_keystroke_delay, "5");
    assert_eq!(f.buf_hotkey, "Ctrl+Shift+V");
    assert_eq!(f.status, "Reset to defaults (not yet saved).");
}

#[test]
fn effective_delay_preview() {
    let mut f = SettingsForm::new(Config::default_for(Platform::Other));
    assert_eq!(f.effective_delay_label().as_deref(), Some("Effective delay: 5 ms (fixed)"));
    f.buf_keystroke_delay = "20".to_string();
    f.buf_random_min = "10".to_string();
    f.buf_random_max = "80".to_string();
    assert_eq!(f.effective_delay_label().as_deref(), Some("Effective delay: 30..100 ms per keystroke"));
    f.buf_random_max = "x".to_string();
    assert_eq!(f.effective_delay_label(), None);
    f.buf_keystroke_delay = "18446744073709551615".to_string();
    f.buf_random_min = "1".to_string();
    f.buf_random_max = "1".to_string();
    assert_eq!(
        f.effective_delay_label().as_deref(),
        Some("Effective delay: 18446744073709551616..18446744073709551616 ms per keystroke")
    );
}
