//! The settings form: text buffers for the editable configuration values,
//! read into and out of the configuration, and the status line.
//!
//! The application draws the form, saves the configuration to disk and
//! hands it to the running engine.

use vstd::prelude::*;
use vstd::string::*;

use crate::config::{is_default_config, Config, Platform};
use crate::error::TypePasteError;
use crate::text::{
    chars_of, decimal, decimal_chars_wide, decimal_string, lemma_parse_trimmed_decimal, parse_unsigned,
    parse_unsigned_chars, push_all, string_of, trim_chars, trimmed,
};

verus! {

/// The settings being edited.
#[derive(Debug)]
pub struct SettingsForm {
    /// The configuration as last read from the buffers.
    pub config: Config,
    /// The status line under the buttons.
    pub status: String,
    pub buf_keystroke_delay: String,
    pub buf_random_min: String,
    pub buf_random_max: String,
    pub buf_initial_delay: String,
    pub buf_max_text_length: String,
    pub buf_hotkey: String,
    pub buf_paste_hotkey: String,
}

/// The number a buffer holds, surrounding white space aside, or `fallback`
/// when it holds no number up to `max`.
pub open spec fn number_or(buf: Seq<char>, max: nat, fallback: nat) -> nat {
    match parse_unsigned(trimmed(buf), max) {
        Some(v) => v,
        None => fallback,
    }
}

/// Whether the buffers show the values of `c`: numbers in decimal, the
/// hotkeys as they are.
pub open spec fn shows(f: SettingsForm, c: Config) -> bool {
    &&& f.buf_keystroke_delay@ == decimal(c.keystroke_delay_ms as nat)
    &&& f.buf_random_min@ == decimal(c.random_delay_min_ms as nat)
    &&& f.buf_random_max@ == decimal(c.random_delay_max_ms as nat)
    &&& f.buf_initial_delay@ == decimal(c.initial_delay_ms as nat)
    &&& f.buf_max_text_length@ == decimal(c.max_text_length as nat)
    &&& f.buf_hotkey@ == c.hotkey@
    &&& f.buf_paste_hotkey@ == c.paste_hotkey@
}

/// Whether `c` is what reading the buffers of `f` into `old` gives: every
/// number buffer that holds a number replaces its value, the hotkeys are
/// the trimmed buffers, and the jitter bounds are then put in order.
pub open spec fn read_from(f: SettingsForm, old: Config, c: Config) -> bool {
    let low = number_or(f.buf_random_min@, u64::MAX as nat, old.random_delay_min_ms as nat);
    let high = number_or(f.buf_random_max@, u64::MAX as nat, old.random_delay_max_ms as nat);
    &&& c.keystroke_delay_ms == number_or(f.buf_keystroke_delay@, u64::MAX as nat, old.keystroke_delay_ms as nat)
    &&& c.initial_delay_ms == number_or(f.buf_initial_delay@, u64::MAX as nat, old.initial_delay_ms as nat)
    &&& c.max_text_length == number_or(f.buf_max_text_length@, usize::MAX as nat, old.max_text_length as nat)
    &&& (if low <= high {
        c.random_delay_min_ms == low && c.random_delay_max_ms == high
    } else {
        c.random_delay_min_ms == high && c.random_delay_max_ms == low
    })
    &&& c.hotkey@ == trimmed(f.buf_hotkey@)
    &&& c.paste_hotkey@ == trimmed(f.buf_paste_hotkey@)
    &&& c.show_notification == old.show_notification
    &&& c.start_on_login == old.start_on_login
    &&& c.newlines_as_enter == old.newlines_as_enter
    &&& c.tabs_as_tab == old.tabs_as_tab
    &&& c.layout_switch == old.layout_switch
}

/// The number in `buf`, surrounding white space aside, if it holds one up
/// to `max`.
fn read_number(buf: &String, max: u64) -> (r: Option<u64>)
    ensures
        r matches Some(v) ==> parse_unsigned(trimmed(buf@), max as nat) == Some(v as nat),
        r is None ==> parse_unsigned(trimmed(buf@), max as nat) is None,
{
    let t = trim_chars(chars_of(buf.as_str()).as_slice());
    parse_unsigned_chars(t.as_slice(), max)
}

/// `buf` with white space trimmed from both ends.
fn trimmed_copy(buf: &String) -> (r: String)
    ensures
        r@ == trimmed(buf@),
{
    let t = trim_chars(chars_of(buf.as_str()).as_slice());
    string_of(t.as_slice())
}

/// The status after a successful save.
pub open spec fn saved_status() -> Seq<char> {
    "✓ Saved and applied."@
}

/// The status after a failed save.
pub open spec fn failed_status(e: TypePasteError) -> Seq<char> {
    "✗ Save failed: "@ + e.spec_message()
}

/// The status after resetting to defaults.
pub open spec fn reset_status() -> Seq<char> {
    "Reset to defaults (not yet saved)."@
}

impl SettingsForm {
    /// A form showing `config`, with an empty status line.
    pub fn new(config: Config) -> (f: SettingsForm)
        ensures
            f.config == config,
            shows(f, config),
            f.status@ == Seq::<char>::empty(),
    {
        let buf_keystroke_delay = decimal_string(config.keystroke_delay_ms);
        let buf_random_min = decimal_string(config.random_delay_min_ms);
        let buf_random_max = decimal_string(config.random_delay_max_ms);
        let buf_initial_delay = decimal_string(config.initial_delay_ms);
        let buf_max_text_length = decimal_string(config.max_text_length as u64);
        let buf_hotkey = config.hotkey.clone();
        let buf_paste_hotkey = config.paste_hotkey.clone();
        SettingsForm {
            config,
            status: String::new(),
            buf_keystroke_delay,
            buf_random_min,
            buf_random_max,
            buf_initial_delay,
            buf_max_text_length,
            buf_hotkey,
            buf_paste_hotkey,
        }
    }

    /// Reads the buffers into the configuration: a buffer that holds a
    /// number sets its value (one that does not leaves it), the hotkeys are
    /// taken trimmed, and the configuration is then validated.
    pub fn sync_buffers_to_config(&mut self)
        ensures
            read_from(*old(self), old(self).config, final(self).config),
            final(self).config.spec_is_valid(),
            final(self).status == old(self).status,
            final(self).buf_keystroke_delay == old(self).buf_keystroke_delay,
            final(self).buf_random_min == old(self).buf_random_min,
            final(self).buf_random_max == old(self).buf_random_max,
            final(self).buf_initial_delay == old(self).buf_initial_delay,
            final(self).buf_max_text_length == old(self).buf_max_text_length,
            final(self).buf_hotkey == old(self).buf_hotkey,
            final(self).buf_paste_hotkey == old(self).buf_paste_hotkey,
    {
        match read_number(&self.buf_keystroke_delay, u64::MAX) {
            Some(v) => self.config.keystroke_delay_ms = v,
            None => {},
        }
        match read_number(&self.buf_random_min, u64::MAX) {
            Some(v) => self.config.random_delay_min_ms = v,
            None => {},
        }
        match read_number(&self.buf_random_max, u64::MAX) {
            Some(v) => self.config.random_delay_max_ms = v,
            None => {},
        }
        match read_number(&self.buf_initial_delay, u64::MAX) {
            Some(v) => self.config.initial_delay_ms = v,
            None => {},
        }
        match read_number(&self.buf_max_text_length, usize::MAX as u64) {
            Some(v) => self.config.max_text_length = v as usize,
            None => {},
        }
        self.config.hotkey = trimmed_copy(&self.buf_hotkey);
        self.config.paste_hotkey = trimmed_copy(&self.buf_paste_hotkey);
        self.config.validate();
    }

    /// Shows the configuration's values in the buffers.
    pub fn sync_config_to_buffers(&mut self)
        ensures
            shows(*final(self), old(self).config),
            final(self).config == old(self).config,
            final(self).status == old(self).status,
    {
        self.buf_keystroke_delay = decimal_string(self.config.keystroke_delay_ms);
        self.buf_random_min = decimal_string(self.config.random_delay_min_ms);
        self.buf_random_max = decimal_string(self.config.random_delay_max_ms);
        self.buf_initial_delay = decimal_string(self.config.initial_delay_ms);
        self.buf_max_text_length = decimal_string(self.config.max_text_length as u64);
        self.buf_hotkey = self.config.hotkey.clone();
        self.buf_paste_hotkey = self.config.paste_hotkey.clone();
    }

    /// The first half of "Save & Apply": reads the buffers into the
    /// configuration, which the application then saves.
    pub fn prepare_save(&mut self) -> (c: &Config)
        ensures
            read_from(*old(self), old(self).config, final(self).config),
            final(self).config.spec_is_valid(),
            *c == final(self).config,
    {
        self.sync_buffers_to_config();
        &self.config
    }

    /// The second half of "Save & Apply", given how saving went: the status
    /// line reports it, and the result says whether the running engine
    /// takes the new configuration.
    pub fn finish_save(&mut self, saved: Result<(), TypePasteError>) -> (apply: bool)
        ensures
            apply == saved is Ok,
            saved is Ok ==> final(self).status@ == saved_status(),
            saved matches Err(e) ==> final(self).status@ == failed_status(e),
            final(self).config == old(self).config,
    {
        match saved {
            Ok(()) => {
                self.status = String::from_str("✓ Saved and applied.");
                true
            },
            Err(e) => {
                let mut s = String::from_str("✗ Save failed: ");
                let m = e.message();
                s.append(m.as_str());
                self.status = s;
                false
            },
        }
    }

    /// Resets the configuration to the defaults on `platform` and shows
    /// them; nothing is saved yet.
    pub fn reset_defaults(&mut self, platform: Platform)
        ensures
            is_default_config(final(self).config, platform),
            shows(*final(self), final(self).config),
            final(self).status@ == reset_status(),
    {
        self.config = Config::default_for(platform);
        self.sync_config_to_buffers();
        self.status = String::from_str("Reset to defaults (not yet saved).");
    }
}

/// The delay preview for the delay buffers, when all three hold numbers:
/// the range `base + min .. base + max` per keystroke when jitter is on,
/// the fixed delay otherwise.
pub open spec fn delay_preview(f: SettingsForm) -> Option<Seq<char>> {
    match (
        parse_unsigned(trimmed(f.buf_keystroke_delay@), u64::MAX as nat),
        parse_unsigned(trimmed(f.buf_random_min@), u64::MAX as nat),
        parse_unsigned(trimmed(f.buf_random_max@), u64::MAX as nat),
    ) {
        (Some(base), Some(low), Some(high)) => Some(
            if high > 0 {
                "Effective delay: "@ + decimal(base + low) + ".."@ + decimal(base + high) + " ms per keystroke"@
            } else {
                "Effective delay: "@ + decimal(base) + " ms (fixed)"@
            },
        ),
        _ => None,
    }
}

impl SettingsForm {
    /// The delay preview shown under the jitter settings.
    pub fn effective_delay_label(&self) -> (r: Option<String>)
        ensures
            r matches Some(s) ==> delay_preview(*self) == Some(s@),
            r is None ==> delay_preview(*self) is None,
    {
        let base = read_number(&self.buf_keystroke_delay, u64::MAX);
        let low = read_number(&self.buf_random_min, u64::MAX);
        let high = read_number(&self.buf_random_max, u64::MAX);
        match (base, low, high) {
            (Some(b), Some(lo), Some(hi)) => {
                let mut s = String::from_str("Effective delay: ");
                if hi > 0 {
                    let first = decimal_chars_wide(b as u128 + lo as u128);
                    push_all(&mut s, first.as_slice());
                    s.append("..");
                    let second = decimal_chars_wide(b as u128 + hi as u128);
                    push_all(&mut s, second.as_slice());
                    s.append(" ms per keystroke");
                } else {
                    let fixed = decimal_chars_wide(b as u128);
                    push_all(&mut s, fixed.as_slice());
                    s.append(" ms (fixed)");
                }
                Some(s)
            },
            _ => None,
        }
    }
}

/// Reading back buffers that show a configuration gives that
/// configuration again, when its jitter bounds are in order and its
/// hotkeys have no surrounding white space.
pub proof fn lemma_show_then_read(f: SettingsForm, c: Config)
    requires
        shows(f, c),
        c.spec_is_valid(),
        trimmed(c.hotkey@) == c.hotkey@,
        trimmed(c.paste_hotkey@) == c.paste_hotkey@,
    ensures
        read_from(f, c, c),
{
    lemma_parse_trimmed_decimal(c.keystroke_delay_ms as nat, u64::MAX as nat);
    lemma_parse_trimmed_decimal(c.random_delay_min_ms as nat, u64::MAX as nat);
    lemma_parse_trimmed_decimal(c.random_delay_max_ms as nat, u64::MAX as nat);
    lemma_parse_trimmed_decimal(c.initial_delay_ms as nat, u64::MAX as nat);
    lemma_parse_trimmed_decimal(c.max_text_length as nat, usize::MAX as nat);
}

/// The delay preview shows a range exactly when the largest jitter is not
/// zero: with the buffers holding the numbers `base`, `low` and `high`, it
/// is "Effective delay: <base+low>..<base+high> ms per keystroke" when
/// `high > 0`, whatever `low` is, and "Effective delay: <base> ms (fixed)"
/// when `high` is 0.
pub proof fn lemma_preview_forms(f: SettingsForm, base: nat, low: nat, high: nat)
    requires
        parse_unsigned(trimmed(f.buf_keystroke_delay@), u64::MAX as nat) == Some(base),
        parse_unsigned(trimmed(f.buf_random_min@), u64::MAX as nat) == Some(low),
        parse_unsigned(trimmed(f.buf_random_max@), u64::MAX as nat) == Some(high),
    ensures
        high > 0 ==> delay_preview(f) == Some(
            "Effective delay: "@ + decimal(base + low) + ".."@ + decimal(base + high) + " ms per keystroke"@,
        ),
        high == 0 ==> delay_preview(f) == Some("Effective delay: "@ + decimal(base) + " ms (fixed)"@),
{
}

/// The preview agrees with what saving makes of the same buffers: when
/// the jitter bounds are in order, the range form is shown exactly when
/// the configuration read from the buffers has jitter on.
pub proof fn lemma_preview_agrees_with_saved_jitter(
    f: SettingsForm,
    old: Config,
    c: Config,
    base: nat,
    low: nat,
    high: nat,
)
    requires
        parse_unsigned(trimmed(f.buf_keystroke_delay@), u64::MAX as nat) == Some(base),
        parse_unsigned(trimmed(f.buf_random_min@), u64::MAX as nat) == Some(low),
        parse_unsigned(trimmed(f.buf_random_max@), u64::MAX as nat) == Some(high),
        low <= high,
        read_from(f, old, c),
    ensures
        c.spec_has_random_delay() <==> high > 0,
        c.spec_has_random_delay() ==> delay_preview(f) == Some(
            "Effective delay: "@ + decimal(base + low) + ".."@ + decimal(base + high) + " ms per keystroke"@,
        ),
        !c.spec_has_random_delay() ==> delay_preview(f) == Some("Effective delay: "@ + decimal(base) + " ms (fixed)"@),
{
    lemma_preview_forms(f, base, low, high);
}

} // verus!
