//! The command line: its subcommands and arguments, and what the `type`
//! arguments mean for the configuration and the request.
//!
//! Without a subcommand the application runs in the system tray; with one
//! it runs headlessly.

use vstd::prelude::*;
use vstd::string::*;

use crate::config::Config;
use crate::engine::TypingRequest;

verus! {

/// The command line.
#[derive(Debug)]
pub struct Cli {
    pub command: Option<Command>,
}

/// The subcommands.
#[derive(Debug)]
pub enum Command {
    /// Type text as keystrokes into the focused window or a given window.
    Type(TypeArgs),
    /// List the visible windows with their process id, application and title.
    ListWindows(ListWindowsArgs),
    /// Open the settings window.
    Settings,
}

/// Arguments of `type`.
#[derive(Debug)]
pub struct TypeArgs {
    /// Text to type; when absent it comes from the clipboard or stdin.
    pub text: Option<String>,
    /// Read the text from the clipboard.
    pub clipboard: bool,
    /// Read the text from stdin.
    pub stdin: bool,
    /// Target the first window whose title contains this text, ignoring case.
    pub window: Option<String>,
    /// Target a window of this process.
    pub pid: Option<u32>,
    /// Keystroke delay in milliseconds.
    pub delay: Option<u64>,
    /// Smallest random jitter in milliseconds.
    pub random_min: Option<u64>,
    /// Largest random jitter in milliseconds.
    pub random_max: Option<u64>,
    /// Initial delay in milliseconds.
    pub initial_delay: Option<u64>,
    /// Skip the initial delay.
    pub no_delay: bool,
    /// Switch keyboard layouts on the remote system.
    pub layout_switch: bool,
    /// The layout switch hotkey.
    pub layout_switch_hotkey: Option<String>,
    /// Pause after each layout switch, in milliseconds.
    pub layout_switch_delay: Option<u64>,
    /// The layout active when typing starts.
    pub initial_layout: Option<usize>,
}

/// Arguments of `list-windows`.
#[derive(Debug)]
pub struct ListWindowsArgs {
    /// Print JSON.
    pub json: bool,
}

/// Where the text to type comes from.
#[derive(Debug, Clone, PartialEq, Eq)]
pub enum TextSource {
    /// The text given on the command line.
    Given(String),
    Clipboard,
    Stdin,
    /// No text was given and no source was named.
    Missing,
}

/// `value` when present, `fallback` otherwise.
pub open spec fn or_keep<T>(value: Option<T>, fallback: T) -> T {
    match value {
        Some(v) => v,
        None => fallback,
    }
}

impl TypeArgs {
    /// Where the text comes from: the text argument when given, else the
    /// clipboard or stdin as asked.
    pub fn text_source(&self) -> (r: TextSource)
        ensures
            self.text matches Some(t) ==> (r matches TextSource::Given(g) && g@ == t@),
            self.text is None && self.clipboard ==> r == TextSource::Clipboard,
            self.text is None && !self.clipboard && self.stdin ==> r == TextSource::Stdin,
            self.text is None && !self.clipboard && !self.stdin ==> r == TextSource::Missing,
    {
        match &self.text {
            Some(t) => TextSource::Given(t.clone()),
            None => if self.clipboard {
                TextSource::Clipboard
            } else if self.stdin {
                TextSource::Stdin
            } else {
                TextSource::Missing
            },
        }
    }

    /// Applies the overrides to `config`: each delay given replaces the
    /// configured one, `--layout-switch` turns switching on, the switch
    /// options replace theirs; the configuration is then validated.
    pub fn apply_overrides(&self, config: &mut Config)
        ensures
            final(config).keystroke_delay_ms == or_keep(self.delay, old(config).keystroke_delay_ms),
            final(config).initial_delay_ms == or_keep(self.initial_delay, old(config).initial_delay_ms),
            ({
                let low = or_keep(self.random_min, old(config).random_delay_min_ms);
                let high = or_keep(self.random_max, old(config).random_delay_max_ms);
                if low <= high {
                    final(config).random_delay_min_ms == low && final(config).random_delay_max_ms == high
                } else {
                    final(config).random_delay_min_ms == high && final(config).random_delay_max_ms == low
                }
            }),
            final(config).layout_switch.enabled == (self.layout_switch || old(config).layout_switch.enabled),
            self.layout_switch_hotkey matches Some(h) ==> final(config).layout_switch.switch_hotkey@ == h@,
            self.layout_switch_hotkey is None ==> final(config).layout_switch.switch_hotkey
                == old(config).layout_switch.switch_hotkey,
            final(config).layout_switch.switch_delay_ms == or_keep(
                self.layout_switch_delay,
                old(config).layout_switch.switch_delay_ms,
            ),
            final(config).layout_switch.initial_layout == or_keep(
                self.initial_layout,
                old(config).layout_switch.initial_layout,
            ),
            final(config).layout_switch.layouts == old(config).layout_switch.layouts,
            final(config).hotkey == old(config).hotkey,
            final(config).paste_hotkey == old(config).paste_hotkey,
            final(config).max_text_length == old(config).max_text_length,
            final(config).newlines_as_enter == old(config).newlines_as_enter,
            final(config).tabs_as_tab == old(config).tabs_as_tab,
            final(config).show_notification == old(config).show_notification,
            final(config).start_on_login == old(config).start_on_login,
            final(config).spec_is_valid(),
    {
        match self.delay {
            Some(v) => config.keystroke_delay_ms = v,
            None => {},
        }
        match self.random_min {
            Some(v) => config.random_delay_min_ms = v,
            None => {},
        }
        match self.random_max {
            Some(v) => config.random_delay_max_ms = v,
            None => {},
        }
        match self.initial_delay {
            Some(v) => config.initial_delay_ms = v,
            None => {},
        }
        if self.layout_switch {
            config.layout_switch.enabled = true;
        }
        match &self.layout_switch_hotkey {
            Some(h) => config.layout_switch.switch_hotkey = h.clone(),
            None => {},
        }
        match self.layout_switch_delay {
            Some(v) => config.layout_switch.switch_delay_ms = v,
            None => {},
        }
        match self.initial_layout {
            Some(v) => config.layout_switch.initial_layout = v,
            None => {},
        }
        config.validate();
    }

    /// The request that types `text` where these arguments say: into the
    /// window named by `--window` or `--pid` when given, else into the
    /// focused window; after the initial delay unless `--no-delay`.
    pub fn request_for(&self, text: &str) -> (r: TypingRequest)
        ensures
            self.window matches Some(w) ==> (r matches TypingRequest::ToWindowTitle { text: t, title, use_initial_delay }
                && t@ == text@ && title@ == w@ && use_initial_delay == !self.no_delay),
            self.window is None && self.pid is Some ==> (r matches TypingRequest::ToWindowPid {
                text: t,
                pid,
                use_initial_delay,
            } && t@ == text@ && Some(pid) == self.pid && use_initial_delay == !self.no_delay),
            self.window is None && self.pid is None ==> (r matches TypingRequest::Text { text: t, use_initial_delay }
                && t@ == text@ && use_initial_delay == !self.no_delay),
    {
        let use_initial_delay = !self.no_delay;
        match &self.window {
            Some(w) => TypingRequest::ToWindowTitle {
                text: String::from_str(text),
                title: w.clone(),
                use_initial_delay,
            },
            None => match self.pid {
                Some(p) => TypingRequest::ToWindowPid { text: String::from_str(text), pid: p, use_initial_delay },
                None => TypingRequest::Text { text: String::from_str(text), use_initial_delay },
            },
        }
    }
}

} // verus!
