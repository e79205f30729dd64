//! Application configuration: typing delays, hotkeys, limits and keyboard
//! layout switching.

use vstd::prelude::*;
use vstd::string::*;

verus! {

/// The operating system the application runs on; some defaults differ.
#[derive(Debug, Clone, Copy, PartialEq, Eq, Structural)]
pub enum Platform {
    MacOs,
    Windows,
    Other,
}

/// An inclusive range of Unicode code points.
#[derive(Debug, Clone, Copy, PartialEq, Eq, Structural)]
pub struct CharRange {
    pub first: u32,
    pub last: u32,
}

/// A keyboard layout of the remote system and the characters it types.
#[derive(Debug, Clone)]
pub struct KeyboardLayout {
    pub name: String,
    pub ranges: Vec<CharRange>,
}

/// Automatic keyboard layout switching on the remote system.
#[derive(Debug, Clone)]
pub struct LayoutSwitchConfig {
    /// Whether layout switching is enabled.
    pub enabled: bool,
    /// The layouts, in the order the switch hotkey cycles through them.
    pub layouts: Vec<KeyboardLayout>,
    /// The hotkey that switches to the next layout (e.g. "Alt+Shift").
    pub switch_hotkey: String,
    /// Pause after each switch press, in milliseconds.
    pub switch_delay_ms: u64,
    /// The layout assumed to be active when typing starts.
    pub initial_layout: usize,
}

/// Application configuration persisted to disk.
#[derive(Debug, Clone)]
pub struct Config {
    /// Fixed delay between keystrokes in milliseconds.
    pub keystroke_delay_ms: u64,
    /// Smallest random jitter added to each keystroke delay.
    pub random_delay_min_ms: u64,
    /// Largest random jitter added to each keystroke delay; 0 disables jitter.
    pub random_delay_max_ms: u64,
    /// Delay before typing starts, to let the user focus the target window.
    pub initial_delay_ms: u64,
    /// Whether to show a notification before typing starts.
    pub show_notification: bool,
    /// Whether to start the application on system login.
    pub start_on_login: bool,
    /// Primary global hotkey (e.g. "Cmd+Shift+V").
    pub hotkey: String,
    /// Optional additional hotkey; empty when disabled.
    pub paste_hotkey: String,
    /// Maximum number of characters typed in one go.
    pub max_text_length: usize,
    /// Whether a newline is typed as the Enter key.
    pub newlines_as_enter: bool,
    /// Whether a tab is typed as the Tab key.
    pub tabs_as_tab: bool,
    /// Keyboard layout switching.
    pub layout_switch: LayoutSwitchConfig,
}

/// Whether some range of `ranges` holds the code point of `c`.
pub open spec fn in_ranges(ranges: Seq<CharRange>, c: char) -> bool {
    exists|k: int| 0 <= k < ranges.len() && ranges[k].first <= c as u32 && c as u32 <= ranges[k].last
}

/// The index of the first layout of `layouts`, from `from` on, that types `c`.
pub open spec fn first_layout_from(layouts: Seq<KeyboardLayout>, c: char, from: int) -> Option<int>
    decreases layouts.len() - from,
{
    if from < 0 || from >= layouts.len() {
        None
    } else if in_ranges(layouts[from].ranges@, c) {
        Some(from)
    } else {
        first_layout_from(layouts, c, from + 1)
    }
}

impl LayoutSwitchConfig {
    /// The layout that types `c`: the first layout whose ranges hold it.
    pub open spec fn spec_layout_for_char(&self, c: char) -> Option<int> {
        first_layout_from(self.layouts@, c, 0)
    }

    /// The number of switch presses that go from layout `current` to layout
    /// `needed`, the hotkey cycling through the layouts in order.
    pub open spec fn spec_presses_needed(&self, current: int, needed: int) -> int {
        let n = self.layouts@.len() as int;
        (needed + n - current) % n
    }

    /// Whether layout switching takes part in typing: it is enabled, there is
    /// more than one layout, and a switch hotkey is set.
    pub open spec fn spec_active(&self) -> bool {
        self.enabled && self.layouts@.len() > 1 && self.switch_hotkey@.len() > 0
    }

    /// The layout assumed active when typing starts.
    pub open spec fn spec_start_layout(&self) -> int {
        if self.initial_layout < self.layouts@.len() { self.initial_layout as int } else { 0 }
    }

    /// The layout that types `c`, if any.
    pub fn layout_for_char(&self, c: char) -> (r: Option<usize>)
        ensures
            r matches Some(i) ==> self.spec_layout_for_char(c) == Some(i as int) && i < self.layouts@.len(),
            r is None ==> self.spec_layout_for_char(c) is None,
    {
        let code = c as u32;
        let mut i: usize = 0;
        while i < self.layouts.len()
            invariant
                i <= self.layouts@.len(),
                code == c as u32,
                first_layout_from(self.layouts@, c, 0) == first_layout_from(self.layouts@, c, i as int),
            decreases self.layouts.len() - i,
        {
            let ranges = &self.layouts[i].ranges;
            let mut k: usize = 0;
            let mut found = false;
            while k < ranges.len()
                invariant
                    i < self.layouts@.len(),
                    code == c as u32,
                    ranges == self.layouts@[i as int].ranges,
                    k <= ranges@.len(),
                    found ==> in_ranges(ranges@, c),
                    !found ==> forall|m: int| 0 <= m < k ==> !(ranges@[m].first <= c as u32 && c as u32 <= ranges@[m].last),
                decreases ranges.len() - k,
            {
                let r = ranges[k];
                if r.first <= code && code <= r.last {
                    assert(ranges@[k as int].first <= c as u32 && c as u32 <= ranges@[k as int].last);
                    found = true;
                }
                k += 1;
            }
            if found {
                return Some(i);
            }
            assert(!in_ranges(self.layouts@[i as int].ranges@, c));
            i += 1;
        }
        None
    }

    /// How many times the switch hotkey is pressed to go from layout
    /// `current` to layout `needed`.
    pub fn presses_needed(&self, current: usize, needed: usize) -> (r: usize)
        requires
            current < self.layouts@.len(),
            needed < self.layouts@.len(),
        ensures
            r as int == self.spec_presses_needed(current as int, needed as int),
    {
        let n = self.layouts.len();
        if needed >= current {
            assert((needed + n - current) % (n as int) == needed - current) by (nonlinear_arith)
                requires needed >= current, current < n, needed < n;
            needed - current
        } else {
            assert((needed + n - current) % (n as int) == needed + n - current) by (nonlinear_arith)
                requires needed < current, current < n, needed < n;
            needed + (n - current)
        }
    }

    /// Whether layout switching takes part in typing.
    pub fn active(&self) -> (b: bool)
        ensures
            b == self.spec_active(),
    {
        self.enabled && self.layouts.len() > 1 && !self.switch_hotkey.as_str().is_empty()
    }

    /// The layout assumed active when typing starts.
    pub fn start_layout(&self) -> (r: usize)
        ensures
            r as int == self.spec_start_layout(),
    {
        if self.initial_layout < self.layouts.len() { self.initial_layout } else { 0 }
    }
}

/// Pressing the switch hotkey the computed number of times from one layout
/// lands on the wanted layout, in fewer presses than there are layouts.
pub proof fn lemma_presses_reach_layout(ls: &LayoutSwitchConfig, current: int, needed: int)
    requires
        0 <= current < ls.layouts@.len(),
        0 <= needed < ls.layouts@.len(),
    ensures
        0 <= ls.spec_presses_needed(current, needed) < ls.layouts@.len(),
        (current + ls.spec_presses_needed(current, needed)) % (ls.layouts@.len() as int) == needed,
        current == needed ==> ls.spec_presses_needed(current, needed) == 0,
{
    let n = ls.layouts@.len() as int;
    if needed >= current {
        assert((needed + n - current) % n == needed - current) by (nonlinear_arith)
            requires needed >= current, current < n, needed < n, 0 <= current, 0 <= needed;
        assert((current + (needed - current)) % n == needed) by (nonlinear_arith)
            requires 0 <= needed < n;
    } else {
        assert((needed + n - current) % n == needed + n - current) by (nonlinear_arith)
            requires needed < current, current < n, needed < n, 0 <= current, 0 <= needed;
        assert((current + (needed + n - current)) % n == needed) by (nonlinear_arith)
            requires 0 <= needed < n;
    }
}


/// The default primary hotkey on `platform`.
pub open spec fn default_hotkey(platform: Platform) -> Seq<char> {
    if platform == Platform::MacOs { "Cmd+Shift+V"@ } else { "Ctrl+Shift+V"@ }
}

/// The default layouts: Latin letters, then Cyrillic.
pub open spec fn is_default_layouts(layouts: Seq<KeyboardLayout>) -> bool {
    &&& layouts.len() == 2
    &&& layouts[0].name@ == "English"@
    &&& layouts[0].ranges@ == seq![CharRange { first: 0x41, last: 0x5A }, CharRange { first: 0x61, last: 0x7A }]
    &&& layouts[1].name@ == "Russian"@
    &&& layouts[1].ranges@ == seq![CharRange { first: 0x400, last: 0x4FF }]
}

/// Whether `ls` holds the default layout switching settings: off, the
/// default layouts, "Alt+Shift", 100 ms after each press, first layout.
pub open spec fn is_default_layout_switch(ls: LayoutSwitchConfig) -> bool {
    &&& !ls.enabled
    &&& is_default_layouts(ls.layouts@)
    &&& ls.switch_hotkey@ == "Alt+Shift"@
    &&& ls.switch_delay_ms == 100
    &&& ls.initial_layout == 0
}

/// Whether `c` holds the documented defaults on `platform`.
pub open spec fn is_default_config(c: Config, platform: Platform) -> bool {
    &&& c.keystroke_delay_ms == 5
    &&& c.random_delay_min_ms == 0
    &&& c.random_delay_max_ms == 0
    &&& c.initial_delay_ms == 500
    &&& c.show_notification
    &&& !c.start_on_login
    &&& c.hotkey@ == default_hotkey(platform)
    &&& c.paste_hotkey@ == Seq::<char>::empty()
    &&& c.max_text_length == 100_000
    &&& c.newlines_as_enter
    &&& c.tabs_as_tab
    &&& is_default_layout_switch(c.layout_switch)
}

impl LayoutSwitchConfig {
    /// The default layout switching settings.
    pub fn default_settings() -> (r: LayoutSwitchConfig)
        ensures
            is_default_layout_switch(r),
    {
        let mut latin: Vec<CharRange> = Vec::new();
        latin.push(CharRange { first: 0x41, last: 0x5A });
        latin.push(CharRange { first: 0x61, last: 0x7A });
        let mut cyrillic: Vec<CharRange> = Vec::new();
        cyrillic.push(CharRange { first: 0x400, last: 0x4FF });
        assert(latin@ =~= seq![CharRange { first: 0x41, last: 0x5A }, CharRange { first: 0x61, last: 0x7A }]);
        assert(cyrillic@ =~= seq![CharRange { first: 0x400, last: 0x4FF }]);
        let mut layouts: Vec<KeyboardLayout> = Vec::new();
        layouts.push(KeyboardLayout { name: String::from_str("English"), ranges: latin });
        layouts.push(KeyboardLayout { name: String::from_str("Russian"), ranges: cyrillic });
        LayoutSwitchConfig {
            enabled: false,
            layouts,
            switch_hotkey: String::from_str("Alt+Shift"),
            switch_delay_ms: 100,
            initial_layout: 0,
        }
    }
}

impl Config {
    /// The default configuration on `platform`.
    pub fn default_for(platform: Platform) -> (r: Config)
        ensures
            is_default_config(r, platform),
    {
        let hotkey = match platform {
            Platform::MacOs => String::from_str("Cmd+Shift+V"),
            _ => String::from_str("Ctrl+Shift+V"),
        };
        Config {
            keystroke_delay_ms: 5,
            random_delay_min_ms: 0,
            random_delay_max_ms: 0,
            initial_delay_ms: 500,
            show_notification: true,
            start_on_login: false,
            hotkey,
            paste_hotkey: String::new(),
            max_text_length: 100_000,
            newlines_as_enter: true,
            tabs_as_tab: true,
            layout_switch: LayoutSwitchConfig::default_settings(),
        }
    }

    /// Whether each keystroke gets random jitter on top of the fixed delay.
    pub open spec fn spec_has_random_delay(&self) -> bool {
        self.random_delay_max_ms > 0 && self.random_delay_min_ms <= self.random_delay_max_ms
    }

    /// Whether each keystroke gets random jitter: the largest jitter is not
    /// zero and the range is not empty.
    pub fn has_random_delay(&self) -> (b: bool)
        ensures
            b == self.spec_has_random_delay(),
    {
        self.random_delay_max_ms > 0 && self.random_delay_min_ms <= self.random_delay_max_ms
    }

    /// Whether the jitter bounds are in order.
    pub open spec fn spec_is_valid(&self) -> bool {
        self.random_delay_min_ms <= self.random_delay_max_ms
    }

    /// Puts the jitter bounds in order, swapping them when the smallest
    /// exceeds the largest; leaves everything else as it is.
    pub fn validate(&mut self)
        ensures
            final(self).spec_is_valid(),
            old(self).spec_is_valid() ==> *final(self) == *old(self),
            !old(self).spec_is_valid() ==> {
                &&& final(self).random_delay_min_ms == old(self).random_delay_max_ms
                &&& final(self).random_delay_max_ms == old(self).random_delay_min_ms
            },
            final(self).keystroke_delay_ms == old(self).keystroke_delay_ms,
            final(self).initial_delay_ms == old(self).initial_delay_ms,
            final(self).show_notification == old(self).show_notification,
            final(self).start_on_login == old(self).start_on_login,
            final(self).hotkey == old(self).hotkey,
            final(self).paste_hotkey == old(self).paste_hotkey,
            final(self).max_text_length == old(self).max_text_length,
            final(self).newlines_as_enter == old(self).newlines_as_enter,
            final(self).tabs_as_tab == old(self).tabs_as_tab,
            final(self).layout_switch == old(self).layout_switch,
    {
        if self.random_delay_min_ms > self.random_delay_max_ms {
            let low = self.random_delay_max_ms;
            self.random_delay_max_ms = self.random_delay_min_ms;
            self.random_delay_min_ms = low;
        }
    }
}

/// In a validated configuration jitter is on exactly when its largest value
/// is not zero, as the documentation describes ("set to 0 to disable").
pub proof fn lemma_valid_config_jitter(c: Config)
    requires
        c.spec_is_valid(),
    ensures
        c.spec_has_random_delay() <==> c.random_delay_max_ms > 0,
{
}

} // verus!
