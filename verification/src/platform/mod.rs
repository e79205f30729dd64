//! What every platform shares: the keystrokes that type a text, the delay
//! after each keystroke, and the description of a window.
//!
//! Each platform module provides `check_accessibility` (may keystrokes be
//! injected?) and the decisions around its own window and key APIs.

pub mod fallback;
pub mod windows;
pub mod macos;

use rand::Rng;
use vstd::prelude::*;
use vstd::string::*;

use crate::config::{first_layout_from, in_ranges, lemma_presses_reach_layout, Config, LayoutSwitchConfig};
use crate::error::TypePasteError;
use crate::text::chars_of;

verus! {

/// One step of typing a text.
#[derive(Debug, Clone, Copy, PartialEq, Eq, Structural)]
pub enum Keystroke {
    /// Press the layout switch hotkey once.
    SwitchLayout,
    /// Press Enter.
    Enter,
    /// Press Tab.
    Tab,
    /// Type this character.
    Char(char),
}

/// A visible window: its title, the process that owns it and that
/// process's name.
#[derive(Debug, Clone)]
pub struct WindowInfo {
    pub title: String,
    pub pid: u32,
    pub app_name: String,
}

/// The keys that type `c` itself (after any layout switch): Enter for a
/// newline and Tab for a tab when so configured, nothing for a carriage
/// return, and the character otherwise.
pub open spec fn char_keys(cfg: Config, c: char) -> Seq<Keystroke> {
    if c == '\n' && cfg.newlines_as_enter {
        seq![Keystroke::Enter]
    } else if c == '\t' && cfg.tabs_as_tab {
        seq![Keystroke::Tab]
    } else if c == '\r' {
        Seq::empty()
    } else {
        seq![Keystroke::Char(c)]
    }
}

/// The layout to switch to before typing `c` while layout `cur` is active,
/// if a switch is needed.
pub open spec fn switch_target(ls: LayoutSwitchConfig, c: char, cur: int) -> Option<int> {
    if ls.spec_active() {
        match ls.spec_layout_for_char(c) {
            Some(needed) => if needed != cur { Some(needed) } else { None },
            None => None,
        }
    } else {
        None
    }
}

/// `n` presses of the layout switch hotkey.
pub open spec fn switches(n: nat) -> Seq<Keystroke> {
    Seq::new(n, |i: int| Keystroke::SwitchLayout)
}

/// The keystrokes for `c` with layout `cur` active, and the layout active
/// afterwards.
pub open spec fn step_keys(cfg: Config, c: char, cur: int) -> (Seq<Keystroke>, int) {
    match switch_target(cfg.layout_switch, c, cur) {
        Some(needed) => (
            switches(cfg.layout_switch.spec_presses_needed(cur, needed) as nat) + char_keys(cfg, c),
            needed,
        ),
        None => (char_keys(cfg, c), cur),
    }
}

/// The keystrokes that type `s` starting with layout `cur` active.
pub open spec fn plan_from(cfg: Config, s: Seq<char>, cur: int) -> Seq<Keystroke>
    decreases s.len(),
{
    if s.len() == 0 {
        Seq::empty()
    } else {
        let (keys, next) = step_keys(cfg, s[0], cur);
        keys + plan_from(cfg, s.drop_first(), next)
    }
}

/// The keystrokes that type `s` under `cfg`.
pub open spec fn spec_plan(cfg: Config, s: Seq<char>) -> Seq<Keystroke> {
    plan_from(cfg, s, cfg.layout_switch.spec_start_layout())
}

/// The keys that type the characters of `s`, leaving layout switching aside.
pub open spec fn typed_keys(cfg: Config, s: Seq<char>) -> Seq<Keystroke>
    decreases s.len(),
{
    if s.len() == 0 {
        Seq::empty()
    } else {
        char_keys(cfg, s[0]) + typed_keys(cfg, s.drop_first())
    }
}

/// `keys` without the layout switch presses.
pub open spec fn without_switches(keys: Seq<Keystroke>) -> Seq<Keystroke>
    decreases keys.len(),
{
    if keys.len() == 0 {
        Seq::empty()
    } else if keys[0] == Keystroke::SwitchLayout {
        without_switches(keys.drop_first())
    } else {
        seq![keys[0]] + without_switches(keys.drop_first())
    }
}

proof fn lemma_plan_from_skip(cfg: Config, s: Seq<char>, i: int, cur: int)
    requires
        0 <= i < s.len(),
    ensures
        plan_from(cfg, s.skip(i), cur)
            == step_keys(cfg, s[i], cur).0 + plan_from(cfg, s.skip(i + 1), step_keys(cfg, s[i], cur).1),
{
    assert(s.skip(i).drop_first() =~= s.skip(i + 1));
    assert(s.skip(i)[0] == s[i]);
}

/// Appends the keys that type `c` itself.
fn push_char_keys(keys: &mut Vec<Keystroke>, config: &Config, c: char)
    ensures
        final(keys)@ == old(keys)@ + char_keys(*config, c),
{
    if c == '\n' && config.newlines_as_enter {
        keys.push(Keystroke::Enter);
    } else if c == '\t' && config.tabs_as_tab {
        keys.push(Keystroke::Tab);
    } else if c == '\r' {
    } else {
        keys.push(Keystroke::Char(c));
    }
    assert(keys@ =~= old(keys)@ + char_keys(*config, c));
}

/// The keystrokes that type `text` under `config`: one key per character
/// (Enter for a newline, Tab for a tab when so configured, nothing for a
/// carriage return), each preceded, when layout switching is active and the
/// character belongs to another layout, by enough switch presses to reach
/// that layout.
pub fn plan_keystrokes(text: &str, config: &Config) -> (keys: Vec<Keystroke>)
    ensures
        keys@ == spec_plan(*config, text@),
{
    let chars = chars_of(text);
    let ls = &config.layout_switch;
    let active = ls.active();
    let mut cur = ls.start_layout();
    let mut keys: Vec<Keystroke> = Vec::new();
    let mut i: usize = 0;
    assert(chars@.skip(0) =~= chars@);
    while i < chars.len()
        invariant
            i <= chars@.len(),
            chars@ == text@,
            ls == &config.layout_switch,
            active == ls.spec_active(),
            active ==> cur < ls.layouts@.len(),
            keys@ + plan_from(*config, chars@.skip(i as int), cur as int) == spec_plan(*config, text@),
        decreases chars.len() - i,
    {
        let c = chars[i];
        proof {
            lemma_plan_from_skip(*config, chars@, i as int, cur as int);
        }
        let ghost before = keys@;
        let ghost step = step_keys(*config, c, cur as int);
        if active {
            match ls.layout_for_char(c) {
                Some(needed) => {
                    if needed != cur {
                        let presses = ls.presses_needed(cur, needed);
                        let mut p: usize = 0;
                        while p < presses
                            invariant
                                p <= presses,
                                keys@ == before + switches(p as nat),
                            decreases presses - p,
                        {
                            keys.push(Keystroke::SwitchLayout);
                            assert(switches((p + 1) as nat) =~= switches(p as nat).push(Keystroke::SwitchLayout));
                            p += 1;
                        }
                        cur = needed;
                    }
                },
                None => {},
            }
        }
        push_char_keys(&mut keys, config, c);
        proof {
            assert(keys@ =~= before + step.0);
            assert(cur as int == step.1);
            assert(keys@ + plan_from(*config, chars@.skip(i + 1), cur as int)
                =~= before + (step.0 + plan_from(*config, chars@.skip(i + 1), step.1)));
        }
        i += 1;
    }
    proof {
        assert(chars@.skip(i as int) =~= Seq::<char>::empty());
        assert(keys@ + Seq::<Keystroke>::empty() =~= keys@);
    }
    keys
}


proof fn lemma_without_switches_concat(a: Seq<Keystroke>, b: Seq<Keystroke>)
    ensures
        without_switches(a + b) == without_switches(a) + without_switches(b),
    decreases a.len(),
{
    if a.len() == 0 {
        assert(a + b =~= b);
    } else {
        assert((a + b).drop_first() =~= a.drop_first() + b);
        assert((a + b)[0] == a[0]);
        lemma_without_switches_concat(a.drop_first(), b);
    }
}

proof fn lemma_without_switches_presses(n: nat)
    ensures
        without_switches(switches(n)) == Seq::<Keystroke>::empty(),
    decreases n,
{
    if n > 0 {
        assert(switches(n).drop_first() =~= switches((n - 1) as nat));
        lemma_without_switches_presses((n - 1) as nat);
    }
}

proof fn lemma_without_switches_char(cfg: Config, c: char)
    ensures
        without_switches(char_keys(cfg, c)) == char_keys(cfg, c),
{
    let k = char_keys(cfg, c);
    assert(without_switches(Seq::<Keystroke>::empty()) == Seq::<Keystroke>::empty());
    if k.len() == 1 {
        assert(k[0] != Keystroke::SwitchLayout);
        assert(k.drop_first() =~= Seq::<Keystroke>::empty());
        assert(without_switches(k) == seq![k[0]] + without_switches(k.drop_first()));
        assert(seq![k[0]] + Seq::<Keystroke>::empty() =~= k);
    } else {
        assert(k.len() == 0);
    }
}

proof fn lemma_plan_from_typed(cfg: Config, s: Seq<char>, cur: int)
    ensures
        without_switches(plan_from(cfg, s, cur)) == typed_keys(cfg, s),
        !cfg.layout_switch.spec_active() ==> plan_from(cfg, s, cur) == typed_keys(cfg, s),
    decreases s.len(),
{
    if s.len() > 0 {
        let (keys, next) = step_keys(cfg, s[0], cur);
        lemma_plan_from_typed(cfg, s.drop_first(), next);
        lemma_without_switches_concat(keys, plan_from(cfg, s.drop_first(), next));
        lemma_without_switches_char(cfg, s[0]);
        match switch_target(cfg.layout_switch, s[0], cur) {
            Some(needed) => {
                let n = cfg.layout_switch.spec_presses_needed(cur, needed) as nat;
                lemma_without_switches_concat(switches(n), char_keys(cfg, s[0]));
                lemma_without_switches_presses(n);
                assert(Seq::<Keystroke>::empty() + char_keys(cfg, s[0]) =~= char_keys(cfg, s[0]));
            },
            None => {},
        }
    }
}

/// Leaving the layout switch presses aside, the plan for a text is one key
/// per character, in order: Enter for a newline and Tab for a tab when so
/// configured, nothing for a carriage return, the character itself otherwise;
/// and when layout switching is not active the plan is exactly that.
pub proof fn lemma_plan_types_text(cfg: Config, s: Seq<char>)
    ensures
        without_switches(spec_plan(cfg, s)) == typed_keys(cfg, s),
        !cfg.layout_switch.spec_active() ==> spec_plan(cfg, s) == typed_keys(cfg, s),
{
    lemma_plan_from_typed(cfg, s, cfg.layout_switch.spec_start_layout());
}


proof fn lemma_typed_keys_concat(cfg: Config, s1: Seq<char>, s2: Seq<char>)
    ensures
        typed_keys(cfg, s1 + s2) == typed_keys(cfg, s1) + typed_keys(cfg, s2),
    decreases s1.len(),
{
    if s1.len() == 0 {
        assert(s1 + s2 =~= s2);
        assert(typed_keys(cfg, s1) + typed_keys(cfg, s2) =~= typed_keys(cfg, s2));
    } else {
        assert((s1 + s2).drop_first() =~= s1.drop_first() + s2);
        assert((s1 + s2)[0] == s1[0]);
        lemma_typed_keys_concat(cfg, s1.drop_first(), s2);
        assert(typed_keys(cfg, s1 + s2) =~= typed_keys(cfg, s1) + typed_keys(cfg, s2));
    }
}

/// Layout switches aside, the keys that type two texts one after the other
/// are the keys of the first followed by those of the second.
pub proof fn lemma_keys_of_concat(cfg: Config, s1: Seq<char>, s2: Seq<char>)
    ensures
        without_switches(spec_plan(cfg, s1 + s2)) == without_switches(spec_plan(cfg, s1)) + without_switches(
            spec_plan(cfg, s2),
        ),
{
    lemma_plan_types_text(cfg, s1 + s2);
    lemma_plan_types_text(cfg, s1);
    lemma_plan_types_text(cfg, s2);
    lemma_typed_keys_concat(cfg, s1, s2);
}

/// Layout switches aside, the keys that type one character: a newline is
/// the Enter key exactly when `newlines_as_enter` is set, a tab the Tab key
/// exactly when `tabs_as_tab` is set (each setting deciding its own
/// character only), otherwise each is typed as itself; a carriage return
/// is not typed; any other character is typed as itself.
pub proof fn lemma_keys_of_one_char(cfg: Config, c: char)
    ensures
        c == '\n' ==> without_switches(spec_plan(cfg, seq![c])) == (if cfg.newlines_as_enter {
            seq![Keystroke::Enter]
        } else {
            seq![Keystroke::Char('\n')]
        }),
        c == '\t' ==> without_switches(spec_plan(cfg, seq![c])) == (if cfg.tabs_as_tab {
            seq![Keystroke::Tab]
        } else {
            seq![Keystroke::Char('\t')]
        }),
        c == '\r' ==> without_switches(spec_plan(cfg, seq![c])).len() == 0,
        c != '\n' && c != '\t' && c != '\r' ==> without_switches(spec_plan(cfg, seq![c])) == seq![
            Keystroke::Char(c),
        ],
{
    lemma_plan_types_text(cfg, seq![c]);
    let one = seq![c];
    assert(one.drop_first() =~= Seq::<char>::empty());
    assert(one[0] == c);
    assert(typed_keys(cfg, one.drop_first()) == Seq::<Keystroke>::empty());
    assert(typed_keys(cfg, one) == char_keys(cfg, c) + Seq::<Keystroke>::empty());
    assert(typed_keys(cfg, one) =~= char_keys(cfg, c));
}

/// The number of layout switch presses in `keys`.
pub open spec fn count_switches(keys: Seq<Keystroke>) -> nat
    decreases keys.len(),
{
    if keys.len() == 0 {
        0
    } else {
        (if keys.last() == Keystroke::SwitchLayout { 1nat } else { 0nat }) + count_switches(keys.drop_last())
    }
}

proof fn lemma_count_concat(a: Seq<Keystroke>, b: Seq<Keystroke>)
    ensures
        count_switches(a + b) == count_switches(a) + count_switches(b),
    decreases b.len(),
{
    if b.len() == 0 {
        assert(a + b =~= a);
    } else {
        assert((a + b).drop_last() =~= a + b.drop_last());
        assert((a + b).last() == b.last());
        lemma_count_concat(a, b.drop_last());
    }
}

proof fn lemma_count_presses(n: nat)
    ensures
        count_switches(switches(n)) == n,
    decreases n,
{
    if n > 0 {
        assert(switches(n).drop_last() =~= switches((n - 1) as nat));
        lemma_count_presses((n - 1) as nat);
    }
}

proof fn lemma_switches_then_char(cfg: Config, c0: char, presses: nat, j: int)
    requires
        0 <= j < (switches(presses) + char_keys(cfg, c0)).len(),
        (switches(presses) + char_keys(cfg, c0))[j] is Char,
    ensures
        j == presses,
        (switches(presses) + char_keys(cfg, c0))[j] == Keystroke::Char(c0),
        (switches(presses) + char_keys(cfg, c0)).take(j) == switches(presses),
{
    let keys = switches(presses) + char_keys(cfg, c0);
    if j < presses {
        assert(keys[j] == Keystroke::SwitchLayout);
    }
    let ck = char_keys(cfg, c0);
    if c0 == '\n' && cfg.newlines_as_enter {
        assert(ck[j - presses] == Keystroke::Enter);
    } else if c0 == '\t' && cfg.tabs_as_tab {
        assert(ck[j - presses] == Keystroke::Tab);
    } else if c0 == '\r' {
        assert(ck.len() == 0);
    } else {
        assert(ck[0] == Keystroke::Char(c0));
    }
    assert(keys.take(j) =~= switches(presses));
}

proof fn lemma_count_char_keys(cfg: Config, c: char)
    ensures
        count_switches(char_keys(cfg, c)) == 0,
{
    let k = char_keys(cfg, c);
    assert(count_switches(Seq::<Keystroke>::empty()) == 0);
    if k.len() == 1 {
        assert(k.last() != Keystroke::SwitchLayout);
        assert(k.drop_last() =~= Seq::<Keystroke>::empty());
    }
}

/// Whether, starting with layout `cur` active out of `n`, every character
/// key of `keys` whose character belongs to a layout is typed while that
/// layout is active (each switch press moving to the next layout).
pub open spec fn typed_in_own_layout(ls: LayoutSwitchConfig, keys: Seq<Keystroke>, cur: int) -> bool {
    forall|j: int|
        #![trigger keys[j]]
        0 <= j < keys.len() && key_layout(ls, keys[j]) is Some ==>
            (cur + count_switches(keys.take(j))) % (ls.layouts@.len() as int) == key_layout(ls, keys[j])->0
}

/// The layout of the character a key types, if it types a character that
/// belongs to a layout.
pub open spec fn key_layout(ls: LayoutSwitchConfig, k: Keystroke) -> Option<int> {
    match k {
        Keystroke::Char(c) => ls.spec_layout_for_char(c),
        _ => None,
    }
}

proof fn lemma_layout_index_bound(ls: LayoutSwitchConfig, c: char, from: int)
    requires
        0 <= from,
    ensures
        first_layout_from(ls.layouts@, c, from) matches Some(i) ==> from <= i < ls.layouts@.len(),
    decreases ls.layouts@.len() - from,
{
    if from < ls.layouts@.len() && !in_ranges(ls.layouts@[from].ranges@, c) {
        lemma_layout_index_bound(ls, c, from + 1);
    }
}

proof fn lemma_plan_from_layouts(cfg: Config, s: Seq<char>, cur: int)
    requires
        cfg.layout_switch.spec_active(),
        0 <= cur < cfg.layout_switch.layouts@.len(),
    ensures
        typed_in_own_layout(cfg.layout_switch, plan_from(cfg, s, cur), cur),
    decreases s.len(),
{
    let ls = cfg.layout_switch;
    let n = ls.layouts@.len() as int;
    if s.len() == 0 {
        return;
    }
    let c0 = s[0];
    let (keys, next) = step_keys(cfg, c0, cur);
    let rest = plan_from(cfg, s.drop_first(), next);
    let plan = plan_from(cfg, s, cur);
    assert(plan == keys + rest);
    lemma_layout_index_bound(ls, c0, 0);
    let presses: nat = match switch_target(ls, c0, cur) {
        Some(needed) => ls.spec_presses_needed(cur, needed) as nat,
        None => 0,
    };
    match switch_target(ls, c0, cur) {
        Some(needed) => {
            lemma_presses_reach_layout(&ls, cur, needed);
            assert(keys == switches(presses) + char_keys(cfg, c0));
        },
        None => {
            assert(keys =~= switches(0) + char_keys(cfg, c0));
        },
    }
    assert(keys == switches(presses) + char_keys(cfg, c0));
    assert(keys.len() == presses + char_keys(cfg, c0).len());
    assert(0 <= next < n);
    assert(next == (cur + presses) % n) by {
        if switch_target(ls, c0, cur) is None {
            assert(presses == 0);
            assert(cur % n == cur) by (nonlinear_arith)
                requires 0 <= cur < n;
        }
    }
    lemma_plan_from_layouts(cfg, s.drop_first(), next);
    lemma_count_presses(presses);
    lemma_count_char_keys(cfg, c0);
    lemma_count_concat(switches(presses), char_keys(cfg, c0));
    assert forall|j: int|
        #![trigger plan[j]]
        0 <= j < plan.len() && key_layout(ls, plan[j]) is Some implies
            (cur + count_switches(plan.take(j))) % n == key_layout(ls, plan[j])->0 by {
        let c = plan[j]->Char_0;
        let l = key_layout(ls, plan[j])->0;
        if j < keys.len() {
            assert(keys[j] == plan[j]);
            lemma_switches_then_char(cfg, c0, presses, j);
            assert(c == c0);
            assert(plan.take(j) =~= keys.take(j));
            assert(ls.spec_layout_for_char(c0) == Some(l));
            if switch_target(ls, c0, cur) is None {
                assert(l == cur);
                assert((cur + 0) % n == cur) by (nonlinear_arith)
                    requires 0 <= cur < n;
            }
        } else {
            let jj = j - keys.len();
            assert(rest[jj] == plan[j]);
            assert(plan.take(j) =~= keys + rest.take(jj));
            lemma_count_concat(keys, rest.take(jj));
            assert(count_switches(keys) == presses);
            let k = count_switches(rest.take(jj)) as int;
            assert((next + k) % n == l);
            assert((cur + (presses + k)) % n == l) by {
                vstd::arithmetic::div_mod::lemma_add_mod_noop(cur + presses, k, n);
                vstd::arithmetic::div_mod::lemma_add_mod_noop(next, k, n);
                vstd::arithmetic::div_mod::lemma_small_mod(next as nat, n as nat);
                assert(cur + (presses + k) == (cur + presses) + k);
            }
        }
    }
}

/// With layout switching active, every character that belongs to a layout
/// is typed while that layout is active, counting each switch press as one
/// step to the next layout from the starting layout.
pub proof fn lemma_plan_keeps_layout(cfg: Config, s: Seq<char>)
    requires
        cfg.layout_switch.spec_active(),
    ensures
        typed_in_own_layout(cfg.layout_switch, spec_plan(cfg, s), cfg.layout_switch.spec_start_layout()),
{
    lemma_plan_from_layouts(cfg, s, cfg.layout_switch.spec_start_layout());
}

// ───────────────────────────── keystroke delay ─────────────────────────────

/// The random number generator of the current thread (`rand::rngs::ThreadRng`).
#[verifier::external_type_specification]
#[verifier::external_body]
pub struct ExThreadRng(rand::rngs::ThreadRng);

/// Wraps `rand::thread_rng`: the generator of the current thread.
#[verifier::external_body]
fn thread_rng() -> rand::rngs::ThreadRng {
    rand::thread_rng()
}

/// Wraps `Rng::gen_range` on an inclusive range of `u64`: a number drawn
/// from `low..=high`. Claims only that it lies in that range; the draw
/// itself is left to `rand`. The range is not empty, on which `gen_range`
/// would panic.
#[verifier::external_body]
fn draw_between(rng: &mut rand::rngs::ThreadRng, low: u64, high: u64) -> (r: u64)
    requires
        low <= high,
    ensures
        low <= r <= high,
{
    rng.gen_range(low..=high)
}

/// The pause after one keystroke, in milliseconds, once the random jitter
/// has been drawn: the fixed delay plus the jitter when jitter is on.
pub fn delay_with_jitter(config: &Config, jitter: u64) -> (ms: u64)
    requires
        config.spec_has_random_delay() ==> config.keystroke_delay_ms + jitter <= u64::MAX,
    ensures
        ms == config.keystroke_delay_ms + (if config.spec_has_random_delay() { jitter } else { 0 }),
{
    if config.has_random_delay() {
        config.keystroke_delay_ms + jitter
    } else {
        config.keystroke_delay_ms
    }
}

/// The pause after one keystroke, in milliseconds: `keystroke_delay_ms`
/// plus a random jitter in `random_delay_min_ms..=random_delay_max_ms` when
/// jitter is on, the fixed delay alone otherwise.
pub fn compute_delay(config: &Config) -> (ms: u64)
    requires
        config.spec_has_random_delay() ==> config.keystroke_delay_ms + config.random_delay_max_ms <= u64::MAX,
    ensures
        config.spec_has_random_delay() ==> {
            &&& config.keystroke_delay_ms + config.random_delay_min_ms <= ms
            &&& ms <= config.keystroke_delay_ms + config.random_delay_max_ms
        },
        !config.spec_has_random_delay() ==> ms == config.keystroke_delay_ms,
{
    if config.has_random_delay() {
        let mut rng = thread_rng();
        let jitter = draw_between(&mut rng, config.random_delay_min_ms, config.random_delay_max_ms);
        delay_with_jitter(config, jitter)
    } else {
        delay_with_jitter(config, 0)
    }
}


/// The pause, in milliseconds, that follows keystroke `key` while typing:
/// the switch pause after a layout switch press, the per-keystroke delay
/// (with jitter when on) after any other key. A carriage return has no
/// keystroke in the plan, so no pause follows it.
pub fn pause_after(key: Keystroke, config: &Config) -> (ms: u64)
    requires
        !(key is SwitchLayout) && config.spec_has_random_delay() ==> config.keystroke_delay_ms
            + config.random_delay_max_ms <= u64::MAX,
    ensures
        key is SwitchLayout ==> ms == config.layout_switch.switch_delay_ms,
        !(key is SwitchLayout) && !config.spec_has_random_delay() ==> ms == config.keystroke_delay_ms,
        !(key is SwitchLayout) && config.spec_has_random_delay() ==> {
            &&& config.keystroke_delay_ms + config.random_delay_min_ms <= ms
            &&& ms <= config.keystroke_delay_ms + config.random_delay_max_ms
        },
{
    match key {
        Keystroke::SwitchLayout => config.layout_switch.switch_delay_ms,
        _ => compute_delay(config),
    }
}

/// The message when no window title holds `title`.
pub open spec fn no_title_message(title: Seq<char>) -> Seq<char> {
    "No window found matching title: \""@ + title + "\""@
}

/// The error when no window title holds `title`.
pub fn no_window_for_title(title: &str) -> (e: TypePasteError)
    ensures
        e matches TypePasteError::Platform(m) && m@ == no_title_message(title@),
{
    let mut m = String::from_str("No window found matching title: \"");
    m.append(title);
    m.append("\"");
    TypePasteError::Platform(m)
}

} // verus!
