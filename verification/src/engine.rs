//! The typing engine: what a paste or type request does, step by step.
//!
//! A request becomes a [`TypingSession`]. The session names the next thing
//! to do ([`EngineAction`]): check the accessibility permission, read the
//! clipboard, focus a window, type a prepared text, or finish with a
//! result. The application does it and hands back what happened
//! ([`EngineEvent`]); [`TypingSession::advance`] decides the next action.

use vstd::prelude::*;
use vstd::string::*;

use crate::config::Config;
use crate::error::TypePasteError;
use crate::text::{chars_of, push_all, slice_chars, string_of};

verus! {

/// The clipboard of the system (`arboard::Clipboard`).
#[verifier::external_type_specification]
#[verifier::external_body]
pub struct ExClipboard(arboard::Clipboard);

/// A clipboard failure (`arboard::Error`).
#[verifier::external_type_specification]
#[verifier::external_body]
pub struct ExClipboardError(arboard::Error);

/// Wraps `arboard::Clipboard::new`: opens the clipboard. Whether it
/// succeeds depends on the system; nothing is claimed.
#[verifier::external_body]
fn clipboard_open() -> Result<arboard::Clipboard, arboard::Error> {
    arboard::Clipboard::new()
}

/// Wraps `arboard::Clipboard::get_text`: the text on the clipboard. What
/// it holds depends on the system; nothing is claimed.
#[verifier::external_body]
fn clipboard_text(clipboard: &mut arboard::Clipboard) -> Result<String, arboard::Error> {
    clipboard.get_text()
}

/// Wraps the `Display` impl of `arboard::Error`: its one-line description.
/// Nothing is claimed of the text.
#[verifier::external_body]
fn clipboard_error_text(e: &arboard::Error) -> String {
    e.to_string()
}

/// The message when the clipboard cannot be opened, `detail` saying why.
pub open spec fn clipboard_init_message(detail: Seq<char>) -> Seq<char> {
    "Init clipboard: "@ + detail
}

/// The message when no text can be read from the clipboard.
pub open spec fn clipboard_read_message(detail: Seq<char>) -> Seq<char> {
    "Read clipboard: "@ + detail
}

/// The error reported when the clipboard cannot be opened.
pub fn clipboard_init_error(detail: &str) -> (e: TypePasteError)
    ensures
        e matches TypePasteError::Clipboard(m) && m@ == clipboard_init_message(detail@),
{
    let mut m = String::from_str("Init clipboard: ");
    m.append(detail);
    TypePasteError::Clipboard(m)
}

/// The error reported when the clipboard text cannot be read.
pub fn clipboard_read_error(detail: &str) -> (e: TypePasteError)
    ensures
        e matches TypePasteError::Clipboard(m) && m@ == clipboard_read_message(detail@),
{
    let mut m = String::from_str("Read clipboard: ");
    m.append(detail);
    TypePasteError::Clipboard(m)
}

/// How reading the clipboard went, in plain values.
#[derive(Debug, Clone)]
pub enum ClipboardAccess {
    /// The clipboard could not be opened; the clipboard's description of why.
    OpenFailed(String),
    /// The clipboard was opened but no text could be read; the description.
    ReadFailed(String),
    /// The text on the clipboard.
    Text(String),
}

/// What reading the clipboard returns for each outcome: the text itself;
/// an "Init clipboard: " error when opening failed; a "Read clipboard: "
/// error when reading failed, each carrying the clipboard's description.
pub fn clipboard_result(access: ClipboardAccess) -> (r: Result<String, TypePasteError>)
    ensures
        access matches ClipboardAccess::Text(t) ==> (r matches Ok(s) && s@ == t@),
        access matches ClipboardAccess::OpenFailed(d) ==> (r matches Err(TypePasteError::Clipboard(m))
            && m@ == clipboard_init_message(d@)),
        access matches ClipboardAccess::ReadFailed(d) ==> (r matches Err(TypePasteError::Clipboard(m))
            && m@ == clipboard_read_message(d@)),
{
    match access {
        ClipboardAccess::Text(t) => Ok(t),
        ClipboardAccess::OpenFailed(d) => Err(clipboard_init_error(d.as_str())),
        ClipboardAccess::ReadFailed(d) => Err(clipboard_read_error(d.as_str())),
    }
}

/// A text ready to be typed: the text itself and the pause before typing.
#[derive(Debug, Clone)]
pub struct TypingJob {
    pub text: String,
    /// Milliseconds to wait before the first keystroke (0: no wait).
    pub wait_ms: u64,
}

/// `s` cut to at most `max` characters.
pub open spec fn truncated(s: Seq<char>, max: nat) -> Seq<char> {
    if s.len() > max { s.take(max as int) } else { s }
}

/// The wait before typing: the configured initial delay when it is asked
/// for, none otherwise.
pub open spec fn initial_wait(cfg: Config, use_initial_delay: bool) -> u64 {
    if use_initial_delay && cfg.initial_delay_ms > 0 { cfg.initial_delay_ms } else { 0 }
}

/// Whether `job` types `text` under `cfg`: the text cut to
/// `max_text_length` characters, after the initial wait when asked for.
pub open spec fn is_job_for(job: TypingJob, cfg: Config, text: Seq<char>, use_initial_delay: bool) -> bool {
    &&& job.text@ == truncated(text, cfg.max_text_length as nat)
    &&& job.wait_ms == initial_wait(cfg, use_initial_delay)
}

/// Core engine: turns requests into typing sessions under a configuration.
pub struct TypeEngine {
    config: Config,
}

impl View for TypeEngine {
    type V = Config;

    closed spec fn view(&self) -> Config {
        self.config
    }
}

impl TypeEngine {
    /// An engine with the given configuration.
    pub fn new(config: Config) -> (r: TypeEngine)
        ensures
            r@ == config,
    {
        TypeEngine { config }
    }

    /// The current configuration.
    pub fn config(&self) -> (r: &Config)
        ensures
            *r == self@,
    {
        &self.config
    }

    /// Replaces the configuration.
    pub fn update_config(&mut self, config: Config)
        ensures
            final(self)@ == config,
    {
        self.config = config;
    }

    /// Reads the text on the clipboard. A failure to open the clipboard or
    /// to read text from it is reported as a clipboard error whose message
    /// says which step failed and carries the clipboard's own description.
    pub fn read_clipboard(&self) -> (r: Result<String, TypePasteError>)
        ensures
            r matches Err(e) ==> e matches TypePasteError::Clipboard(m) && exists|detail: Seq<char>|
                m@ == clipboard_init_message(detail)
                || m@ == clipboard_read_message(detail),
    {
        let access = match clipboard_open() {
            Err(e) => ClipboardAccess::OpenFailed(clipboard_error_text(&e)),
            Ok(mut clipboard) => match clipboard_text(&mut clipboard) {
                Ok(text) => ClipboardAccess::Text(text),
                Err(e) => ClipboardAccess::ReadFailed(clipboard_error_text(&e)),
            },
        };
        clipboard_result(access)
    }

    /// Prepares `text` for typing: cut to `max_text_length` characters, to
    /// be typed after the initial delay when `use_initial_delay` asks for it.
    pub fn prepare_job(&self, text: &str, use_initial_delay: bool) -> (job: TypingJob)
        ensures
            is_job_for(job, self@, text@, use_initial_delay),
    {
        let chars = chars_of(text);
        let max = self.config.max_text_length;
        let kept = if chars.len() > max {
            slice_chars(chars.as_slice(), 0, max)
        } else {
            slice_chars(chars.as_slice(), 0, chars.len())
        };
        proof {
            assert(chars@.subrange(0, chars@.len() as int) == chars@);
            assert(chars@.subrange(0, max as int) == chars@.take(max as int));
        }
        let wait_ms = if use_initial_delay && self.config.initial_delay_ms > 0 {
            self.config.initial_delay_ms
        } else {
            0
        };
        TypingJob { text: string_of(kept.as_slice()), wait_ms }
    }
}

/// The text typed in a job is the start of the requested text, at most
/// `max_text_length` characters long, and all of it when it fits.
pub proof fn lemma_job_text_is_prefix(job: TypingJob, cfg: Config, text: Seq<char>, use_initial_delay: bool)
    requires
        is_job_for(job, cfg, text, use_initial_delay),
    ensures
        job.text@.len() <= cfg.max_text_length,
        job.text@.len() <= text.len(),
        job.text@ == text.take(job.text@.len() as int),
        text.len() <= cfg.max_text_length ==> job.text@ == text,
{
    assert(text.take(text.len() as int) =~= text);
    if text.len() > cfg.max_text_length {
        assert(text.take(cfg.max_text_length as int).len() == cfg.max_text_length);
    }
}


// ───────────────────────────── sessions ─────────────────────────────

/// What is to be typed, and where.
#[derive(Debug, Clone)]
pub enum TypingRequest {
    /// The clipboard text, into the focused window, after the initial delay.
    Paste,
    /// A text into the focused window.
    Text { text: String, use_initial_delay: bool },
    /// A text into the first window whose title contains `title`.
    ToWindowTitle { text: String, title: String, use_initial_delay: bool },
    /// A text into a window of process `pid`.
    ToWindowPid { text: String, pid: u32, use_initial_delay: bool },
}

/// How far a session has come.
#[derive(Debug, Clone, Copy, PartialEq, Eq, Structural)]
pub enum SessionStage {
    AwaitingAccessibility,
    AwaitingClipboard,
    AwaitingFocus,
    AwaitingTyping,
    Finished,
}

impl SessionStage {
    /// The order of the stages; every step of a session moves to a later one.
    pub open spec fn rank(self) -> nat {
        match self {
            SessionStage::AwaitingAccessibility => 0,
            SessionStage::AwaitingClipboard => 1,
            SessionStage::AwaitingFocus => 2,
            SessionStage::AwaitingTyping => 3,
            SessionStage::Finished => 4,
        }
    }
}

/// The next thing the application does for a session.
#[derive(Debug)]
pub enum EngineAction {
    /// Check that keystrokes may be injected.
    CheckAccessibility,
    /// Read the clipboard text (with [`TypeEngine::read_clipboard`]).
    ReadClipboard,
    /// Focus the first window whose title contains this text.
    FocusWindowByTitle(String),
    /// Focus a window of this process.
    FocusWindowByPid(u32),
    /// Wait, then type the job's text.
    Type(TypingJob),
    /// The request is over, with this result.
    Done(Result<(), TypePasteError>),
}

/// What happened when the application did an action.
#[derive(Debug)]
pub enum EngineEvent {
    AccessibilityChecked(Result<(), TypePasteError>),
    ClipboardRead(Result<String, TypePasteError>),
    WindowFocused(Result<(), TypePasteError>),
    Typed(Result<(), TypePasteError>),
}

/// A request in progress.
#[derive(Debug)]
pub struct TypingSession {
    pub request: TypingRequest,
    pub stage: SessionStage,
}

impl TypingSession {
    /// Whether `ev` answers the action this session is waiting on.
    pub open spec fn expects(&self, ev: EngineEvent) -> bool {
        match (self.stage, ev) {
            (SessionStage::AwaitingAccessibility, EngineEvent::AccessibilityChecked(_)) => true,
            (SessionStage::AwaitingClipboard, EngineEvent::ClipboardRead(_)) => self.request is Paste,
            (SessionStage::AwaitingFocus, EngineEvent::WindowFocused(_)) =>
                self.request is ToWindowTitle || self.request is ToWindowPid,
            (SessionStage::AwaitingTyping, EngineEvent::Typed(_)) => true,
            _ => false,
        }
    }

    /// Whether, after `ev`, moving to `stage` with `action` is the step
    /// this session takes under configuration `cfg`:
    /// - an error from any step ends the session with that error;
    /// - once keystrokes may be injected, a paste reads the clipboard, a
    ///   window request focuses its window, and a text for the focused
    ///   window is typed (an empty one ends the session at once);
    /// - an empty clipboard ends a paste; other clipboard text is typed
    ///   after the initial delay;
    /// - once the window is focused its text is typed;
    /// - typing ends the session with typing's result.
    pub open spec fn spec_next(&self, cfg: Config, ev: EngineEvent, stage: SessionStage, action: EngineAction) -> bool {
        match (self.stage, ev) {
            (SessionStage::AwaitingAccessibility, EngineEvent::AccessibilityChecked(Err(e))) =>
                stage == SessionStage::Finished && action == EngineAction::Done(Err(e)),
            (SessionStage::AwaitingAccessibility, EngineEvent::AccessibilityChecked(Ok(_))) => match self.request {
                TypingRequest::Paste => stage == SessionStage::AwaitingClipboard && action == EngineAction::ReadClipboard,
                TypingRequest::Text { text, use_initial_delay } =>
                    if text@.len() == 0 {
                        stage == SessionStage::Finished && action == EngineAction::Done(Ok(()))
                    } else {
                        stage == SessionStage::AwaitingTyping && (action matches EngineAction::Type(job)
                            && is_job_for(job, cfg, text@, use_initial_delay))
                    },
                TypingRequest::ToWindowTitle { title, .. } =>
                    stage == SessionStage::AwaitingFocus && (action matches EngineAction::FocusWindowByTitle(t)
                        && t@ == title@),
                TypingRequest::ToWindowPid { pid, .. } =>
                    stage == SessionStage::AwaitingFocus && action == EngineAction::FocusWindowByPid(pid),
            },
            (SessionStage::AwaitingClipboard, EngineEvent::ClipboardRead(Err(e))) =>
                stage == SessionStage::Finished && action == EngineAction::Done(Err(e)),
            (SessionStage::AwaitingClipboard, EngineEvent::ClipboardRead(Ok(text))) =>
                if text@.len() == 0 {
                    stage == SessionStage::Finished && action == EngineAction::Done(Ok(()))
                } else {
                    stage == SessionStage::AwaitingTyping && (action matches EngineAction::Type(job)
                        && is_job_for(job, cfg, text@, true))
                },
            (SessionStage::AwaitingFocus, EngineEvent::WindowFocused(Err(e))) =>
                stage == SessionStage::Finished && action == EngineAction::Done(Err(e)),
            (SessionStage::AwaitingFocus, EngineEvent::WindowFocused(Ok(_))) => match self.request {
                TypingRequest::ToWindowTitle { text, use_initial_delay, .. } =>
                    stage == SessionStage::AwaitingTyping && (action matches EngineAction::Type(job)
                        && is_job_for(job, cfg, text@, use_initial_delay)),
                TypingRequest::ToWindowPid { text, use_initial_delay, .. } =>
                    stage == SessionStage::AwaitingTyping && (action matches EngineAction::Type(job)
                        && is_job_for(job, cfg, text@, use_initial_delay)),
                _ => false,
            },
            (SessionStage::AwaitingTyping, EngineEvent::Typed(r)) =>
                stage == SessionStage::Finished && action == EngineAction::Done(r),
            _ => false,
        }
    }

    /// Takes the step that `ev` calls for and returns the next action.
    pub fn advance(&mut self, engine: &TypeEngine, ev: EngineEvent) -> (action: EngineAction)
        requires
            old(self).expects(ev),
        ensures
            old(self).spec_next(engine@, ev, final(self).stage, action),
            final(self).request == old(self).request,
            final(self).stage.rank() > old(self).stage.rank(),
    {
        match ev {
            EngineEvent::AccessibilityChecked(Err(e)) => {
                self.stage = SessionStage::Finished;
                EngineAction::Done(Err(e))
            },
            EngineEvent::AccessibilityChecked(Ok(())) => match &self.request {
                TypingRequest::Paste => {
                    self.stage = SessionStage::AwaitingClipboard;
                    EngineAction::ReadClipboard
                },
                TypingRequest::Text { text, use_initial_delay } => {
                    if text.as_str().is_empty() {
                        self.stage = SessionStage::Finished;
                        EngineAction::Done(Ok(()))
                    } else {
                        let job = engine.prepare_job(text.as_str(), *use_initial_delay);
                        self.stage = SessionStage::AwaitingTyping;
                        EngineAction::Type(job)
                    }
                },
                TypingRequest::ToWindowTitle { title, .. } => {
                    let t = title.clone();
                    self.stage = SessionStage::AwaitingFocus;
                    EngineAction::FocusWindowByTitle(t)
                },
                TypingRequest::ToWindowPid { pid, .. } => {
                    let p = *pid;
                    self.stage = SessionStage::AwaitingFocus;
                    EngineAction::FocusWindowByPid(p)
                },
            },
            EngineEvent::ClipboardRead(Err(e)) => {
                self.stage = SessionStage::Finished;
                EngineAction::Done(Err(e))
            },
            EngineEvent::ClipboardRead(Ok(text)) => {
                if text.as_str().is_empty() {
                    self.stage = SessionStage::Finished;
                    EngineAction::Done(Ok(()))
                } else {
                    let job = engine.prepare_job(text.as_str(), true);
                    self.stage = SessionStage::AwaitingTyping;
                    EngineAction::Type(job)
                }
            },
            EngineEvent::WindowFocused(Err(e)) => {
                self.stage = SessionStage::Finished;
                EngineAction::Done(Err(e))
            },
            EngineEvent::WindowFocused(Ok(())) => {
                let job = match &self.request {
                    TypingRequest::ToWindowTitle { text, use_initial_delay, .. } =>
                        engine.prepare_job(text.as_str(), *use_initial_delay),
                    TypingRequest::ToWindowPid { text, use_initial_delay, .. } =>
                        engine.prepare_job(text.as_str(), *use_initial_delay),
                    _ => {
                        proof {
                            assert(false);
                        }
                        engine.prepare_job("", false)
                    },
                };
                self.stage = SessionStage::AwaitingTyping;
                EngineAction::Type(job)
            },
            EngineEvent::Typed(r) => {
                self.stage = SessionStage::Finished;
                EngineAction::Done(r)
            },
        }
    }
}

/// A new session for `request`, waiting on the accessibility check.
fn start_session(request: TypingRequest) -> (r: (TypingSession, EngineAction))
    ensures
        r.0.request == request,
        r.0.stage == SessionStage::AwaitingAccessibility,
        r.1 == EngineAction::CheckAccessibility,
{
    (TypingSession { request, stage: SessionStage::AwaitingAccessibility }, EngineAction::CheckAccessibility)
}

impl TypeEngine {
    /// Starts typing the clipboard text into the focused window; the first
    /// action is the accessibility check.
    pub fn paste_as_keystrokes(&self) -> (r: (TypingSession, EngineAction))
        ensures
            r.0.request is Paste,
            r.0.stage == SessionStage::AwaitingAccessibility,
            r.1 == EngineAction::CheckAccessibility,
    {
        start_session(TypingRequest::Paste)
    }

    /// Starts typing `text` into the focused window, after the initial delay
    /// when `use_initial_delay` is set; the first action is the
    /// accessibility check.
    pub fn type_text(&self, text: &str, use_initial_delay: bool) -> (r: (TypingSession, EngineAction))
        ensures
            r.0.request matches TypingRequest::Text { text: t, use_initial_delay: d } && t@ == text@
                && d == use_initial_delay,
            r.0.stage == SessionStage::AwaitingAccessibility,
            r.1 == EngineAction::CheckAccessibility,
    {
        start_session(TypingRequest::Text { text: String::from_str(text), use_initial_delay })
    }

    /// Starts typing `text` into the first window whose title contains
    /// `window_title`; the first action is the accessibility check.
    pub fn type_text_to_window_by_title(&self, text: &str, window_title: &str, use_initial_delay: bool) -> (r: (
        TypingSession,
        EngineAction,
    ))
        ensures
            r.0.request matches TypingRequest::ToWindowTitle { text: t, title: w, use_initial_delay: d }
                && t@ == text@ && w@ == window_title@ && d == use_initial_delay,
            r.0.stage == SessionStage::AwaitingAccessibility,
            r.1 == EngineAction::CheckAccessibility,
    {
        start_session(TypingRequest::ToWindowTitle {
            text: String::from_str(text),
            title: String::from_str(window_title),
            use_initial_delay,
        })
    }

    /// Starts typing `text` into a window of process `pid`; the first action
    /// is the accessibility check.
    pub fn type_text_to_window_by_pid(&self, text: &str, pid: u32, use_initial_delay: bool) -> (r: (
        TypingSession,
        EngineAction,
    ))
        ensures
            r.0.request matches TypingRequest::ToWindowPid { text: t, pid: p, use_initial_delay: d }
                && t@ == text@ && p == pid && d == use_initial_delay,
            r.0.stage == SessionStage::AwaitingAccessibility,
            r.1 == EngineAction::CheckAccessibility,
    {
        start_session(TypingRequest::ToWindowPid { text: String::from_str(text), pid, use_initial_delay })
    }
}


/// The error an event reports, if it reports one.
pub open spec fn event_error(ev: EngineEvent) -> Option<TypePasteError> {
    match ev {
        EngineEvent::AccessibilityChecked(Err(e)) => Some(e),
        EngineEvent::ClipboardRead(Err(e)) => Some(e),
        EngineEvent::WindowFocused(Err(e)) => Some(e),
        EngineEvent::Typed(Err(e)) => Some(e),
        _ => None,
    }
}

/// An error at any step ends the request with that very error.
pub proof fn lemma_error_ends_session(
    s: TypingSession,
    cfg: Config,
    ev: EngineEvent,
    stage: SessionStage,
    action: EngineAction,
)
    requires
        s.expects(ev),
        s.spec_next(cfg, ev, stage, action),
        event_error(ev) is Some,
    ensures
        stage == SessionStage::Finished,
        action == EngineAction::Done(Err(event_error(ev)->0)),
{
}

/// A session ends after at most four events: each step moves it to a later
/// stage, and a finished session expects nothing.
pub proof fn lemma_session_ends(s: TypingSession, ev: EngineEvent)
    ensures
        s.stage == SessionStage::Finished ==> !s.expects(ev),
        s.stage.rank() <= 4,
{
}

/// Whether `out` is `src` cut to at most `max` characters: all of `src`
/// when it fits, else its first `max` characters.
pub open spec fn is_cut_of(out: Seq<char>, src: Seq<char>, max: nat) -> bool {
    &&& out.len() == (if src.len() <= max { src.len() } else { max })
    &&& out == src.take(out.len() as int)
}

/// The typing job a session hands out waits before the first keystroke
/// exactly when its request asks for the initial delay (a paste always
/// does, `--no-delay` turns it off), and then waits the configured initial
/// delay; without it the job starts at once.
pub proof fn lemma_job_wait_follows_request(
    s: TypingSession,
    cfg: Config,
    ev: EngineEvent,
    stage: SessionStage,
    job: TypingJob,
)
    requires
        s.expects(ev),
        s.spec_next(cfg, ev, stage, EngineAction::Type(job)),
    ensures
        s.request is Paste ==> job.wait_ms == cfg.initial_delay_ms,
        s.request matches TypingRequest::Text { use_initial_delay, .. } ==> job.wait_ms == (if use_initial_delay {
            cfg.initial_delay_ms
        } else {
            0
        }),
        s.request matches TypingRequest::ToWindowTitle { use_initial_delay, .. } ==> job.wait_ms == (
        if use_initial_delay {
            cfg.initial_delay_ms
        } else {
            0
        }),
        s.request matches TypingRequest::ToWindowPid { use_initial_delay, .. } ==> job.wait_ms == (
        if use_initial_delay {
            cfg.initial_delay_ms
        } else {
            0
        }),
{
}

/// The text of the typing job a session hands out is the text to type cut
/// to `max_text_length` characters: the request's own text, or for a paste
/// the text read from the clipboard.
pub proof fn lemma_job_text_follows_request(
    s: TypingSession,
    cfg: Config,
    ev: EngineEvent,
    stage: SessionStage,
    job: TypingJob,
)
    requires
        s.expects(ev),
        s.spec_next(cfg, ev, stage, EngineAction::Type(job)),
    ensures
        s.request is Paste ==> (ev matches EngineEvent::ClipboardRead(Ok(t)) && t@.len() > 0 && is_cut_of(
            job.text@,
            t@,
            cfg.max_text_length as nat,
        )),
        s.request matches TypingRequest::Text { text, .. } ==> text@.len() > 0 && is_cut_of(
            job.text@,
            text@,
            cfg.max_text_length as nat,
        ),
        s.request matches TypingRequest::ToWindowTitle { text, .. } ==> is_cut_of(
            job.text@,
            text@,
            cfg.max_text_length as nat,
        ),
        s.request matches TypingRequest::ToWindowPid { text, .. } ==> is_cut_of(
            job.text@,
            text@,
            cfg.max_text_length as nat,
        ),
{
    match s.request {
        TypingRequest::Paste => {
            if let EngineEvent::ClipboardRead(Ok(t)) = ev {
                assert(t@.take(t@.len() as int) =~= t@);
            }
        },
        TypingRequest::Text { text, .. } => {
            assert(text@.take(text@.len() as int) =~= text@);
        },
        TypingRequest::ToWindowTitle { text, .. } => {
            assert(text@.take(text@.len() as int) =~= text@);
        },
        TypingRequest::ToWindowPid { text, .. } => {
            assert(text@.take(text@.len() as int) =~= text@);
        },
    }
}

} // verus!
