//! Error type of the library and its human-readable messages.

use vstd::prelude::*;
use vstd::string::*;

verus! {

/// Every failure the library reports.
#[derive(Debug, Clone)]
pub enum TypePasteError {
    Clipboard(String),
    Keystroke(String),
    Platform(String),
    Config(String),
    AccessibilityDenied,
    HotkeyRegistration(String),
    Io(String),
}

impl TypePasteError {
    /// The text shown to the user for this error.
    pub open spec fn spec_message(&self) -> Seq<char> {
        match self {
            TypePasteError::Clipboard(m) => "Clipboard error: "@ + m@,
            TypePasteError::Keystroke(m) => "Keystroke emulation error: "@ + m@,
            TypePasteError::Platform(m) => "Platform error: "@ + m@,
            TypePasteError::Config(m) => "Configuration error: "@ + m@,
            TypePasteError::AccessibilityDenied => "Accessibility permission not granted"@,
            TypePasteError::HotkeyRegistration(m) => "Hotkey registration failed: "@ + m@,
            TypePasteError::Io(m) => "IO error: "@ + m@,
        }
    }

    /// Renders the error as the message shown to the user.
    pub fn message(&self) -> (r: String)
        ensures
            r@ == self.spec_message(),
    {
        match self {
            TypePasteError::Clipboard(m) => String::from_str("Clipboard error: ").concat(m.as_str()),
            TypePasteError::Keystroke(m) => String::from_str("Keystroke emulation error: ").concat(m.as_str()),
            TypePasteError::Platform(m) => String::from_str("Platform error: ").concat(m.as_str()),
            TypePasteError::Config(m) => String::from_str("Configuration error: ").concat(m.as_str()),
            TypePasteError::AccessibilityDenied => String::from_str("Accessibility permission not granted"),
            TypePasteError::HotkeyRegistration(m) => String::from_str("Hotkey registration failed: ").concat(m.as_str()),
            TypePasteError::Io(m) => String::from_str("IO error: ").concat(m.as_str()),
        }
    }
}

} // verus!
