//! Platforms on which keystroke emulation is not available: both
//! operations report that plainly.

use vstd::prelude::*;
use vstd::string::*;

use crate::config::Config;
use crate::error::TypePasteError;

verus! {

/// Reports that this platform is not supported.
pub fn check_accessibility() -> (r: Result<(), TypePasteError>)
    ensures
        r matches Err(TypePasteError::Platform(m))
            && m@ == "TypePaste is not yet supported on this platform. Supported: macOS, Windows."@,
{
    Err(TypePasteError::Platform(
        String::from_str("TypePaste is not yet supported on this platform. Supported: macOS, Windows."),
    ))
}

/// Reports that keystrokes cannot be emitted on this platform.
pub fn type_string(text: &str, config: &Config) -> (r: Result<(), TypePasteError>)
    ensures
        r matches Err(TypePasteError::Platform(m))
            && m@ == "Keystroke emulation is not available on this platform."@,
{
    Err(TypePasteError::Platform(String::from_str("Keystroke emulation is not available on this platform.")))
}

} // verus!
