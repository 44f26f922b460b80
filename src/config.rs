//! The startup settings, checked before either loop starts.

use vstd::prelude::*;
use crate::emission::ClickConfig;
use crate::keycode::{button_code, button_code_of, key_code, key_code_of};

verus! {

/// Why the settings were refused.
#[derive(Clone, Copy, Debug, PartialEq, Eq, Structural)]
pub enum ConfigError {
    /// The toggle key name is not known.
    UnknownKey,
    /// The mouse button name is not known.
    UnknownButton,
}

/// The settings both loops run with.
#[derive(Clone, Copy, Debug, PartialEq, Eq, Structural)]
pub struct Settings {
    pub click: ClickConfig,
    pub toggle_key: u16,
}

/// The settings for the given interval and names, or the first name that
/// is unknown (the key is looked at before the button).
pub open spec fn settings_of(interval_ms: u64, key: Seq<char>, button: Seq<char>) -> Result<
    Settings,
    ConfigError,
> {
    match (key_code_of(key), button_code_of(button)) {
        (None, _) => Err(ConfigError::UnknownKey),
        (Some(_), None) => Err(ConfigError::UnknownButton),
        (Some(k), Some(b)) => Ok(
            Settings { click: ClickConfig { interval_ms, button: b }, toggle_key: k },
        ),
    }
}

/// Resolves the names of the toggle key and the mouse button.
pub fn resolve_settings(interval_ms: u64, toggle_key: &str, button: &str) -> (r: Result<
    Settings,
    ConfigError,
>)
    ensures
        r == settings_of(interval_ms, toggle_key@, button@),
{
    let key = match key_code(toggle_key) {
        Some(k) => k,
        None => {
            return Err(ConfigError::UnknownKey);
        },
    };
    match button_code(button) {
        Some(b) => Ok(Settings { click: ClickConfig { interval_ms, button: b }, toggle_key: key }),
        None => Err(ConfigError::UnknownButton),
    }
}

} // verus!
