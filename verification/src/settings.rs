//! User-facing application settings and the rules of their settings file.
//!
//! The file holds a JSON object; every field may be missing (it then takes
//! its default), unknown fields are ignored, and a file that is missing,
//! unreadable or malformed gives the default settings. The caller reads and
//! writes the file and hands the fields it found to [`Settings::resolve`].
use vstd::prelude::*;

use crate::text::same_text;

verus! {

/// Theme selection. `Auto` follows the system's colour scheme.
#[derive(Debug, Clone, Copy, PartialEq, Eq, Structural)]
pub enum Theme {
    Light,
    Dark,
    Auto,
}

impl Default for Theme {
    fn default() -> (r: Theme)
        ensures
            r == Theme::Auto,
    {
        Theme::Auto
    }
}

/// The name a theme has in the settings file.
pub open spec fn theme_name(t: Theme) -> Seq<char> {
    match t {
        Theme::Light => "light"@,
        Theme::Dark => "dark"@,
        Theme::Auto => "auto"@,
    }
}

/// The theme a name in the settings file denotes, if any.
pub open spec fn theme_named(name: Seq<char>) -> Option<Theme> {
    if name == "light"@ {
        Some(Theme::Light)
    } else if name == "dark"@ {
        Some(Theme::Dark)
    } else if name == "auto"@ {
        Some(Theme::Auto)
    } else {
        None
    }
}

impl Theme {
    /// The theme's name in the settings file.
    pub fn name(&self) -> (r: &'static str)
        ensures
            r@ == theme_name(*self),
    {
        match self {
            Theme::Light => "light",
            Theme::Dark => "dark",
            Theme::Auto => "auto",
        }
    }

    /// The theme a name denotes; `None` for an unknown name.
    pub fn from_name(name: &str) -> (r: Option<Theme>)
        ensures
            r == theme_named(name@),
    {
        if same_text(name, "light") {
            Some(Theme::Light)
        } else if same_text(name, "dark") {
            Some(Theme::Dark)
        } else if same_text(name, "auto") {
            Some(Theme::Auto)
        } else {
            None
        }
    }
}

/// User preferences. Every default is the privacy-conservative choice that
/// still behaves like a normal Signal client.
#[derive(Debug, Clone, Copy, PartialEq, Eq, Structural)]
pub struct Settings {
    /// Send delivery and read receipts back to senders.
    pub read_receipts: bool,
    /// Send typing indicators.
    pub typing_indicators: bool,
    /// UI theme preference.
    pub theme: Theme,
}

/// The default settings: receipts and typing indicators on, theme `Auto`.
pub open spec fn default_settings() -> Settings {
    Settings { read_receipts: true, typing_indicators: true, theme: Theme::Auto }
}

impl Default for Settings {
    fn default() -> (r: Settings)
        ensures
            r == default_settings(),
    {
        Settings { read_receipts: true, typing_indicators: true, theme: Theme::Auto }
    }
}

/// The default of a missing boolean setting.
pub fn default_true() -> (r: bool)
    ensures
        r,
{
    true
}

/// The fields found in a settings file; `None` for a missing field.
#[derive(Debug, Clone)]
pub struct SettingsFile {
    pub read_receipts: Option<bool>,
    pub typing_indicators: Option<bool>,
    pub theme: Option<String>,
}

/// The settings a file's fields give: missing fields take their defaults;
/// an unknown theme name makes the file malformed.
pub open spec fn settings_of_file(f: SettingsFile) -> Option<Settings> {
    let theme = match f.theme {
        None => Some(Theme::Auto),
        Some(name) => theme_named(name@),
    };
    match theme {
        None => None,
        Some(t) => Some(
            Settings {
                read_receipts: match f.read_receipts {
                    Some(b) => b,
                    None => true,
                },
                typing_indicators: match f.typing_indicators {
                    Some(b) => b,
                    None => true,
                },
                theme: t,
            },
        ),
    }
}

impl Settings {
    /// The settings a parsed file gives, `None` when its theme is unknown.
    pub fn from_file(f: &SettingsFile) -> (r: Option<Settings>)
        ensures
            r == settings_of_file(*f),
    {
        let theme = match &f.theme {
            None => Some(Theme::Auto),
            Some(name) => Theme::from_name(name.as_str()),
        };
        match theme {
            None => None,
            Some(t) => Some(
                Settings {
                    read_receipts: match f.read_receipts {
                        Some(b) => b,
                        None => default_true(),
                    },
                    typing_indicators: match f.typing_indicators {
                        Some(b) => b,
                        None => default_true(),
                    },
                    theme: t,
                },
            ),
        }
    }

    /// The settings to run with: `file` is the parsed settings file, or
    /// `None` when it is missing, unreadable or not a JSON object; a file
    /// that does not give settings falls back to the defaults as well.
    pub fn resolve(file: Option<SettingsFile>) -> (r: Settings)
        ensures
            r == match file {
                Some(f) => match settings_of_file(f) {
                    Some(s) => s,
                    None => default_settings(),
                },
                None => default_settings(),
            },
    {
        match file {
            Some(f) => match Settings::from_file(&f) {
                Some(s) => s,
                None => Settings::default(),
            },
            None => Settings::default(),
        }
    }

    /// The fields written to the settings file: every field, the theme by
    /// name.
    pub fn to_file(&self) -> (r: SettingsFile)
        ensures
            r.read_receipts == Some(self.read_receipts),
            r.typing_indicators == Some(self.typing_indicators),
            r.theme matches Some(name) && name@ == theme_name(self.theme),
    {
        SettingsFile {
            read_receipts: Some(self.read_receipts),
            typing_indicators: Some(self.typing_indicators),
            theme: Some(crate::text::owned(self.theme.name())),
        }
    }
}

/// Every theme's name reads back as that theme.
pub proof fn lemma_theme_name_round_trip(t: Theme)
    ensures
        theme_named(theme_name(t)) == Some(t),
{
    reveal_strlit("light");
    reveal_strlit("dark");
    reveal_strlit("auto");
    assert("dark"@.len() != "light"@.len());
    assert("auto"@.len() != "light"@.len());
    assert("auto"@[0] != "dark"@[0]);
}

/// Saved settings load back unchanged.
pub proof fn lemma_settings_round_trip(s: Settings, f: SettingsFile)
    requires
        f.read_receipts == Some(s.read_receipts),
        f.typing_indicators == Some(s.typing_indicators),
        f.theme matches Some(name) && name@ == theme_name(s.theme),
    ensures
        settings_of_file(f) == Some(s),
{
    lemma_theme_name_round_trip(s.theme);
}

/// A file with no fields gives the defaults.
pub proof fn lemma_empty_file_gives_defaults(f: SettingsFile)
    requires
        f.read_receipts is None,
        f.typing_indicators is None,
        f.theme is None,
    ensures
        settings_of_file(f) == Some(default_settings()),
{
}

} // verus!
