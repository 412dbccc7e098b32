//! Theme preference and its resolution against the system appearance.

use vstd::prelude::*;

use crate::paths::eq_str;

verus! {

/// The user's theme preference: follow the system, or force light or dark.
#[derive(Clone, Copy, Debug, PartialEq, Eq, Structural)]
pub enum ThemePreference {
    Auto,
    Light,
    Dark,
}

impl Default for ThemePreference {
    fn default() -> (r: ThemePreference)
        ensures
            r == ThemePreference::Auto,
    {
        ThemePreference::Auto
    }
}

/// The preference a name stands for: `light` and `dark` name themselves,
/// anything else means `Auto`.
pub open spec fn spec_preference_of(s: Seq<char>) -> ThemePreference {
    if s == "light"@ {
        ThemePreference::Light
    } else if s == "dark"@ {
        ThemePreference::Dark
    } else {
        ThemePreference::Auto
    }
}

impl ThemePreference {
    /// Reads a preference from its name, exactly as `spec_preference_of`
    /// says.
    pub fn from_name(s: &str) -> (r: ThemePreference)
        ensures
            r == spec_preference_of(s@),
    {
        if eq_str(s, "light") {
            ThemePreference::Light
        } else if eq_str(s, "dark") {
            ThemePreference::Dark
        } else {
            ThemePreference::Auto
        }
    }
}

/// A concrete theme of the hosting web view.
#[derive(Clone, Copy, Debug, PartialEq, Eq, Structural)]
pub enum Theme {
    Auto,
    Light,
    Dark,
}

/// The system's current appearance, as the operating system reports it.
#[derive(Clone, Copy, Debug, PartialEq, Eq, Structural)]
pub enum SystemAppearance {
    Light,
    Dark,
    Unknown,
}

/// The theme a preference resolves to: a forced preference wins; `Auto`
/// follows the system appearance, with light as the fallback.
pub open spec fn spec_resolve_theme(theme: ThemePreference, system: SystemAppearance) -> Theme {
    match theme {
        ThemePreference::Auto => match system {
            SystemAppearance::Dark => Theme::Dark,
            _ => Theme::Light,
        },
        ThemePreference::Light => Theme::Light,
        ThemePreference::Dark => Theme::Dark,
    }
}

/// Resolves a preference against the system appearance, exactly as
/// `spec_resolve_theme` says. The caller reads the appearance from the
/// operating system.
pub fn resolve_theme(theme: ThemePreference, system: SystemAppearance) -> (r: Theme)
    ensures
        r == spec_resolve_theme(theme, system),
{
    match theme {
        ThemePreference::Auto => match system {
            SystemAppearance::Dark => Theme::Dark,
            _ => Theme::Light,
        },
        ThemePreference::Light => Theme::Light,
        ThemePreference::Dark => Theme::Dark,
    }
}

/// The concrete theme a preference names outright.
pub open spec fn spec_theme_of_preference(p: ThemePreference) -> Theme {
    match p {
        ThemePreference::Auto => Theme::Auto,
        ThemePreference::Light => Theme::Light,
        ThemePreference::Dark => Theme::Dark,
    }
}

/// Converts a preference to the theme of the same name.
pub fn theme_of_preference(p: ThemePreference) -> (r: Theme)
    ensures
        r == spec_theme_of_preference(p),
{
    match p {
        ThemePreference::Auto => Theme::Auto,
        ThemePreference::Light => Theme::Light,
        ThemePreference::Dark => Theme::Dark,
    }
}

} // verus!
