//! Per-window values resolved from configuration and the last window's
//! state: theme preference and working directory. The caller reads the
//! configuration and state and hands them in as plain values.

use vstd::prelude::*;

use crate::config::{
    spec_choose, DirectoryConfig, NewWindowBehavior, StartupBehavior, ThemeConfig,
    WindowPositionConfig, WindowPositionMode, WindowSizeConfig,
};
use crate::config::{WindowDimension, WindowDimensionUnit, WindowPosition, WindowSize};
use crate::geometry::{Position, Size};
use crate::paths::{parent_of, spec_parent};
use crate::text::{opt_str_view, opt_string_view};
use crate::theme::ThemePreference;

verus! {

/// The theme value resolved for one window.
pub struct ThemeValue {
    pub theme: ThemePreference,
}

/// The working directory resolved for one window.
pub struct DirectoryValue {
    pub directory: String,
}

/// Picks the default or the last value, by the startup behavior for the
/// first window and the new-window behavior for every later one, exactly
/// as `spec_choose` says.
pub fn choose_by_behavior<T>(
    is_first_window: bool,
    on_startup: StartupBehavior,
    on_new_window: NewWindowBehavior,
    default: T,
    last: T,
) -> (r: T)
    ensures
        r == spec_choose(is_first_window, on_startup, on_new_window, default, last),
{
    if is_first_window {
        match on_startup {
            StartupBehavior::Default => default,
            StartupBehavior::LastClosed => last,
        }
    } else {
        match on_new_window {
            NewWindowBehavior::Default => default,
            NewWindowBehavior::LastFocused => last,
        }
    }
}

/// The directory a fallback chain settles on: the given one, else the home
/// directory, else the root.
pub open spec fn spec_resolve_directory(
    dir: Option<Seq<char>>,
    home: Option<Seq<char>>,
) -> Seq<char> {
    match dir {
        Some(d) => d,
        None => match home {
            Some(h) => h,
            None => "/"@,
        },
    }
}

/// Resolves a directory with fallbacks, exactly as `spec_resolve_directory`
/// says. The caller passes the home directory, when it has one.
pub fn resolve_directory(dir: Option<String>, home: Option<String>) -> (r: String)
    ensures
        r@ == spec_resolve_directory(opt_string_view(dir), opt_string_view(home)),
{
    match dir {
        Some(d) => d,
        None => match home {
            Some(h) => h,
            None => {
                let r = "/".to_owned();
                r
            },
        },
    }
}

/// The theme resolved for one window: the configured default or the last
/// window's theme, per the configured behaviors.
pub fn get_theme_value(is_first_window: bool, cfg: &ThemeConfig, last_theme: ThemePreference) -> (r:
    ThemeValue)
    ensures
        r.theme == spec_choose(
            is_first_window,
            cfg.on_startup,
            cfg.on_new_window,
            cfg.default_theme,
            last_theme,
        ),
{
    let theme = choose_by_behavior(
        is_first_window,
        cfg.on_startup,
        cfg.on_new_window,
        cfg.default_theme,
        last_theme,
    );
    ThemeValue { theme }
}

/// The directory value a window resolves to: an explicitly given
/// directory wins; else the parent of an explicitly given file; else the
/// configured default or the last window's directory (falling back to the
/// default), resolved against the home directory and the root.
pub open spec fn spec_directory_value(
    is_first_window: bool,
    file: Option<Seq<char>>,
    directory: Option<Seq<char>>,
    on_startup: StartupBehavior,
    on_new_window: NewWindowBehavior,
    default_directory: Option<Seq<char>>,
    last_directory: Option<Seq<char>>,
    home: Option<Seq<char>>,
) -> Seq<char> {
    match directory {
        Some(d) => d,
        None => {
            let parent = match file {
                Some(f) => spec_parent(f),
                None => None,
            };
            match parent {
                Some(p) => p,
                None => {
                    let last = match last_directory {
                        Some(l) => Some(l),
                        None => default_directory,
                    };
                    let chosen = spec_choose(
                        is_first_window,
                        on_startup,
                        on_new_window,
                        default_directory,
                        last,
                    );
                    spec_resolve_directory(chosen, home)
                },
            }
        },
    }
}

/// A copy of an optional string.
fn clone_opt_string(o: &Option<String>) -> (r: Option<String>)
    ensures
        opt_string_view(r) == opt_string_view(*o),
{
    match o {
        Some(s) => Some(s.clone()),
        None => None,
    }
}

/// An owned copy of an optional string slice.
fn own_opt_str(o: Option<&str>) -> (r: Option<String>)
    ensures
        opt_string_view(r) == opt_str_view(o),
{
    match o {
        Some(s) => Some(s.to_owned()),
        None => None,
    }
}

/// The directory resolved for one window, exactly as
/// `spec_directory_value` says.
pub fn get_directory_value(
    is_first_window: bool,
    file: Option<&str>,
    directory: Option<&str>,
    cfg: &DirectoryConfig,
    last_directory: Option<&str>,
    home: Option<&str>,
) -> (r: DirectoryValue)
    ensures
        r.directory@ == spec_directory_value(
            is_first_window,
            opt_str_view(file),
            opt_str_view(directory),
            cfg.on_startup,
            cfg.on_new_window,
            opt_string_view(cfg.default_directory),
            opt_str_view(last_directory),
            opt_str_view(home),
        ),
{
    if let Some(d) = directory {
        return DirectoryValue { directory: d.to_owned() };
    }
    if let Some(f) = file {
        if let Some(p) = parent_of(f) {
            return DirectoryValue { directory: p };
        }
    }
    let last = match own_opt_str(last_directory) {
        Some(l) => Some(l),
        None => clone_opt_string(&cfg.default_directory),
    };
    let chosen = choose_by_behavior(
        is_first_window,
        cfg.on_startup,
        cfg.on_new_window,
        clone_opt_string(&cfg.default_directory),
        last,
    );
    let directory = resolve_directory(chosen, own_opt_str(home));
    DirectoryValue { directory }
}

/// A window size remembered from state, as a pixel-unit configured size.
pub open spec fn spec_window_size_from_state(size: Size) -> WindowSize {
    WindowSize {
        width: WindowDimension { value: size.width as i64, unit: WindowDimensionUnit::Pixels },
        height: WindowDimension { value: size.height as i64, unit: WindowDimensionUnit::Pixels },
    }
}

/// Converts a remembered window size into a pixel-unit configured size.
pub fn window_size_from_state(size: Size) -> (r: WindowSize)
    ensures
        r == spec_window_size_from_state(size),
{
    WindowSize {
        width: WindowDimension { value: size.width as i64, unit: WindowDimensionUnit::Pixels },
        height: WindowDimension { value: size.height as i64, unit: WindowDimensionUnit::Pixels },
    }
}

/// A window position remembered from state, as a pixel-unit configured
/// position.
pub open spec fn spec_window_position_from_state(position: Position) -> WindowPosition {
    WindowPosition {
        x: WindowDimension { value: position.x as i64, unit: WindowDimensionUnit::Pixels },
        y: WindowDimension { value: position.y as i64, unit: WindowDimensionUnit::Pixels },
    }
}

/// Converts a remembered window position into a pixel-unit configured
/// position.
pub fn window_position_from_state(position: Position) -> (r: WindowPosition)
    ensures
        r == spec_window_position_from_state(position),
{
    WindowPosition {
        x: WindowDimension { value: position.x as i64, unit: WindowDimensionUnit::Pixels },
        y: WindowDimension { value: position.y as i64, unit: WindowDimensionUnit::Pixels },
    }
}

/// The position, position mode and size settings resolved for one window:
/// each is the configured default or the last window's value, per the
/// configured behaviors; the position mode from a last window is always
/// plain coordinates.
pub fn resolve_window_settings(
    is_first_window: bool,
    position_cfg: &WindowPositionConfig,
    size_cfg: &WindowSizeConfig,
    last_position: Position,
    last_size: Size,
) -> (r: (WindowPosition, WindowPositionMode, WindowSize))
    ensures
        r.0 == spec_choose(
            is_first_window,
            position_cfg.on_startup,
            position_cfg.on_new_window,
            position_cfg.default_position,
            spec_window_position_from_state(last_position),
        ),
        r.1 == spec_choose(
            is_first_window,
            position_cfg.on_startup,
            position_cfg.on_new_window,
            position_cfg.default_position_mode,
            WindowPositionMode::Coordinates,
        ),
        r.2 == spec_choose(
            is_first_window,
            size_cfg.on_startup,
            size_cfg.on_new_window,
            size_cfg.default_size,
            spec_window_size_from_state(last_size),
        ),
{
    let position = choose_by_behavior(
        is_first_window,
        position_cfg.on_startup,
        position_cfg.on_new_window,
        position_cfg.default_position,
        window_position_from_state(last_position),
    );
    let position_mode = choose_by_behavior(
        is_first_window,
        position_cfg.on_startup,
        position_cfg.on_new_window,
        position_cfg.default_position_mode,
        WindowPositionMode::Coordinates,
    );
    let size = choose_by_behavior(
        is_first_window,
        size_cfg.on_startup,
        size_cfg.on_new_window,
        size_cfg.default_size,
        window_size_from_state(last_size),
    );
    (position, position_mode, size)
}

} // verus!
