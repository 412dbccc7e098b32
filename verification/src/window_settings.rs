//! Per-window values in the settings-window variant of the resolution:
//! the theme here is the concrete web-view theme rather than the
//! preference. The remaining resolutions coincide with
//! `crate::window_helpers` and are delegated to it.

use vstd::prelude::*;

use crate::config::{
    spec_choose, DirectoryConfig, NewWindowBehavior, StartupBehavior, ThemeConfig,
    WindowPositionConfig, WindowPositionMode, WindowSizeConfig,
};
use crate::config::{WindowPosition, WindowSize};
use crate::geometry::{Position, Size};
use crate::text::{opt_str_view, opt_string_view};
use crate::theme::{theme_of_preference, spec_theme_of_preference, Theme};
use crate::window_helpers;
use crate::window_helpers::{spec_directory_value, spec_resolve_directory};
use crate::window_helpers::{spec_window_position_from_state, spec_window_size_from_state};

verus! {

/// The theme resolved for one window, as a concrete web-view theme.
pub struct ThemeValue {
    pub theme: Theme,
}

/// The working directory resolved for one window.
pub struct DirectoryValue {
    pub directory: String,
}

/// Picks the default or the last value, by the startup behavior for the
/// first window and the new-window behavior for every later one, exactly
/// as `spec_choose` says.
pub fn choose_by_behavior<T>(
    is_first_window: bool,
    on_startup: StartupBehavior,
    on_new_window: NewWindowBehavior,
    default: T,
    last: T,
) -> (r: T)
    ensures
        r == spec_choose(is_first_window, on_startup, on_new_window, default, last),
{
    window_helpers::choose_by_behavior(is_first_window, on_startup, on_new_window, default, last)
}

/// Resolves a directory with fallbacks: the given one, else the home
/// directory, else the root.
pub fn resolve_directory(dir: Option<String>, home: Option<String>) -> (r: String)
    ensures
        r@ == spec_resolve_directory(opt_string_view(dir), opt_string_view(home)),
{
    window_helpers::resolve_directory(dir, home)
}

/// The theme resolved for one window: the configured default (as a
/// concrete theme) or the last window's theme, per the configured
/// behaviors.
pub fn get_theme_value(is_first_window: bool, cfg: &ThemeConfig, last_theme: Theme) -> (r:
    ThemeValue)
    ensures
        r.theme == spec_choose(
            is_first_window,
            cfg.on_startup,
            cfg.on_new_window,
            spec_theme_of_preference(cfg.default_theme),
            last_theme,
        ),
{
    let theme = choose_by_behavior(
        is_first_window,
        cfg.on_startup,
        cfg.on_new_window,
        theme_of_preference(cfg.default_theme),
        last_theme,
    );
    ThemeValue { theme }
}

/// The directory resolved for one window, exactly as
/// `spec_directory_value` says.
pub fn get_directory_value(
    is_first_window: bool,
    file: Option<&str>,
    directory: Option<&str>,
    cfg: &DirectoryConfig,
    last_directory: Option<&str>,
    home: Option<&str>,
) -> (r: DirectoryValue)
    ensures
        r.directory@ == spec_directory_value(
            is_first_window,
            opt_str_view(file),
            opt_str_view(directory),
            cfg.on_startup,
            cfg.on_new_window,
            opt_string_view(cfg.default_directory),
            opt_str_view(last_directory),
            opt_str_view(home),
        ),
{
    let v = window_helpers::get_directory_value(
        is_first_window,
        file,
        directory,
        cfg,
        last_directory,
        home,
    );
    DirectoryValue { directory: v.directory }
}

/// Converts a remembered window size into a pixel-unit configured size.
pub fn window_size_from_state(size: Size) -> (r: WindowSize)
    ensures
        r == spec_window_size_from_state(size),
{
    window_helpers::window_size_from_state(size)
}

/// Converts a remembered window position into a pixel-unit configured
/// position.
pub fn window_position_from_state(position: Position) -> (r: WindowPosition)
    ensures
        r == spec_window_position_from_state(position),
{
    window_helpers::window_position_from_state(position)
}

/// The position, position mode and size settings resolved for one window.
pub fn resolve_window_settings(
    is_first_window: bool,
    position_cfg: &WindowPositionConfig,
    size_cfg: &WindowSizeConfig,
    last_position: Position,
    last_size: Size,
) -> (r: (WindowPosition, WindowPositionMode, WindowSize))
    ensures
        r.0 == spec_choose(
            is_first_window,
            position_cfg.on_startup,
            position_cfg.on_new_window,
            position_cfg.default_position,
            spec_window_position_from_state(last_position),
        ),
        r.1 == spec_choose(
            is_first_window,
            position_cfg.on_startup,
            position_cfg.on_new_window,
            position_cfg.default_position_mode,
            WindowPositionMode::Coordinates,
        ),
        r.2 == spec_choose(
            is_first_window,
            size_cfg.on_startup,
            size_cfg.on_new_window,
            size_cfg.default_size,
            spec_window_size_from_state(last_size),
        ),
{
    window_helpers::resolve_window_settings(
        is_first_window,
        position_cfg,
        size_cfg,
        last_position,
        last_size,
    )
}

} // verus!
