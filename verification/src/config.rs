//! Application configuration: theme, directory and sidebar settings, and
//! the window position and size settings with their dimension arithmetic.

use vstd::prelude::*;

use crate::theme::ThemePreference;

verus! {

/// Behavior on application startup: the configured default, or what the
/// last closed window had.
#[derive(Clone, Copy, Debug, PartialEq, Eq, Structural)]
pub enum StartupBehavior {
    Default,
    LastClosed,
}

impl Default for StartupBehavior {
    fn default() -> (r: StartupBehavior)
        ensures
            r == StartupBehavior::Default,
    {
        StartupBehavior::Default
    }
}

/// Behavior when opening a new window: the configured default, or what the
/// last focused window has.
#[derive(Clone, Copy, Debug, PartialEq, Eq, Structural)]
pub enum NewWindowBehavior {
    Default,
    LastFocused,
}

impl Default for NewWindowBehavior {
    fn default() -> (r: NewWindowBehavior)
        ensures
            r == NewWindowBehavior::Default,
    {
        NewWindowBehavior::Default
    }
}

/// Configuration for theme-related settings.
#[derive(Clone, Copy, Debug, PartialEq, Eq, Structural)]
pub struct ThemeConfig {
    /// Default theme preference.
    pub default_theme: ThemePreference,
    /// Behavior on app startup.
    pub on_startup: StartupBehavior,
    /// Behavior when opening a new window.
    pub on_new_window: NewWindowBehavior,
}

impl Default for ThemeConfig {
    fn default() -> (r: ThemeConfig)
        ensures
            r.default_theme == ThemePreference::Auto,
            r.on_startup == StartupBehavior::Default,
            r.on_new_window == NewWindowBehavior::Default,
    {
        ThemeConfig {
            default_theme: ThemePreference::Auto,
            on_startup: StartupBehavior::Default,
            on_new_window: NewWindowBehavior::Default,
        }
    }
}

/// Configuration for the working directory.
#[derive(Clone, Debug, PartialEq)]
pub struct DirectoryConfig {
    /// Default directory, if one is configured.
    pub default_directory: Option<String>,
    /// Behavior on app startup.
    pub on_startup: StartupBehavior,
    /// Behavior when opening a new window.
    pub on_new_window: NewWindowBehavior,
}

impl Default for DirectoryConfig {
    fn default() -> (r: DirectoryConfig)
        ensures
            r.default_directory is None,
            r.on_startup == StartupBehavior::Default,
            r.on_new_window == NewWindowBehavior::Default,
    {
        DirectoryConfig {
            default_directory: None,
            on_startup: StartupBehavior::Default,
            on_new_window: NewWindowBehavior::Default,
        }
    }
}

/// Configuration for the sidebar. The width is in whole logical pixels.
#[derive(Clone, Copy, Debug, PartialEq, Eq, Structural)]
pub struct SidebarConfig {
    /// Whether the sidebar starts open.
    pub default_open: bool,
    /// Default width, in logical pixels.
    pub default_width: i64,
    /// Whether all files (not only Markdown files) are listed.
    pub default_show_all_files: bool,
    /// Behavior on app startup.
    pub on_startup: StartupBehavior,
    /// Behavior when opening a new window.
    pub on_new_window: NewWindowBehavior,
}

impl Default for SidebarConfig {
    fn default() -> (r: SidebarConfig)
        ensures
            !r.default_open,
            r.default_width == 280,
            !r.default_show_all_files,
            r.on_startup == StartupBehavior::Default,
            r.on_new_window == NewWindowBehavior::Default,
    {
        SidebarConfig {
            default_open: false,
            default_width: 280,
            default_show_all_files: false,
            on_startup: StartupBehavior::Default,
            on_new_window: NewWindowBehavior::Default,
        }
    }
}

/// Global application configuration.
#[derive(Clone, Debug, PartialEq)]
pub struct Config {
    pub directory: DirectoryConfig,
    pub theme: ThemeConfig,
    pub sidebar: SidebarConfig,
}

impl Default for Config {
    fn default() -> (r: Config)
        ensures
            r.directory == (DirectoryConfig {
                default_directory: None,
                on_startup: StartupBehavior::Default,
                on_new_window: NewWindowBehavior::Default,
            }),
            r.theme == (ThemeConfig {
                default_theme: ThemePreference::Auto,
                on_startup: StartupBehavior::Default,
                on_new_window: NewWindowBehavior::Default,
            }),
            r.sidebar == (SidebarConfig {
                default_open: false,
                default_width: 280,
                default_show_all_files: false,
                on_startup: StartupBehavior::Default,
                on_new_window: NewWindowBehavior::Default,
            }),
    {
        Config {
            directory: DirectoryConfig::default(),
            theme: ThemeConfig::default(),
            sidebar: SidebarConfig::default(),
        }
    }
}

/// Which of two values a behavior setting picks: the first window goes by
/// the startup behavior, every later window by the new-window behavior;
/// `Default` picks the configured default, the other variant the last
/// window's value.
pub open spec fn spec_choose<T>(
    is_first_window: bool,
    on_startup: StartupBehavior,
    on_new_window: NewWindowBehavior,
    default: T,
    last: T,
) -> T {
    if is_first_window {
        match on_startup {
            StartupBehavior::Default => default,
            StartupBehavior::LastClosed => last,
        }
    } else {
        match on_new_window {
            NewWindowBehavior::Default => default,
            NewWindowBehavior::LastFocused => last,
        }
    }
}

/// The unit of one configured window dimension.
#[derive(Clone, Copy, Debug, PartialEq, Eq, Structural)]
pub enum WindowDimensionUnit {
    Pixels,
    Percent,
}

/// One configured window dimension: a whole value in pixels, or a
/// percentage of the available space.
#[derive(Clone, Copy, Debug, PartialEq, Eq, Structural)]
pub struct WindowDimension {
    pub value: i64,
    pub unit: WindowDimensionUnit,
}

/// A percentage dimension clamped into `0..=100`; a pixel dimension is
/// left alone.
pub open spec fn spec_clamp_percent(d: WindowDimension) -> WindowDimension {
    match d.unit {
        WindowDimensionUnit::Percent => WindowDimension {
            value: if d.value < 0 {
                0
            } else if d.value > 100 {
                100
            } else {
                d.value
            },
            unit: WindowDimensionUnit::Percent,
        },
        WindowDimensionUnit::Pixels => d,
    }
}

/// What a dimension resolves to against a total: the given share of the
/// total for a percentage, the value itself for pixels.
pub open spec fn spec_resolve_dimension(d: WindowDimension, total: int) -> int {
    match d.unit {
        WindowDimensionUnit::Percent => (total * d.value) / 100,
        WindowDimensionUnit::Pixels => d.value as int,
    }
}

impl WindowDimension {
    /// Clamps a percentage into `0..=100`, exactly as `spec_clamp_percent`
    /// says.
    pub fn clamp_percent(self) -> (r: WindowDimension)
        ensures
            r == spec_clamp_percent(self),
    {
        match self.unit {
            WindowDimensionUnit::Percent => {
                let v = if self.value < 0 {
                    0
                } else if self.value > 100 {
                    100
                } else {
                    self.value
                };
                WindowDimension { value: v, unit: WindowDimensionUnit::Percent }
            },
            WindowDimensionUnit::Pixels => self,
        }
    }

    /// Resolves this dimension against a total, exactly as
    /// `spec_resolve_dimension` says. A percentage must already be clamped
    /// and the total non-negative and within screen-coordinate range.
    pub fn resolve(self, total: i64) -> (r: i64)
        requires
            self.unit == WindowDimensionUnit::Percent ==> 0 <= self.value <= 100 && 0 <= total
                <= 0x7fff_ffff,
        ensures
            r == spec_resolve_dimension(self, total as int),
    {
        match self.unit {
            WindowDimensionUnit::Percent => {
                proof {
                    assert(0 <= total * self.value <= 0x7fff_ffff * 100) by (nonlinear_arith)
                        requires
                            0 <= total <= 0x7fff_ffff,
                            0 <= self.value <= 100,
                    ;
                }
                (total * self.value) / 100
            },
            WindowDimensionUnit::Pixels => self.value,
        }
    }
}

/// A clamped percentage resolves to a share between zero and the whole
/// total; a pixel dimension is untouched by the total.
pub proof fn lemma_percent_resolve_bounds(d: WindowDimension, total: int)
    requires
        d.unit == WindowDimensionUnit::Percent ==> 0 <= d.value <= 100,
        total >= 0,
    ensures
        d.unit == WindowDimensionUnit::Percent ==> 0 <= spec_resolve_dimension(d, total) <= total,
{
    if d.unit == WindowDimensionUnit::Percent {
        assert(0 <= (total * d.value) / 100 <= total) by (nonlinear_arith)
            requires
                0 <= d.value <= 100,
                total >= 0,
        ;
    }
}

/// A configured window size.
#[derive(Clone, Copy, Debug, PartialEq, Eq, Structural)]
pub struct WindowSize {
    pub width: WindowDimension,
    pub height: WindowDimension,
}

/// A configured window position.
#[derive(Clone, Copy, Debug, PartialEq, Eq, Structural)]
pub struct WindowPosition {
    pub x: WindowDimension,
    pub y: WindowDimension,
}

/// A fixed offset applied to a window position, in logical pixels.
#[derive(Clone, Copy, Debug, PartialEq, Eq, Structural)]
pub struct WindowPositionOffset {
    pub x: i32,
    pub y: i32,
}

/// How a new window is placed: at configured coordinates, or at the mouse
/// cursor.
#[derive(Clone, Copy, Debug, PartialEq, Eq, Structural)]
pub enum WindowPositionMode {
    Coordinates,
    Mouse,
}

/// Configuration for window positioning.
#[derive(Clone, Copy, Debug, PartialEq, Eq, Structural)]
pub struct WindowPositionConfig {
    pub default_position: WindowPosition,
    pub default_position_mode: WindowPositionMode,
    pub position_offset: WindowPositionOffset,
    /// Behavior on app startup.
    pub on_startup: StartupBehavior,
    /// Behavior when opening a new window.
    pub on_new_window: NewWindowBehavior,
}

impl Default for WindowPositionConfig {
    fn default() -> (r: WindowPositionConfig)
        ensures
            r == (WindowPositionConfig {
                default_position: WindowPosition {
                    x: WindowDimension { value: 50, unit: WindowDimensionUnit::Percent },
                    y: WindowDimension { value: 50, unit: WindowDimensionUnit::Percent },
                },
                default_position_mode: WindowPositionMode::Coordinates,
                position_offset: WindowPositionOffset { x: 10, y: 10 },
                on_startup: StartupBehavior::Default,
                on_new_window: NewWindowBehavior::Default,
            }),
    {
        WindowPositionConfig {
            default_position: WindowPosition {
                x: WindowDimension { value: 50, unit: WindowDimensionUnit::Percent },
                y: WindowDimension { value: 50, unit: WindowDimensionUnit::Percent },
            },
            default_position_mode: WindowPositionMode::Coordinates,
            position_offset: WindowPositionOffset { x: 10, y: 10 },
            on_startup: StartupBehavior::Default,
            on_new_window: NewWindowBehavior::Default,
        }
    }
}

/// Configuration for window sizing.
#[derive(Clone, Copy, Debug, PartialEq, Eq, Structural)]
pub struct WindowSizeConfig {
    pub default_size: WindowSize,
    /// Behavior on app startup.
    pub on_startup: StartupBehavior,
    /// Behavior when opening a new window.
    pub on_new_window: NewWindowBehavior,
}

impl Default for WindowSizeConfig {
    fn default() -> (r: WindowSizeConfig)
        ensures
            r == (WindowSizeConfig {
                default_size: WindowSize {
                    width: WindowDimension { value: 80, unit: WindowDimensionUnit::Percent },
                    height: WindowDimension { value: 80, unit: WindowDimensionUnit::Percent },
                },
                on_startup: StartupBehavior::Default,
                on_new_window: NewWindowBehavior::Default,
            }),
    {
        WindowSizeConfig {
            default_size: WindowSize {
                width: WindowDimension { value: 80, unit: WindowDimensionUnit::Percent },
                height: WindowDimension { value: 80, unit: WindowDimensionUnit::Percent },
            },
            on_startup: StartupBehavior::Default,
            on_new_window: NewWindowBehavior::Default,
        }
    }
}

} // verus!
