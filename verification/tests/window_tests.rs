use arto::config::{
    DirectoryConfig, ThemeConfig, WindowDimension, WindowDimensionUnit, WindowPosition,
    WindowPositionOffset, WindowSize,
};
use arto::geometry::{
    resolve_window_position, resolve_window_size, shift_position_if_needed, Position, Size,
};
use arto::theme::{Theme, ThemePreference};
use arto::window_index::{build_custom_index, build_mermaid_window_index};
use arto::{window_helpers, window_settings};

#[test]
fn helpers_test_resolve_directory_with_some() {
    let path = "/custom/path".to_string();
    let result = window_helpers::resolve_directory(Some(path.clone()), None);
    assert_eq!(result, path);
}

#[test]
fn helpers_test_resolve_directory_with_none() {
    let result = window_helpers::resolve_directory(None, Some("/home/user".to_string()));
    assert_eq!(result, "/home/user");
    let result = window_helpers::resolve_directory(None, None);
    assert_eq!(result, "/");
}

#[test]
fn helpers_test_get_theme_value_first_window() {
    let result =
        window_helpers::get_theme_value(true, &ThemeConfig::default(), ThemePreference::Auto);
    assert!(matches!(
        result.theme,
        ThemePreference::Auto | ThemePreference::Light | ThemePreference::Dark
    ));
}

#[test]
fn helpers_test_get_theme_value_new_window() {
    let result =
        window_helpers::get_theme_value(false, &ThemeConfig::default(), ThemePreference::Auto);
    assert!(matches!(
        result.theme,
        ThemePreference::Auto | ThemePreference::Light | ThemePreference::Dark
    ));
}

#[test]
fn helpers_test_get_directory_value_first_window() {
    let result = window_helpers::get_directory_value(
        true,
        None,
        None,
        &DirectoryConfig::default(),
        None,
        None,
    );
    assert!(!result.directory.is_empty());
}

#[test]
fn helpers_test_get_directory_value_new_window() {
    let result = window_helpers::get_directory_value(
        false,
        None,
        None,
        &DirectoryConfig::default(),
        None,
        None,
    );
    assert!(!result.directory.is_empty());
}

#[test]
fn settings_test_resolve_directory_with_some() {
    let path = "/custom/path".to_string();
    let result = window_settings::resolve_directory(Some(path.clone()), None);
    assert_eq!(result, path);
}

#[test]
fn settings_test_resolve_directory_with_none() {
    let result = window_settings::resolve_directory(None, Some("/home/user".to_string()));
    assert_eq!(result, "/home/user");
    let result = window_settings::resolve_directory(None, None);
    assert_eq!(result, "/");
}

#[test]
fn settings_test_get_theme_value_first_window() {
    let result = window_settings::get_theme_value(true, &ThemeConfig::default(), Theme::Auto);
    assert!(matches!(
        result.theme,
        Theme::Auto | Theme::Light | Theme::Dark
    ));
}

#[test]
fn settings_test_get_theme_value_new_window() {
    let result = window_settings::get_theme_value(false, &ThemeConfig::default(), Theme::Auto);
    assert!(matches!(
        result.theme,
        Theme::Auto | Theme::Light | Theme::Dark
    ));
}

#[test]
fn settings_test_get_directory_value_first_window() {
    let result = window_settings::get_directory_value(
        true,
        None,
        None,
        &DirectoryConfig::default(),
        None,
        None,
    );
    assert!(!result.directory.is_empty());
}

#[test]
fn settings_test_get_directory_value_new_window() {
    let result = window_settings::get_directory_value(
        false,
        None,
        None,
        &DirectoryConfig::default(),
        None,
        None,
    );
    assert!(!result.directory.is_empty());
}

#[test]
fn test_resolve_window_size_enforces_minimum() {
    let size = WindowSize {
        width: WindowDimension {
            value: 10,
            unit: WindowDimensionUnit::Pixels,
        },
        height: WindowDimension {
            value: 5,
            unit: WindowDimensionUnit::Pixels,
        },
    };
    let resolved = resolve_window_size(size, 800, 600);
    assert_eq!(resolved.width, 100);
    assert_eq!(resolved.height, 100);
}

#[test]
fn test_resolve_window_position_percent() {
    let position = WindowPosition {
        x: WindowDimension {
            value: 50,
            unit: WindowDimensionUnit::Percent,
        },
        y: WindowDimension {
            value: 25,
            unit: WindowDimensionUnit::Percent,
        },
    };
    let screen_origin = Position { x: 0, y: 0 };
    let window_size = Size {
        width: 200,
        height: 100,
    };
    let resolved = resolve_window_position(position, screen_origin, 1000, 800, window_size);
    assert_eq!(resolved.x, 400);
    assert_eq!(resolved.y, 175);
}

#[test]
fn test_resolve_window_position_with_negative_origin() {
    let position = WindowPosition {
        x: WindowDimension {
            value: 10,
            unit: WindowDimensionUnit::Pixels,
        },
        y: WindowDimension {
            value: 20,
            unit: WindowDimensionUnit::Pixels,
        },
    };
    let screen_origin = Position { x: -300, y: -200 };
    let window_size = Size {
        width: 200,
        height: 100,
    };
    let resolved = resolve_window_position(position, screen_origin, 800, 600, window_size);
    assert_eq!(resolved.x, -290);
    assert_eq!(resolved.y, -180);
}

#[test]
fn test_resolve_window_size_clamps_to_screen() {
    let size = WindowSize {
        width: WindowDimension {
            value: 2000,
            unit: WindowDimensionUnit::Pixels,
        },
        height: WindowDimension {
            value: 1600,
            unit: WindowDimensionUnit::Pixels,
        },
    };
    let resolved = resolve_window_size(size, 1200, 900);
    assert_eq!(resolved.width, 1200);
    assert_eq!(resolved.height, 900);
}

#[test]
fn test_shift_position_if_needed_no_offset() {
    let base = Position { x: 10, y: 10 };
    let result = shift_position_if_needed(
        base,
        Size {
            width: 100,
            height: 100,
        },
        WindowPositionOffset { x: 0, y: 0 },
        Position { x: 0, y: 0 },
        Size {
            width: 500,
            height: 500,
        },
        &vec![],
    );
    assert_eq!(result, base);
}

#[test]
fn test_shift_position_if_needed_shifts_when_occupied() {
    let base = Position { x: 0, y: 0 };
    let result = shift_position_if_needed(
        base,
        Size {
            width: 50,
            height: 50,
        },
        WindowPositionOffset { x: 20, y: 20 },
        Position { x: 0, y: 0 },
        Size {
            width: 200,
            height: 200,
        },
        &vec![base],
    );
    assert_eq!(result, Position { x: 20, y: 20 });
}

#[test]
fn test_shift_position_if_needed_bounces_on_bounds() {
    let base = Position { x: 50, y: 50 };
    let result = shift_position_if_needed(
        base,
        Size {
            width: 50,
            height: 50,
        },
        WindowPositionOffset { x: 20, y: 20 },
        Position { x: 0, y: 0 },
        Size {
            width: 100,
            height: 100,
        },
        &vec![base],
    );
    assert_eq!(result, Position { x: 30, y: 30 });
}

#[test]
fn test_shift_position_if_needed_with_oversized_window_width() {
    let base = Position { x: 10, y: 10 };
    let result = shift_position_if_needed(
        base,
        Size {
            width: 500,
            height: 50,
        },
        WindowPositionOffset { x: 20, y: 20 },
        Position { x: 0, y: 0 },
        Size {
            width: 100,
            height: 100,
        },
        &vec![base],
    );
    assert_eq!(result, Position { x: 0, y: 30 });
}

#[test]
fn test_shift_position_if_needed_with_oversized_window() {
    let base = Position { x: 10, y: 10 };
    let result = shift_position_if_needed(
        base,
        Size {
            width: 500,
            height: 500,
        },
        WindowPositionOffset { x: 20, y: 20 },
        Position { x: 0, y: 0 },
        Size {
            width: 100,
            height: 100,
        },
        &vec![base],
    );
    assert_eq!(result, Position { x: 0, y: 0 });
}

#[test]
fn test_shift_position_if_needed_with_negative_origin() {
    let base = Position { x: -240, y: 20 };
    let result = shift_position_if_needed(
        base,
        Size {
            width: 100,
            height: 100,
        },
        WindowPositionOffset { x: 20, y: 20 },
        Position { x: -300, y: -200 },
        Size {
            width: 200,
            height: 200,
        },
        &vec![base],
    );
    assert_eq!(result, Position { x: -240, y: -100 });
}

#[test]
fn test_build_index_pages() {
    let page = build_custom_index(Theme::Dark);
    assert!(page.starts_with("<!DOCTYPE html>"));
    assert!(page.contains(r#"<body data-theme="dark">"#));
    assert!(page.contains("<!-- MODULE LOADER -->"));
    let page = build_mermaid_window_index(Theme::Light);
    assert!(page.contains(r#"data-theme="light""#));
    assert!(page.contains("mermaid-window-body"));
    assert!(page.contains("Mermaid Viewer - Arto"));
}
