use arto::config::{Config, NewWindowBehavior, StartupBehavior};
use arto::theme::ThemePreference;

#[test]
fn test_config_default() {
    let config = Config::default();

    assert_eq!(config.theme.default_theme, ThemePreference::Auto);
    assert_eq!(config.theme.on_startup, StartupBehavior::Default);
    assert_eq!(config.theme.on_new_window, NewWindowBehavior::Default);

    assert_eq!(config.directory.default_directory, None);
    assert_eq!(config.directory.on_startup, StartupBehavior::Default);
    assert_eq!(config.directory.on_new_window, NewWindowBehavior::Default);

    assert!(!config.sidebar.default_open);
    assert_eq!(config.sidebar.default_width, 280);
    assert!(!config.sidebar.default_show_all_files);
    assert_eq!(config.sidebar.on_startup, StartupBehavior::Default);
    assert_eq!(config.sidebar.on_new_window, NewWindowBehavior::Default);
}
