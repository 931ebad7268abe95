//! Theme mode, settings tabs and web view settings tests.
use browser_shell::settings::{SettingValue, SettingsUi};
use browser_shell::theme::{
    color_scheme_prefers_dark, interface_style_is_dark, light_theme_turned_off, theme_name_is_dark,
    Color32, SettingsTab, Theme, ThemeManager, ThemeMode,
};
use browser_shell::webview::{EmbedConfig, LoadState, WebViewBounds, WebViewConfig};
use std::str::FromStr;

#[test]
fn test_theme_mode_default() {
    let mode = ThemeMode::default();
    assert_eq!(mode, ThemeMode::Light);
}

#[test]
fn test_theme_mode_from_str() {
    assert_eq!(ThemeMode::from_str("light").unwrap(), ThemeMode::Light);
    assert_eq!(ThemeMode::from_str("Light").unwrap(), ThemeMode::Light);
    assert_eq!(ThemeMode::from_str("LIGHT").unwrap(), ThemeMode::Light);
    assert_eq!(ThemeMode::from_str("dark").unwrap(), ThemeMode::Dark);
    assert_eq!(ThemeMode::from_str("Dark").unwrap(), ThemeMode::Dark);
    assert_eq!(ThemeMode::from_str("auto").unwrap(), ThemeMode::Auto);
    assert_eq!(ThemeMode::from_str("system").unwrap(), ThemeMode::Auto);
    assert_eq!(ThemeMode::from_str("invalid").unwrap(), ThemeMode::Light);
}

#[test]
fn test_theme_mode_as_str() {
    assert_eq!(ThemeMode::Light.as_str(), "light");
    assert_eq!(ThemeMode::Dark.as_str(), "dark");
    assert_eq!(ThemeMode::Auto.as_str(), "auto");
}

#[test]
fn theme_mode_round_trips_through_text() {
    for m in [ThemeMode::Light, ThemeMode::Dark, ThemeMode::Auto] {
        assert_eq!(ThemeMode::parse(m.as_str()), m);
    }
    assert_eq!(ThemeMode::parse("SYSTEM"), ThemeMode::Auto);
}

#[test]
fn test_tab_names() {
    assert_eq!(SettingsTab::General.name(), "General");
    assert_eq!(SettingsTab::Privacy.name(), "Privacy");
}

#[test]
fn test_all_tabs() {
    let tabs = SettingsTab::all();
    assert_eq!(tabs.len(), 6);
    assert_eq!(tabs[0], SettingsTab::General);
    assert_eq!(tabs[5], SettingsTab::Advanced);
}

#[test]
fn settings_tab_icons() {
    assert_eq!(SettingsTab::General.icon(), "\u{2699}");
    assert_eq!(SettingsTab::Downloads.icon(), "\u{2b07}");
}

#[test]
fn test_embed_config_default() {
    let config = EmbedConfig::default();
    assert_eq!(config.initial_url, "about:blank");
    assert!(config.javascript_enabled);
    assert!(!config.devtools_enabled);
    assert_eq!(config.background_color, [255, 255, 255, 255]);
    assert_eq!(config.ipc_handler_name, "cortenIpc");
}

#[test]
fn test_webview_bounds_default() {
    let bounds = WebViewBounds::default();
    assert_eq!(bounds.x, 0);
    assert_eq!(bounds.y, 0);
    assert_eq!(bounds.width, 800);
    assert_eq!(bounds.height, 600);
}

#[test]
fn webview_config_default() {
    let config = WebViewConfig::default();
    assert!(config.javascript_enabled);
    assert!(!config.devtools_enabled);
    assert_eq!(config.user_agent, "CortenBrowser/0.4.0");
    assert_eq!(config.cache_size, 100 * 1024 * 1024);
    assert_ne!(LoadState::Idle, LoadState::Loading);
}

#[test]
fn test_settings_ui_creation() {
    let ui = SettingsUi::new();
    assert_eq!(ui.current_tab, SettingsTab::General);
    assert!(!ui.has_unsaved_changes);
}

#[test]
fn test_setting_update() {
    let mut ui = SettingsUi::new();
    ui.update_setting("test.key".to_string(), SettingValue::String("value".to_string()));

    assert!(ui.has_unsaved_changes);
    assert_eq!(ui.get_string("test.key", "default"), "value");
}

#[test]
fn settings_typed_reads_fall_back() {
    let mut ui = SettingsUi::default();
    ui.update_setting("a".to_string(), SettingValue::Boolean(true));
    ui.update_setting("n".to_string(), SettingValue::Integer(42));
    ui.update_setting("a".to_string(), SettingValue::Boolean(false));
    assert!(!ui.get_bool("a", true));
    assert_eq!(ui.get_int("n", 0), 42);
    assert_eq!(ui.get_int("a", 7), 7);
    assert_eq!(ui.get_string("missing", "dflt"), "dflt");
    assert_eq!(ui.get_all_settings().len(), 2);
    assert_eq!(ui.get_setting("n"), Some(&SettingValue::Integer(42)));
}

#[test]
fn settings_load_and_save_clear_unsaved_flag() {
    let mut ui = SettingsUi::new();
    ui.update_setting("k".to_string(), SettingValue::Integer(1));
    ui.mark_saved();
    assert!(!ui.has_unsaved_changes);
    ui.update_setting("k".to_string(), SettingValue::Integer(2));
    ui.load_settings(vec![("x".to_string(), SettingValue::String("y".to_string()))]);
    assert!(!ui.has_unsaved_changes);
    assert_eq!(ui.get_setting("k"), None);
    assert_eq!(ui.get_string("x", ""), "y");
}

#[test]
fn test_theme_light_defaults() {
    let theme = Theme::light();
    assert_eq!(theme.mode, ThemeMode::Light);
    assert_eq!(theme.background, Color32::from_rgb(255, 255, 255));
    assert_eq!(theme.foreground, Color32::from_rgb(30, 30, 30));
    assert_eq!(theme.font_size, 14);
    assert_eq!(theme.border_radius, 4);
}

#[test]
fn test_theme_dark_defaults() {
    let theme = Theme::dark();
    assert_eq!(theme.mode, ThemeMode::Dark);
    assert_eq!(theme.background, Color32::from_rgb(30, 30, 30));
    assert_eq!(theme.foreground, Color32::from_rgb(230, 230, 230));
    assert_eq!(theme.font_size, 14);
    assert_eq!(theme.border_radius, 4);
}

#[test]
fn test_theme_with_accent() {
    let theme = Theme::light().with_accent(Color32::red());
    assert_eq!(theme.accent, Color32::red());
    assert_eq!(theme.mode, ThemeMode::Light);
    assert_eq!(theme.font_size, 14);
}

#[test]
fn test_theme_with_font() {
    let theme = Theme::light().with_font("Arial".to_string(), 16);
    assert_eq!(theme.font_family, "Arial");
    assert_eq!(theme.font_size, 16);
}

#[test]
fn test_theme_with_border_radius() {
    let theme = Theme::light().with_border_radius(8);
    assert_eq!(theme.border_radius, 8);
}

#[test]
fn test_theme_is_dark() {
    let light = Theme::light();
    let dark = Theme::dark();
    assert!(!light.is_dark(false));
    assert!(dark.is_dark(false));
}

#[test]
fn test_theme_for_mode_light() {
    let theme = Theme::for_mode(ThemeMode::Light, true);
    assert_eq!(theme.mode, ThemeMode::Light);
    assert_eq!(theme.background, Color32::from_rgb(255, 255, 255));
}

#[test]
fn test_theme_for_mode_dark() {
    let theme = Theme::for_mode(ThemeMode::Dark, false);
    assert_eq!(theme.mode, ThemeMode::Dark);
    assert_eq!(theme.background, Color32::from_rgb(30, 30, 30));
}

#[test]
fn test_theme_default() {
    let theme = Theme::default();
    assert_eq!(theme.mode, ThemeMode::Light);
}

#[test]
fn test_theme_manager_new() {
    let manager = ThemeManager::new();
    assert_eq!(manager.mode(), ThemeMode::Light);
    assert!(manager.needs_apply);
}

#[test]
fn test_theme_manager_with_theme() {
    let manager = ThemeManager::with_theme(Theme::dark());
    assert_eq!(manager.mode(), ThemeMode::Dark);
}

#[test]
fn test_theme_manager_set_mode() {
    let mut manager = ThemeManager::new();
    manager.set_mode(ThemeMode::Dark, false);
    assert_eq!(manager.mode(), ThemeMode::Dark);
    assert!(manager.needs_apply);
}

#[test]
fn test_theme_manager_set_mode_same() {
    let mut manager = ThemeManager::new();
    manager.needs_apply = false;
    manager.set_mode(ThemeMode::Light, false);
    assert!(!manager.needs_apply);
}

#[test]
fn test_theme_manager_set_accent() {
    let mut manager = ThemeManager::new();
    manager.needs_apply = false;
    manager.set_accent(Color32::green());
    assert_eq!(manager.theme().accent, Color32::green());
    assert!(manager.needs_apply);
}

#[test]
fn test_theme_manager_set_font() {
    let mut manager = ThemeManager::new();
    manager.needs_apply = false;
    manager.set_font("Helvetica".to_string(), 18);
    assert_eq!(manager.theme().font_family, "Helvetica");
    assert_eq!(manager.theme().font_size, 18);
    assert!(manager.needs_apply);
}

#[test]
fn test_theme_manager_set_border_radius() {
    let mut manager = ThemeManager::new();
    manager.needs_apply = false;
    manager.set_border_radius(10);
    assert_eq!(manager.theme().border_radius, 10);
    assert!(manager.needs_apply);
}

#[test]
fn test_theme_manager_preserves_custom_settings_on_mode_change() {
    let mut manager = ThemeManager::new();
    manager.set_accent(Color32::green());
    manager.set_font("Monaco".to_string(), 12);
    manager.set_border_radius(6);

    manager.set_mode(ThemeMode::Dark, false);

    assert_eq!(manager.theme().accent, Color32::green());
    assert_eq!(manager.theme().font_family, "Monaco");
    assert_eq!(manager.theme().font_size, 12);
    assert_eq!(manager.theme().border_radius, 6);
    assert_eq!(manager.mode(), ThemeMode::Dark);
}

#[test]
fn test_theme_resolve_light() {
    let theme = Theme::light();
    let resolved = theme.resolve(true);
    assert_eq!(resolved.mode, ThemeMode::Light);
    assert_eq!(resolved.background, Color32::from_rgb(255, 255, 255));
}

#[test]
fn test_theme_resolve_dark() {
    let theme = Theme::dark();
    let resolved = theme.resolve(false);
    assert_eq!(resolved.mode, ThemeMode::Dark);
    assert_eq!(resolved.background, Color32::from_rgb(30, 30, 30));
}

#[test]
fn theme_auto_follows_system() {
    let auto = Theme::for_mode(ThemeMode::Auto, true);
    assert_eq!(auto.background, Color32::from_rgb(30, 30, 30));
    let mut t = Theme::light().with_accent(Color32::red());
    t.mode = ThemeMode::Auto;
    let r = t.resolve(true);
    assert_eq!(r.mode, ThemeMode::Auto);
    assert_eq!(r.background, Color32::from_rgb(30, 30, 30));
    assert_eq!(r.accent, Color32::red());
    assert!(t.is_dark(true));
    assert!(!t.is_dark(false));
}

#[test]
fn theme_manager_system_change_and_apply() {
    let mut manager = ThemeManager::new();
    manager.set_mode(ThemeMode::Auto, false);
    assert!(manager.apply_if_needed());
    assert!(!manager.apply_if_needed());
    manager.check_system_change(true, false);
    assert!(manager.needs_apply);
    assert_eq!(manager.theme().background, Color32::from_rgb(30, 30, 30));
    manager.apply();
    assert!(!manager.needs_apply);
    manager.check_system_change(true, true);
    assert!(!manager.needs_apply);
}

#[test]
fn system_tool_output_is_judged() {
    assert!(color_scheme_prefers_dark("'prefer-dark'\n"));
    assert!(color_scheme_prefers_dark("'dark'"));
    assert!(!color_scheme_prefers_dark("'default'\n"));
    assert!(!color_scheme_prefers_dark("'prefer-light'"));
    assert!(theme_name_is_dark("'Adwaita-Dark'\n"));
    assert!(theme_name_is_dark("Yaru-DARK"));
    assert!(!theme_name_is_dark("'Adwaita'"));
    assert!(interface_style_is_dark("Dark\n"));
    assert!(interface_style_is_dark("  dark "));
    assert!(!interface_style_is_dark("Darker\n"));
    assert!(!interface_style_is_dark(""));
    assert!(light_theme_turned_off("    AppsUseLightTheme    REG_DWORD    0x0\n"));
    assert!(!light_theme_turned_off("    AppsUseLightTheme    REG_DWORD    0x1\n"));
}
