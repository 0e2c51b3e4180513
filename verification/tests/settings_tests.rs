//! Tests of the persisted settings: defaults, normalization, validation
//! and the load strategies.

use repobee_core::error::ConfigError;
use repobee_core::settings::gui::GuiSettings;
use repobee_core::settings::manager::{LoadStrategy, LocationManager, SettingsManager};

#[test]
fn test_default_settings() {
    let settings = GuiSettings::default();
    assert_eq!(settings.common.canvas_base_url, "https://canvas.tue.nl");
    assert_eq!(settings.common.git_base_url, "https://gitlab.tue.nl");
    assert_eq!(settings.active_tab, "canvas");
}

#[test]
fn further_defaults_hold_their_documented_values() {
    let s = GuiSettings::default();
    assert_eq!(s.common.canvas_url_option, "TUE");
    assert_eq!(s.common.canvas_yaml_file, "students.yaml");
    assert_eq!(s.common.canvas_csv_file, "student-info.csv");
    assert_eq!(s.common.canvas_xlsx_file, "student-info.xlsx");
    assert_eq!(s.common.canvas_member_option, "(email, gitid)");
    assert_eq!(s.common.directory_layout, "flat");
    assert!(s.common.canvas_include_group);
    assert!(s.common.canvas_include_member);
    assert!(s.common.canvas_full_groups);
    assert!(s.common.canvas_output_yaml);
    assert!(s.common.log_info);
    assert!(!s.common.log_debug);
    assert!(s.common.log_warning);
    assert!(s.common.log_error);
    assert!(s.config_locked);
    assert!(s.options_locked);
    assert_eq!(s.window_width, 0);
}

#[test]
fn from_common_keeps_the_common_settings() {
    let mut common = repobee_core::settings::common::CommonSettings::default();
    common.git_user = "teacher".to_string();
    let gui = GuiSettings::from_common(common);
    assert_eq!(gui.common.git_user, "teacher");
    assert_eq!(gui.active_tab, "canvas");
}

#[test]
fn normalize_strips_trailing_slashes() {
    let mut s = GuiSettings::default();
    s.common.canvas_base_url = "https://canvas.tue.nl///".to_string();
    s.common.git_base_url = "https://gitlab.tue.nl/".to_string();
    s.normalize();
    assert_eq!(s.common.canvas_base_url, "https://canvas.tue.nl");
    assert_eq!(s.common.git_base_url, "https://gitlab.tue.nl");
}

#[test]
fn default_settings_validate() {
    let s = GuiSettings::default();
    assert!(s.validate().is_ok());
}

#[test]
fn out_of_range_settings_are_reported() {
    let mut s = GuiSettings::default();
    s.common.canvas_url_option = "Elsewhere".to_string();
    s.active_tab = "somewhere".to_string();
    match s.validate() {
        Err(ConfigError::ValidationFailed(msgs)) => assert!(!msgs.is_empty()),
        other => panic!("expected a validation failure, got {:?}", other),
    }
}

#[test]
fn location_manager_tracks_an_override() {
    let mut lm = LocationManager::new(&"/home/user/.config/repobee-tauri".to_string(), "repobee");
    assert_eq!(
        lm.settings_path(),
        "/home/user/.config/repobee-tauri/settings.json"
    );
    lm.save(&"/tmp/elsewhere.json".to_string());
    assert_eq!(lm.settings_path(), "/tmp/elsewhere.json");
    lm.reset();
    assert_eq!(
        lm.settings_path(),
        "/home/user/.config/repobee-tauri/settings.json"
    );
}

#[test]
fn reset_returns_the_defaults() {
    if let Ok(manager) = SettingsManager::new() {
        let s = manager.reset();
        assert_eq!(s.common.canvas_base_url, "https://canvas.tue.nl");
        assert_eq!(s.active_tab, "canvas");
        assert!(manager
            .settings_file_path()
            .ends_with("settings.json"));
    }
}

#[test]
fn strict_loading_reports_the_failure() {
    if let Ok(manager) = SettingsManager::new() {
        let failed: Result<GuiSettings, ConfigError> =
            Err(ConfigError::FileNotFound("gone".to_string()));
        assert!(manager
            .load_with_strategy(failed, LoadStrategy::Strict)
            .is_err());
    }
}

#[test]
fn lenient_loading_falls_back_to_defaults() {
    if let Ok(manager) = SettingsManager::new() {
        let failed: Result<GuiSettings, ConfigError> =
            Err(ConfigError::ParseFailed("bad json".to_string()));
        let s = manager.load_or_default(failed);
        assert_eq!(s.common.canvas_base_url, "https://canvas.tue.nl");
        let kept = manager.load_or_default(Ok(GuiSettings::from_common({
            let mut c = repobee_core::settings::common::CommonSettings::default();
            c.git_user = "kept".to_string();
            c
        })));
        assert_eq!(kept.common.git_user, "kept");
    }
}
