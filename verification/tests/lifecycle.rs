//! The configuration lifecycle: defaults, loading, amending, printing.
use json_editor::conf::{AppConf, SystemMode, Theme, TitleBarStyle};
use json_editor::json::Json;
use json_editor::utils::{app_root, clear_conf_message, convert_path, is_hidden};

fn chars(s: &str) -> Vec<char> {
    s.chars().collect()
}

const DEFAULT_TEXT: &str = "{\n  \"auto_update\": \"prompt\",\n  \"global_shortcut\": null,\n  \"hide_dock_icon\": false,\n  \"isinit\": true,\n  \"main_close\": false,\n  \"main_dashboard\": false,\n  \"main_height\": 900,\n  \"main_width\": 1440,\n  \"popup_search\": false,\n  \"save_window_state\": false,\n  \"speech_lang\": \"\",\n  \"stay_on_top\": false,\n  \"theme\": \"light\",\n  \"titlebar\": true,\n  \"tray\": true,\n  \"tray_dashboard\": false,\n  \"tray_height\": 900,\n  \"tray_width\": 1440\n}";

fn assert_default_except<F: Fn(&AppConf) -> bool>(c: &AppConf, skip: &str, extra: F) {
    let d = AppConf::new();
    if skip != "titlebar" {
        assert_eq!(c.titlebar, d.titlebar);
    }
    if skip != "hide_dock_icon" {
        assert_eq!(c.hide_dock_icon, d.hide_dock_icon);
    }
    if skip != "theme" {
        assert_eq!(c.theme, d.theme);
    }
    if skip != "auto_update" {
        assert_eq!(c.auto_update, d.auto_update);
    }
    if skip != "stay_on_top" {
        assert_eq!(c.stay_on_top, d.stay_on_top);
    }
    assert_eq!(c.save_window_state, d.save_window_state);
    assert_eq!(c.global_shortcut, d.global_shortcut);
    assert_eq!(c.speech_lang, d.speech_lang);
    assert_eq!(c.isinit, d.isinit);
    assert_eq!(c.popup_search, d.popup_search);
    assert_eq!(c.main_close, d.main_close);
    assert_eq!(c.main_dashboard, d.main_dashboard);
    assert_eq!(c.main_width, d.main_width);
    assert_eq!(c.main_height, d.main_height);
    assert_eq!(c.tray_width, d.tray_width);
    assert_eq!(c.tray_height, d.tray_height);
    assert_eq!(c.tray, d.tray);
    assert_eq!(c.tray_dashboard, d.tray_dashboard);
    assert!(extra(c));
}

#[test]
fn default_record_writes_expected_text() {
    assert_eq!(AppConf::new().write(), DEFAULT_TEXT);
}

#[test]
fn missing_file_loads_defaults() {
    let c = AppConf::read(None);
    assert_default_except(&c, "", |_| true);
}

#[test]
fn malformed_file_loads_defaults() {
    let c = AppConf::read(Some("this is not json at all {{{"));
    assert_default_except(&c, "", |_| true);
    let c2 = AppConf::read(Some(""));
    assert_default_except(&c2, "", |_| true);
}

#[test]
fn ill_typed_field_loads_defaults() {
    let c = AppConf::read(Some("{\"theme\": 5}"));
    assert_default_except(&c, "", |_| true);
}

#[test]
fn partial_file_backfills_defaults() {
    let c = AppConf::read(Some("{\"theme\": \"dark\"}"));
    assert_eq!(c.theme, "dark");
    assert_default_except(&c, "theme", |c| c.theme == "dark");
}

#[test]
fn write_read_round_trip_is_byte_identical() {
    let text = AppConf::new().write();
    let back = AppConf::read(Some(text.as_str()));
    let text2 = back.write();
    assert_eq!(text, text2);
}

#[test]
fn write_read_round_trip_after_changes() {
    let mut c = AppConf::new();
    c.theme = "dark".to_string();
    c.main_width = u64::MAX;
    c.global_shortcut = Some("ctrl+\"x\\y\nz".to_string());
    c.speech_lang = "com.apple.eloquence.en-US.Rocko".to_string();
    let text = c.write();
    let back = AppConf::read(Some(text.as_str()));
    assert_eq!(back.theme, "dark");
    assert_eq!(back.main_width, u64::MAX);
    assert_eq!(back.global_shortcut.as_deref(), Some("ctrl+\"x\\y\nz"));
    assert_eq!(back.speech_lang, "com.apple.eloquence.en-US.Rocko");
    assert_eq!(text, back.write());
}

#[test]
fn oversized_number_loads_defaults() {
    let c = AppConf::read(Some("{\"main_width\": 18446744073709551616}"));
    assert_default_except(&c, "", |_| true);
}

#[test]
fn amend_lays_patch_over_record() {
    let patch = vec![
        (chars("stay_on_top"), Json::Bool(true)),
        (chars("theme"), Json::Str(chars("dark"))),
    ];
    let c = AppConf::new().amend(&patch);
    assert!(c.stay_on_top);
    assert_eq!(c.theme, "dark");
    assert_eq!(c.auto_update, "prompt");
    assert_eq!(c.main_width, 1440);
}

#[test]
fn amend_with_ill_typed_patch_changes_nothing() {
    let patch = vec![
        (chars("stay_on_top"), Json::Bool(true)),
        (chars("theme"), Json::Bool(true)),
    ];
    let c = AppConf::new().amend(&patch);
    assert_default_except(&c, "", |_| true);
}

#[test]
fn amend_ignores_unknown_keys() {
    let patch = vec![(chars("no_such_key"), Json::Num(7))];
    let c = AppConf::new().amend(&patch);
    assert_default_except(&c, "", |_| true);
}

#[test]
fn amend_last_value_wins() {
    let patch = vec![
        (chars("theme"), Json::Str(chars("dark"))),
        (chars("theme"), Json::Str(chars("system"))),
    ];
    let c = AppConf::new().amend(&patch);
    assert_eq!(c.theme, "system");
}

#[test]
fn amend_write_read_keeps_patch() {
    let patch = vec![(chars("stay_on_top"), Json::Bool(true))];
    let text = AppConf::new().amend(&patch).write();
    let back = AppConf::read(Some(text.as_str()));
    assert!(back.stay_on_top);
    assert_default_except(&back, "stay_on_top", |c| c.stay_on_top);
}

#[test]
fn theme_getters_fold_case() {
    let mut c = AppConf::new();
    c.theme = "DARK".to_string();
    assert_eq!(c.get_theme(), "dark");
    assert!(c.duplicate().theme_check("dark"));
    assert!(!c.duplicate().theme_check("light"));
    let mut c2 = AppConf::new();
    c2.auto_update = "Silent".to_string();
    assert_eq!(c2.get_auto_update(), "silent");
}

#[test]
fn theme_mode_resolves_preference() {
    let mut c = AppConf::new();
    assert_eq!(c.theme_mode_with(SystemMode::Dark), Theme::Light);
    c.theme = "dark".to_string();
    assert_eq!(c.theme_mode_with(SystemMode::Light), Theme::Dark);
    c.theme = "system".to_string();
    assert_eq!(c.theme_mode_with(SystemMode::Dark), Theme::Dark);
    assert_eq!(c.theme_mode_with(SystemMode::Light), Theme::Light);
    assert_eq!(c.theme_mode_with(SystemMode::Unspecified), Theme::Light);
}

#[test]
fn titlebar_style_follows_flag() {
    let c = AppConf::new();
    assert_eq!(c.duplicate().titlebar(), TitleBarStyle::Transparent);
    let mut c2 = AppConf::new();
    c2.titlebar = false;
    assert_eq!(c2.titlebar(), TitleBarStyle::Overlay);
}

#[test]
fn paths_are_built_under_home() {
    assert_eq!(app_root("/home/me"), "/home/me/.jsonEditor");
    assert_eq!(
        AppConf::file_path("/home/me"),
        "/home/me/.jsonEditor/editor.conf.json"
    );
}

#[test]
fn utility_rules() {
    assert_eq!(convert_path("a/b/c", true), "a\\b\\c");
    assert_eq!(convert_path("a/b/c", false), "a/b/c");
    assert!(is_hidden(".git"));
    assert!(!is_hidden("src"));
    assert!(!is_hidden(""));
    let msg = clear_conf_message("/home/me/.jsonEditor");
    assert!(msg.starts_with("Path: /home/me/.jsonEditor\n"));
    assert!(msg.contains("clear all JsonEditor configurations"));
}
