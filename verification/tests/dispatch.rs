//! Update orchestration, startup decisions, and menu/tray dispatch.
use json_editor::conf::{AppConf, SystemMode, Theme};
use json_editor::menu::{init as menu_init, menu_handler, tray_handler, tray_left_click, tray_menu, MenuAct};
use json_editor::setup::{close_answer, close_request_action, init as setup_init, CloseAct};
use json_editor::update::{
    get_data, install_prompt_message, install_prompt_title, run_check_update, update_step,
    CheckParams, UpdateAction, UpdateEvent, UpdateState,
};
use json_editor::json::Json;
use json_editor::utils::vec_to_hashmap;

#[test]
fn check_starts_by_querying() {
    let (p, s, a) = run_check_update(false, Some(true));
    assert_eq!(p, CheckParams { silent: false, announce_if_none: Some(true) });
    assert_eq!(s, UpdateState::Checking);
    assert_eq!(a, UpdateAction::QueryEndpoint);
}

#[test]
fn no_update_announces_only_when_asked() {
    let done = UpdateEvent::CheckDone { available: false };
    let p = |announce| CheckParams { silent: false, announce_if_none: announce };
    let (s, a) = update_step(UpdateState::Checking, done, p(Some(true)));
    assert_eq!(s, UpdateState::NoUpdate);
    assert_eq!(a, UpdateAction::AnnounceUpToDate);
    let (s, a) = update_step(UpdateState::Checking, done, p(None));
    assert_eq!(s, UpdateState::NoUpdate);
    assert_eq!(a, UpdateAction::Nothing);
    let (s, a) = update_step(UpdateState::Checking, done, p(Some(false)));
    assert_eq!(s, UpdateState::NoUpdate);
    assert_eq!(a, UpdateAction::Nothing);
}

#[test]
fn update_flows_silent_and_prompted() {
    let avail = UpdateEvent::CheckDone { available: true };
    let silent = CheckParams { silent: true, announce_if_none: None };
    let loud = CheckParams { silent: false, announce_if_none: None };
    // silent: straight to download, then the restart prompt
    let (s, a) = update_step(UpdateState::Checking, avail, silent);
    assert_eq!((s, a), (UpdateState::SilentInstall, UpdateAction::DownloadAndInstall));
    let (s, a) = update_step(s, UpdateEvent::InstallDone, silent);
    assert_eq!((s, a), (UpdateState::Installed, UpdateAction::AskRestart));
    let (s, a) = update_step(s, UpdateEvent::RestartAnswer { restart: true }, silent);
    assert_eq!((s, a), (UpdateState::Installed, UpdateAction::Restart));
    // prompted: consent first; declining ends the flow
    let (s, a) = update_step(UpdateState::Checking, avail, loud);
    assert_eq!((s, a), (UpdateState::PromptInstall, UpdateAction::AskConsent));
    let (s2, a2) = update_step(s, UpdateEvent::ConsentAnswer { accepted: false }, loud);
    assert_eq!((s2, a2), (UpdateState::Declined, UpdateAction::Nothing));
    let (s3, a3) = update_step(s, UpdateEvent::ConsentAnswer { accepted: true }, loud);
    assert_eq!((s3, a3), (UpdateState::SilentInstall, UpdateAction::DownloadAndInstall));
    // a failed check is swallowed; a failed install is only logged
    let (s, a) = update_step(UpdateState::Checking, UpdateEvent::CheckFailed, loud);
    assert_eq!((s, a), (UpdateState::Idle, UpdateAction::Nothing));
    let (s, a) = update_step(UpdateState::SilentInstall, UpdateEvent::InstallFailed, loud);
    assert_eq!((s, a), (UpdateState::Failed, UpdateAction::LogError));
}

#[test]
fn http_outcome_distinguishes_status() {
    assert_eq!(get_data(200, "body".to_string()), (Some("body".to_string()), false));
    assert_eq!(get_data(404, "missing".to_string()), (None, true));
}

#[test]
fn install_prompt_texts() {
    assert_eq!(
        install_prompt_title("JsonEditor"),
        "A new version of JsonEditor is available! "
    );
    assert_eq!(
        install_prompt_message("JsonEditor", "1.2.0", "1.1.0", "notes here"),
        "JsonEditor 1.2.0 is now available -- you have 1.1.0.\n\nWould you like to install it now?\n\nRelease Notes:\nnotes here"
    );
}

#[test]
fn startup_respects_disable_policy() {
    let mut c = AppConf::new();
    c.auto_update = "disable".to_string();
    let plan = setup_init(&c, SystemMode::Light, false);
    assert!(plan.update_check.is_none());
}

#[test]
fn startup_schedules_check_by_policy() {
    let c = AppConf::new();
    let plan = setup_init(&c, SystemMode::Light, false);
    assert_eq!(
        plan.update_check,
        Some(CheckParams { silent: false, announce_if_none: None })
    );
    let mut c2 = AppConf::new();
    c2.auto_update = "silent".to_string();
    let plan2 = setup_init(&c2, SystemMode::Light, false);
    assert_eq!(
        plan2.update_check,
        Some(CheckParams { silent: true, announce_if_none: None })
    );
}

#[test]
fn startup_window_follows_preferences() {
    let mut c = AppConf::new();
    c.theme = "dark".to_string();
    c.stay_on_top = true;
    let plan = setup_init(&c, SystemMode::Light, false);
    let w = plan.main_window.expect("window");
    assert_eq!(w.width, 1440);
    assert_eq!(w.height, 900);
    assert_eq!(w.theme, Theme::Dark);
    assert!(w.always_on_top);
    assert!(!plan.set_accessory_policy);
    // hidden dock icon: no window, accessory policy on macOS only
    let mut c2 = AppConf::new();
    c2.hide_dock_icon = true;
    assert!(setup_init(&c2, SystemMode::Light, true).main_window.is_none());
    assert!(setup_init(&c2, SystemMode::Light, true).set_accessory_policy);
    assert!(!setup_init(&c2, SystemMode::Light, false).set_accessory_policy);
}

#[test]
fn close_request_rules() {
    let mut c = AppConf::new();
    assert_eq!(close_request_action(&c, "tray"), CloseAct::CloseWindow);
    assert_eq!(close_request_action(&c, "core"), CloseAct::Ask);
    c.isinit = false;
    c.main_close = true;
    assert_eq!(close_request_action(&c, "core"), CloseAct::Exit);
    c.main_close = false;
    assert_eq!(close_request_action(&c, "core"), CloseAct::Minimize);
}

#[test]
fn close_answer_is_persisted() {
    let (c, exit) = close_answer(AppConf::new(), true);
    assert!(!c.isinit);
    assert!(c.main_close);
    assert!(exit);
    let (c, exit) = close_answer(AppConf::new(), false);
    assert!(!c.isinit);
    assert!(!c.main_close);
    assert!(!exit);
}

#[test]
fn menu_mirrors_preferences() {
    let mut c = AppConf::new();
    c.theme = "dark".to_string();
    c.stay_on_top = true;
    c.tray = false;
    c.auto_update = "silent".to_string();
    let m = menu_init(&c, false);
    assert!(m.stay_on_top.selected);
    assert!(!m.system_tray.selected);
    assert!(m.theme_dark.selected);
    assert!(!m.theme_light.selected);
    assert!(!m.theme_system.selected);
    assert!(!m.update_prompt.selected);
    assert!(m.update_silent.selected);
    assert!(m.titlebar.is_none());
    let mac = menu_init(&c, true);
    assert!(mac.titlebar.is_some());
    assert_eq!(m.stay_on_top.accelerator.as_deref(), Some("CmdOrCtrl+T"));
    assert_eq!(m.check_update.title, "Check for Updates");
}

#[test]
fn menu_dispatch_toggles_and_effects() {
    let c = AppConf::new();
    match menu_handler("titlebar", &c) {
        MenuAct::WriteConf { conf, restart } => {
            assert!(!conf.titlebar);
            assert!(restart);
        }
        other => panic!("unexpected action: {:?}", action_name(&other)),
    }
    match menu_handler("update_silent", &c) {
        MenuAct::WriteConf { conf, restart } => {
            assert_eq!(conf.auto_update, "silent");
            assert!(!restart);
        }
        other => panic!("unexpected action: {:?}", action_name(&other)),
    }
    match menu_handler("theme_dark", &c) {
        MenuAct::WriteConf { conf, restart } => {
            assert_eq!(conf.theme, "dark");
            assert!(restart);
        }
        other => panic!("unexpected action: {:?}", action_name(&other)),
    }
    match menu_handler("stay_on_top", &c) {
        MenuAct::StayOnTop { conf, on_top } => {
            assert!(conf.stay_on_top);
            assert!(on_top);
        }
        other => panic!("unexpected action: {:?}", action_name(&other)),
    }
    assert!(matches!(menu_handler("about", &c), MenuAct::ShowAbout));
    assert!(matches!(
        menu_handler("check_update", &c),
        MenuAct::CheckUpdate { silent: false, announce_if_none: Some(true) }
    ));
    assert!(matches!(menu_handler("go_conf", &c), MenuAct::OpenConfDir));
    assert!(matches!(menu_handler("clear_conf", &c), MenuAct::ClearConf));
    assert!(matches!(menu_handler("restart", &c), MenuAct::Restart));
    assert!(matches!(menu_handler("update_log", &c), MenuAct::OpenUpdateLog));
    assert!(matches!(menu_handler("quicktype_log", &c), MenuAct::OpenLogFile));
    assert!(matches!(menu_handler("jsoneditor_log", &c), MenuAct::Nothing));
    assert!(matches!(menu_handler("unknown_id", &c), MenuAct::Nothing));
}

fn action_name(a: &MenuAct) -> &'static str {
    match a {
        MenuAct::Nothing => "Nothing",
        MenuAct::ShowAbout => "ShowAbout",
        MenuAct::CheckUpdate { .. } => "CheckUpdate",
        MenuAct::Restart => "Restart",
        MenuAct::OpenConfDir => "OpenConfDir",
        MenuAct::ClearConf => "ClearConf",
        MenuAct::OpenLogFile => "OpenLogFile",
        MenuAct::OpenUpdateLog => "OpenUpdateLog",
        MenuAct::WriteConf { .. } => "WriteConf",
        MenuAct::StayOnTop { .. } => "StayOnTop",
        MenuAct::ShowCore { .. } => "ShowCore",
        MenuAct::Quit => "Quit",
    }
}

#[test]
fn tray_menu_by_platform() {
    let c = AppConf::new();
    let t = tray_menu(&c, false);
    assert!(t.show_core && t.quit && !t.show_dock_icon && !t.hide_dock_icon);
    let t = tray_menu(&c, true);
    assert!(t.show_core && t.hide_dock_icon && !t.show_dock_icon);
    let mut hidden = AppConf::new();
    hidden.hide_dock_icon = true;
    let t = tray_menu(&hidden, true);
    assert!(t.show_dock_icon && !t.hide_dock_icon && !t.show_core);
}

#[test]
fn tray_click_and_items() {
    let c = AppConf::new();
    let click = tray_left_click(&c, true);
    assert!(click.minimize_core);
    assert!(!click.set_tray_visible);
    let mut hidden = AppConf::new();
    hidden.hide_dock_icon = true;
    let click = tray_left_click(&hidden, false);
    assert!(!click.minimize_core);
    assert!(click.set_tray_visible);
    assert!(matches!(tray_handler("quit", &c, true), MenuAct::Quit));
    assert!(matches!(tray_handler("restart", &c, true), MenuAct::Restart));
    match tray_handler("hide_dock_icon", &c, true) {
        MenuAct::WriteConf { conf, restart } => {
            assert!(conf.hide_dock_icon);
            assert!(restart);
        }
        _ => panic!("expected a config write"),
    }
    assert!(matches!(tray_handler("hide_dock_icon", &hidden, true), MenuAct::Nothing));
    match tray_handler("show_core", &c, false) {
        MenuAct::ShowCore { show } => assert!(show),
        _ => panic!("expected show-core"),
    }
}

#[test]
fn vec_to_hashmap_keeps_keyed_records() {
    let records = vec![
        (Some("alpha".to_string()), Json::Num(1)),
        (None, Json::Num(2)),
        (Some("beta".to_string()), Json::Bool(true)),
        (Some("alpha".to_string()), Json::Num(3)),
    ];
    let mut map: Vec<(String, Json)> = Vec::new();
    vec_to_hashmap(records, &mut map);
    assert_eq!(map.len(), 3);
    assert_eq!(map[0], ("alpha".to_string(), Json::Num(1)));
    assert_eq!(map[1], ("beta".to_string(), Json::Bool(true)));
    // the last record with a repeated key wins on lookup from the back
    assert_eq!(map[2], ("alpha".to_string(), Json::Num(3)));
}
