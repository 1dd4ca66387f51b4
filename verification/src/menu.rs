//! Menu and tray presentation: descriptors mirroring the current
//! preferences, and the dispatch from item identifiers to actions.
use vstd::prelude::*;

use crate::conf::{AppConf, AppConfV};
use crate::utils::{chars_eq_str, chars_of, lower_of};

verus! {

/// One checkable or plain menu item.
pub struct MenuItemDesc {
    pub id: String,
    pub title: String,
    pub selected: bool,
    pub accelerator: Option<String>,
}

/// The application menu's dynamic items: every checkable item mirrors a
/// preference field.
pub struct MenuDescriptor {
    pub check_update: MenuItemDesc,
    pub stay_on_top: MenuItemDesc,
    /// macOS only.
    pub titlebar: Option<MenuItemDesc>,
    /// macOS only.
    pub hide_dock_icon: Option<MenuItemDesc>,
    pub system_tray: MenuItemDesc,
    pub theme_light: MenuItemDesc,
    pub theme_dark: MenuItemDesc,
    pub theme_system: MenuItemDesc,
    pub update_prompt: MenuItemDesc,
    pub update_silent: MenuItemDesc,
    pub go_conf: MenuItemDesc,
    pub restart: MenuItemDesc,
    pub clear_conf: MenuItemDesc,
    pub log_item: MenuItemDesc,
    pub update_log: MenuItemDesc,
}

fn item(id: &str, title: &str, selected: bool, accelerator: Option<&str>) -> (r: MenuItemDesc)
    ensures
        r.id@ == id@,
        r.title@ == title@,
        r.selected == selected,
        match accelerator {
            Some(a) => r.accelerator matches Some(x) && x@ == a@,
            None => r.accelerator is None,
        },
{
    MenuItemDesc {
        id: id.to_owned(),
        title: title.to_owned(),
        selected,
        accelerator: match accelerator {
            Some(a) => Some(a.to_owned()),
            None => None,
        },
    }
}

/// Builds the menu descriptor from the current preferences: each
/// checkable item's selected state mirrors its field, the theme and
/// update-policy radio groups mirror the lowercased strings.
pub fn init(conf: &AppConf, macos: bool) -> (r: MenuDescriptor)
    ensures
        r.check_update.id@ == "check_update"@ && !r.check_update.selected,
        r.stay_on_top.id@ == "stay_on_top"@ && r.stay_on_top.selected == conf@.stay_on_top,
        macos ==> (r.titlebar matches Some(t) && t.id@ == "titlebar"@ && t.selected
            == conf@.titlebar),
        !macos ==> r.titlebar is None,
        macos ==> (r.hide_dock_icon matches Some(h) && h.id@ == "hide_dock_icon"@ && !h.selected),
        !macos ==> r.hide_dock_icon is None,
        r.system_tray.id@ == "system_tray"@ && r.system_tray.selected == conf@.tray,
        r.theme_dark.id@ == "theme_dark"@ && r.theme_dark.selected == (lower_of(conf@.theme)
            == "dark"@),
        r.theme_system.id@ == "theme_system"@ && r.theme_system.selected == (lower_of(conf@.theme)
            == "system"@),
        r.theme_light.id@ == "theme_light"@ && r.theme_light.selected == !(lower_of(conf@.theme)
            == "dark"@ || lower_of(conf@.theme) == "system"@),
        r.update_prompt.id@ == "update_prompt"@ && r.update_prompt.selected == (lower_of(
            conf@.auto_update,
        ) == "prompt"@),
        r.update_silent.id@ == "update_silent"@ && r.update_silent.selected == (lower_of(
            conf@.auto_update,
        ) == "silent"@),
        r.go_conf.id@ == "go_conf"@ && r.restart.id@ == "restart"@ && r.clear_conf.id@
            == "clear_conf"@,
        r.log_item.id@ == "jsoneditor_log"@ && r.update_log.id@ == "update_log"@,
{
    let is_dark = conf.duplicate().theme_check("dark");
    let is_system = conf.duplicate().theme_check("system");
    let auto_update = conf.duplicate().get_auto_update();
    MenuDescriptor {
        check_update: item("check_update", "Check for Updates", false, None),
        stay_on_top: item("stay_on_top", "Stay On Top", conf.stay_on_top, Some("CmdOrCtrl+T")),
        titlebar: if macos {
            Some(item("titlebar", "Titlebar", conf.titlebar, Some("CmdOrCtrl+B")))
        } else {
            None
        },
        hide_dock_icon: if macos {
            Some(item("hide_dock_icon", "Hide Dock Icon", false, None))
        } else {
            None
        },
        system_tray: item("system_tray", "System Tray", conf.tray, None),
        theme_light: item("theme_light", "Light", !(is_dark || is_system), None),
        theme_dark: item("theme_dark", "Dark", is_dark, None),
        theme_system: item("theme_system", "System", is_system, None),
        update_prompt: item("update_prompt", "Prompt", auto_update == "prompt".to_owned(), None),
        update_silent: item("update_silent", "Silent", auto_update == "silent".to_owned(), None),
        go_conf: item("go_conf", "Go to Config", false, Some("CmdOrCtrl+Shift+G")),
        restart: item("restart", "Restart QuickType", false, Some("CmdOrCtrl+Shift+R")),
        clear_conf: item("clear_conf", "Clear Config", false, None),
        log_item: item("jsoneditor_log", "JsonEditor Log", false, None),
        update_log: item("update_log", "Update Log", false, None),
    }
}

/// What a menu or tray click asks the shell to do.
pub enum MenuAct {
    Nothing,
    ShowAbout,
    CheckUpdate { silent: bool, announce_if_none: Option<bool> },
    Restart,
    OpenConfDir,
    ClearConf,
    OpenLogFile,
    OpenUpdateLog,
    /// Persist the new record; relaunch afterwards when `restart` holds.
    WriteConf { conf: AppConf, restart: bool },
    /// Persist the new record and set the window's always-on-top state.
    StayOnTop { conf: AppConf, on_top: bool },
    /// Show and focus the main window when it is hidden.
    ShowCore { show: bool },
    Quit,
}

/// Dispatches a menu item identifier against the current preferences.
#[verifier::rlimit(100)]
#[verifier::spinoff_prover]
pub fn menu_handler(id: &str, conf: &AppConf) -> (r: MenuAct)
    ensures
        id@ == "about"@ ==> r is ShowAbout,
        id@ == "check_update"@ ==> (r matches MenuAct::CheckUpdate { silent, announce_if_none }
            && !silent && announce_if_none == Some(true)),
        id@ == "restart"@ ==> r is Restart,
        id@ == "go_conf"@ ==> r is OpenConfDir,
        id@ == "clear_conf"@ ==> r is ClearConf,
        id@ == "hide_dock_icon"@ ==> (r matches MenuAct::WriteConf { conf: c2, restart } && c2@
            == (AppConfV { hide_dock_icon: true, ..conf@ }) && restart),
        id@ == "titlebar"@ ==> (r matches MenuAct::WriteConf { conf: c2, restart } && c2@
            == (AppConfV { titlebar: !conf@.titlebar, ..conf@ }) && restart),
        id@ == "system_tray"@ ==> (r matches MenuAct::WriteConf { conf: c2, restart } && c2@
            == (AppConfV { tray: !conf@.tray, ..conf@ }) && restart),
        id@ == "theme_light"@ ==> (r matches MenuAct::WriteConf { conf: c2, restart } && c2@
            == (AppConfV { theme: "light"@, ..conf@ }) && restart),
        id@ == "theme_dark"@ ==> (r matches MenuAct::WriteConf { conf: c2, restart } && c2@
            == (AppConfV { theme: "dark"@, ..conf@ }) && restart),
        id@ == "theme_system"@ ==> (r matches MenuAct::WriteConf { conf: c2, restart } && c2@
            == (AppConfV { theme: "system"@, ..conf@ }) && restart),
        id@ == "update_prompt"@ ==> (r matches MenuAct::WriteConf { conf: c2, restart } && c2@
            == (AppConfV { auto_update: "prompt"@, ..conf@ }) && !restart),
        id@ == "update_silent"@ ==> (r matches MenuAct::WriteConf { conf: c2, restart } && c2@
            == (AppConfV { auto_update: "silent"@, ..conf@ }) && !restart),
        id@ == "update_disable"@ ==> (r matches MenuAct::WriteConf { conf: c2, restart } && c2@
            == (AppConfV { auto_update: "disable"@, ..conf@ }) && !restart),
        id@ == "stay_on_top"@ ==> (r matches MenuAct::StayOnTop { conf: c2, on_top } && c2@
            == (AppConfV { stay_on_top: !conf@.stay_on_top, ..conf@ }) && on_top
            == !conf@.stay_on_top),
        id@ == "quicktype_log"@ ==> r is OpenLogFile,
        id@ == "update_log"@ ==> r is OpenUpdateLog,
{
    proof {
        reveal_strlit("about");
        reveal_strlit("check_update");
        reveal_strlit("restart");
        reveal_strlit("go_conf");
        reveal_strlit("clear_conf");
        reveal_strlit("hide_dock_icon");
        reveal_strlit("titlebar");
        reveal_strlit("system_tray");
        reveal_strlit("theme_light");
        reveal_strlit("theme_dark");
        reveal_strlit("theme_system");
        reveal_strlit("update_prompt");
        reveal_strlit("update_silent");
        reveal_strlit("update_disable");
        reveal_strlit("stay_on_top");
        reveal_strlit("quicktype_log");
        reveal_strlit("update_log");
        assert("about"@.len() == 5);
        assert("check_update"@.len() == 12);
        assert("restart"@.len() == 7);
        assert("go_conf"@.len() == 7);
        assert("clear_conf"@.len() == 10);
        assert("hide_dock_icon"@.len() == 14);
        assert("titlebar"@.len() == 8);
        assert("system_tray"@.len() == 11);
        assert("theme_light"@.len() == 11);
        assert("theme_dark"@.len() == 10);
        assert("theme_system"@.len() == 12);
        assert("update_prompt"@.len() == 13);
        assert("update_silent"@.len() == 13);
        assert("update_disable"@.len() == 14);
        assert("stay_on_top"@.len() == 11);
        assert("quicktype_log"@.len() == 13);
        assert("update_log"@.len() == 10);
        assert("restart"@[0] != "go_conf"@[0]);
        assert("clear_conf"@[0] != "theme_dark"@[0]);
        assert("clear_conf"@[0] != "update_log"@[0]);
        assert("theme_dark"@[0] != "update_log"@[0]);
        assert("system_tray"@[0] != "theme_light"@[0]);
        assert("system_tray"@[1] != "stay_on_top"@[1]);
        assert("theme_light"@[0] != "stay_on_top"@[0]);
        assert("check_update"@[0] != "theme_system"@[0]);
        assert("update_prompt"@[7] != "update_silent"@[7]);
        assert("update_prompt"@[0] != "quicktype_log"@[0]);
        assert("update_silent"@[0] != "quicktype_log"@[0]);
        assert("hide_dock_icon"@[0] != "update_disable"@[0]);
    }
    let cs = chars_of(id);
    if chars_eq_str(&cs, "about") {
        MenuAct::ShowAbout
    } else if chars_eq_str(&cs, "check_update") {
        MenuAct::CheckUpdate { silent: false, announce_if_none: Some(true) }
    } else if chars_eq_str(&cs, "restart") {
        MenuAct::Restart
    } else if chars_eq_str(&cs, "go_conf") {
        MenuAct::OpenConfDir
    } else if chars_eq_str(&cs, "clear_conf") {
        MenuAct::ClearConf
    } else if chars_eq_str(&cs, "hide_dock_icon") {
        MenuAct::WriteConf {
            conf: AppConf { hide_dock_icon: true, ..conf.duplicate() },
            restart: true,
        }
    } else if chars_eq_str(&cs, "titlebar") {
        MenuAct::WriteConf {
            conf: AppConf { titlebar: !conf.titlebar, ..conf.duplicate() },
            restart: true,
        }
    } else if chars_eq_str(&cs, "system_tray") {
        MenuAct::WriteConf { conf: AppConf { tray: !conf.tray, ..conf.duplicate() }, restart: true }
    } else if chars_eq_str(&cs, "theme_light") {
        MenuAct::WriteConf {
            conf: AppConf { theme: "light".to_owned(), ..conf.duplicate() },
            restart: true,
        }
    } else if chars_eq_str(&cs, "theme_dark") {
        MenuAct::WriteConf {
            conf: AppConf { theme: "dark".to_owned(), ..conf.duplicate() },
            restart: true,
        }
    } else if chars_eq_str(&cs, "theme_system") {
        MenuAct::WriteConf {
            conf: AppConf { theme: "system".to_owned(), ..conf.duplicate() },
            restart: true,
        }
    } else if chars_eq_str(&cs, "update_prompt") {
        MenuAct::WriteConf {
            conf: AppConf { auto_update: "prompt".to_owned(), ..conf.duplicate() },
            restart: false,
        }
    } else if chars_eq_str(&cs, "update_silent") {
        MenuAct::WriteConf {
            conf: AppConf { auto_update: "silent".to_owned(), ..conf.duplicate() },
            restart: false,
        }
    } else if chars_eq_str(&cs, "update_disable") {
        MenuAct::WriteConf {
            conf: AppConf { auto_update: "disable".to_owned(), ..conf.duplicate() },
            restart: false,
        }
    } else if chars_eq_str(&cs, "stay_on_top") {
        let on_top = !conf.stay_on_top;
        MenuAct::StayOnTop {
            conf: AppConf { stay_on_top: on_top, ..conf.duplicate() },
            on_top,
        }
    } else if chars_eq_str(&cs, "quicktype_log") {
        MenuAct::OpenLogFile
    } else if chars_eq_str(&cs, "update_log") {
        MenuAct::OpenUpdateLog
    } else {
        MenuAct::Nothing
    }
}

/// Which items the tray menu offers; platforms differ only in capability.
#[derive(PartialEq, Eq, Structural, Clone, Copy, Debug)]
pub struct TrayMenu {
    pub show_dock_icon: bool,
    pub hide_dock_icon: bool,
    pub show_core: bool,
    pub quit: bool,
}

/// Builds the tray menu: on macOS the dock-icon toggle replaces the
/// show-window item while the dock icon is hidden.
pub fn tray_menu(conf: &AppConf, macos: bool) -> (r: TrayMenu)
    ensures
        r.quit,
        macos && conf@.hide_dock_icon ==> r.show_dock_icon && !r.hide_dock_icon && !r.show_core,
        macos && !conf@.hide_dock_icon ==> !r.show_dock_icon && r.hide_dock_icon && r.show_core,
        !macos ==> !r.show_dock_icon && !r.hide_dock_icon && r.show_core,
{
    if macos {
        if conf.hide_dock_icon {
            TrayMenu { show_dock_icon: true, hide_dock_icon: false, show_core: false, quit: true }
        } else {
            TrayMenu { show_dock_icon: false, hide_dock_icon: true, show_core: true, quit: true }
        }
    } else {
        TrayMenu { show_dock_icon: false, hide_dock_icon: false, show_core: true, quit: true }
    }
}

/// What a left click on the tray icon does.
#[derive(PartialEq, Eq, Structural, Clone, Copy, Debug)]
pub struct TrayClick {
    /// Minimize the main window (not done while the dock icon is hidden).
    pub minimize_core: bool,
    /// The tray window's visibility is flipped.
    pub set_tray_visible: bool,
}

/// Dispatches a tray left click: the main window minimizes unless the
/// dock icon is hidden, and the tray window's visibility flips.
pub fn tray_left_click(conf: &AppConf, tray_visible: bool) -> (r: TrayClick)
    ensures
        r.minimize_core == !conf@.hide_dock_icon,
        r.set_tray_visible == !tray_visible,
{
    TrayClick { minimize_core: !conf.hide_dock_icon, set_tray_visible: !tray_visible }
}

/// Dispatches a click on a tray menu item.
pub fn tray_handler(id: &str, conf: &AppConf, core_visible: bool) -> (r: MenuAct)
    ensures
        id@ == "restart"@ ==> r is Restart,
        id@ == "show_dock_icon"@ ==> (r matches MenuAct::WriteConf { conf: c2, restart } && c2@
            == (AppConfV { hide_dock_icon: false, ..conf@ }) && restart),
        id@ == "hide_dock_icon"@ && !conf@.hide_dock_icon ==> (r matches MenuAct::WriteConf {
            conf: c2,
            restart,
        } && c2@ == (AppConfV { hide_dock_icon: true, ..conf@ }) && restart),
        id@ == "hide_dock_icon"@ && conf@.hide_dock_icon ==> r is Nothing,
        id@ == "show_core"@ ==> (r matches MenuAct::ShowCore { show } && show == !core_visible),
        id@ == "quit"@ ==> r is Quit,
{
    proof {
        reveal_strlit("restart");
        reveal_strlit("show_dock_icon");
        reveal_strlit("hide_dock_icon");
        reveal_strlit("show_core");
        reveal_strlit("quit");
        assert("restart"@.len() == 7);
        assert("show_dock_icon"@.len() == 14);
        assert("hide_dock_icon"@.len() == 14);
        assert("show_core"@.len() == 9);
        assert("quit"@.len() == 4);
        assert("show_dock_icon"@[0] != "hide_dock_icon"@[0]);
    }
    let cs = chars_of(id);
    if chars_eq_str(&cs, "restart") {
        MenuAct::Restart
    } else if chars_eq_str(&cs, "show_dock_icon") {
        MenuAct::WriteConf {
            conf: AppConf { hide_dock_icon: false, ..conf.duplicate() },
            restart: true,
        }
    } else if chars_eq_str(&cs, "hide_dock_icon") {
        if !conf.hide_dock_icon {
            MenuAct::WriteConf {
                conf: AppConf { hide_dock_icon: true, ..conf.duplicate() },
                restart: true,
            }
        } else {
            MenuAct::Nothing
        }
    } else if chars_eq_str(&cs, "show_core") {
        MenuAct::ShowCore { show: !core_visible }
    } else if chars_eq_str(&cs, "quit") {
        MenuAct::Quit
    } else {
        MenuAct::Nothing
    }
}

} // verus!
