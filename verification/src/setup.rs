//! Application bootstrap decisions: what startup does with the loaded
//! preferences, and what a close request on a window leads to.
use vstd::prelude::*;

use crate::conf::{spec_theme_mode, AppConf, AppConfV, SystemMode, Theme};
use crate::update::CheckParams;
use crate::utils::{chars_eq_str, chars_of, lower_of, lowercase};

verus! {

/// How the main window is to be created.
#[derive(PartialEq, Eq, Structural, Clone, Copy, Debug)]
pub struct WindowParams {
    pub width: u64,
    pub height: u64,
    pub theme: Theme,
    pub always_on_top: bool,
}

/// Everything startup decides from the loaded preferences.
#[derive(PartialEq, Eq, Structural, Clone, Copy, Debug)]
pub struct StartupPlan {
    /// Hide the app from the dock (only meaningful on macOS).
    pub set_accessory_policy: bool,
    /// The main window to create, or none when the dock icon is hidden.
    pub main_window: Option<WindowParams>,
    /// The update check to schedule, or none when the policy disables it.
    pub update_check: Option<CheckParams>,
}

/// The update check that startup schedules for a given record: none at
/// all when the policy is "disable", a silent one when it is "silent".
pub open spec fn spec_startup_update_check(c: AppConfV) -> Option<CheckParams> {
    if lower_of(c.auto_update) != "disable"@ {
        Some(
            CheckParams {
                silent: lower_of(c.auto_update) == "silent"@,
                announce_if_none: None,
            },
        )
    } else {
        None
    }
}

/// The whole startup plan for a record, OS mode, and platform.
pub open spec fn spec_startup_plan(c: AppConfV, m: SystemMode, macos: bool) -> StartupPlan {
    StartupPlan {
        set_accessory_policy: c.hide_dock_icon && macos,
        main_window: if c.hide_dock_icon {
            None
        } else {
            Some(
                WindowParams {
                    width: c.main_width,
                    height: c.main_height,
                    theme: spec_theme_mode(lower_of(c.theme), m),
                    always_on_top: c.stay_on_top,
                },
            )
        },
        update_check: spec_startup_update_check(c),
    }
}

/// Computes the startup plan; mirrors `spec_startup_plan`.
pub fn init(conf: &AppConf, m: SystemMode, macos: bool) -> (r: StartupPlan)
    ensures
        r == spec_startup_plan(conf@, m, macos),
{
    let auto = lowercase(conf.auto_update.as_str());
    let update_check = if !(auto == "disable".to_owned()) {
        Some(CheckParams { silent: auto == "silent".to_owned(), announce_if_none: None })
    } else {
        None
    };
    let main_window = if conf.hide_dock_icon {
        None
    } else {
        Some(
            WindowParams {
                width: conf.main_width,
                height: conf.main_height,
                theme: conf.theme_mode_with(m),
                always_on_top: conf.stay_on_top,
            },
        )
    };
    StartupPlan {
        set_accessory_policy: conf.hide_dock_icon && macos,
        main_window,
        update_check,
    }
}

/// With auto-update policy "disable", startup schedules no update check.
pub proof fn lemma_disable_schedules_no_check(c: AppConfV)
    ensures
        lower_of(c.auto_update) == "disable"@ ==> spec_startup_update_check(c) is None,
        lower_of(c.auto_update) != "disable"@ ==> spec_startup_update_check(c) is Some,
{
}

/// What a close request on a window leads to.
#[derive(PartialEq, Eq, Structural, Clone, Copy, Debug)]
pub enum CloseAct {
    /// First close of the main window: ask whether closing should exit.
    Ask,
    Exit,
    Minimize,
    /// Any window other than the main one just closes.
    CloseWindow,
}

/// The close-request rule: only the main window is intercepted; its first
/// close asks, afterwards the persisted answer applies.
pub open spec fn spec_close_request(c: AppConfV, core: bool) -> CloseAct {
    if !core {
        CloseAct::CloseWindow
    } else if c.isinit {
        CloseAct::Ask
    } else if c.main_close {
        CloseAct::Exit
    } else {
        CloseAct::Minimize
    }
}

/// Decides a close request; mirrors `spec_close_request`.
pub fn close_request_action(conf: &AppConf, label: &str) -> (r: CloseAct)
    ensures
        r == spec_close_request(conf@, label@ == "core"@),
{
    let cs = chars_of(label);
    let core = chars_eq_str(&cs, "core");
    if !core {
        CloseAct::CloseWindow
    } else if conf.isinit {
        CloseAct::Ask
    } else if conf.main_close {
        CloseAct::Exit
    } else {
        CloseAct::Minimize
    }
}

/// Applies the user's answer to the first-close question: the choice is
/// persisted, and the window exits exactly when the answer said so.
pub fn close_answer(conf: AppConf, is_ok: bool) -> (r: (AppConf, bool))
    ensures
        r.0@ == (AppConfV { isinit: false, main_close: is_ok, ..conf@ }),
        r.1 == is_ok,
{
    let c2 = AppConf { isinit: false, main_close: is_ok, ..conf };
    (c2, is_ok)
}

} // verus!
