//! The update orchestration state machine: checking, silent or prompted
//! install, and the restart prompt, as a pure function of state and event.
use vstd::prelude::*;

use crate::utils::{append_str, chars_of, string_of};

verus! {

/// How one update run was asked for.
#[derive(PartialEq, Eq, Structural, Clone, Copy, Debug)]
pub struct CheckParams {
    /// Install without a pre-install confirmation dialog.
    pub silent: bool,
    /// Show an informational dialog when no update is available.
    pub announce_if_none: Option<bool>,
}

#[derive(PartialEq, Eq, Structural, Clone, Copy, Debug)]
pub enum UpdateState {
    Idle,
    Checking,
    NoUpdate,
    SilentInstall,
    PromptInstall,
    Installed,
    Declined,
    Failed,
}

#[derive(PartialEq, Eq, Structural, Clone, Copy, Debug)]
pub enum UpdateEvent {
    CheckDone { available: bool },
    CheckFailed,
    ConsentAnswer { accepted: bool },
    InstallDone,
    InstallFailed,
    RestartAnswer { restart: bool },
}

#[derive(PartialEq, Eq, Structural, Clone, Copy, Debug)]
pub enum UpdateAction {
    Nothing,
    QueryEndpoint,
    AnnounceUpToDate,
    AskConsent,
    DownloadAndInstall,
    AskRestart,
    Restart,
    LogError,
}

/// The whole machine: what each event does in each state. A failed check
/// is swallowed; a failed install is only logged.
pub open spec fn spec_update_step(s: UpdateState, e: UpdateEvent, p: CheckParams) -> (
    UpdateState,
    UpdateAction,
) {
    match (s, e) {
        (UpdateState::Checking, UpdateEvent::CheckDone { available }) => {
            if available {
                if p.silent {
                    (UpdateState::SilentInstall, UpdateAction::DownloadAndInstall)
                } else {
                    (UpdateState::PromptInstall, UpdateAction::AskConsent)
                }
            } else {
                if p.announce_if_none == Some(true) {
                    (UpdateState::NoUpdate, UpdateAction::AnnounceUpToDate)
                } else {
                    (UpdateState::NoUpdate, UpdateAction::Nothing)
                }
            }
        },
        (UpdateState::Checking, UpdateEvent::CheckFailed) => (
            UpdateState::Idle,
            UpdateAction::Nothing,
        ),
        (UpdateState::PromptInstall, UpdateEvent::ConsentAnswer { accepted }) => {
            if accepted {
                (UpdateState::SilentInstall, UpdateAction::DownloadAndInstall)
            } else {
                (UpdateState::Declined, UpdateAction::Nothing)
            }
        },
        (UpdateState::SilentInstall, UpdateEvent::InstallDone) => (
            UpdateState::Installed,
            UpdateAction::AskRestart,
        ),
        (UpdateState::SilentInstall, UpdateEvent::InstallFailed) => (
            UpdateState::Failed,
            UpdateAction::LogError,
        ),
        (UpdateState::Installed, UpdateEvent::RestartAnswer { restart }) => {
            if restart {
                (UpdateState::Installed, UpdateAction::Restart)
            } else {
                (UpdateState::Installed, UpdateAction::Nothing)
            }
        },
        _ => (s, UpdateAction::Nothing),
    }
}

/// Starts an update run: the caller is to query the endpoint and feed the
/// outcome back through `update_step` under the returned parameters.
pub fn run_check_update(silent: bool, has_msg: Option<bool>) -> (r: (
    CheckParams,
    UpdateState,
    UpdateAction,
))
    ensures
        r.0 == (CheckParams { silent, announce_if_none: has_msg }),
        r.1 == UpdateState::Checking,
        r.2 == UpdateAction::QueryEndpoint,
{
    (
        CheckParams { silent, announce_if_none: has_msg },
        UpdateState::Checking,
        UpdateAction::QueryEndpoint,
    )
}

/// One transition of the machine; mirrors `spec_update_step`.
pub fn update_step(s: UpdateState, e: UpdateEvent, p: CheckParams) -> (r: (
    UpdateState,
    UpdateAction,
))
    ensures
        r == spec_update_step(s, e, p),
{
    match (s, e) {
        (UpdateState::Checking, UpdateEvent::CheckDone { available }) => {
            if available {
                if p.silent {
                    (UpdateState::SilentInstall, UpdateAction::DownloadAndInstall)
                } else {
                    (UpdateState::PromptInstall, UpdateAction::AskConsent)
                }
            } else {
                if p.announce_if_none == Some(true) {
                    (UpdateState::NoUpdate, UpdateAction::AnnounceUpToDate)
                } else {
                    (UpdateState::NoUpdate, UpdateAction::Nothing)
                }
            }
        },
        (UpdateState::Checking, UpdateEvent::CheckFailed) => (
            UpdateState::Idle,
            UpdateAction::Nothing,
        ),
        (UpdateState::PromptInstall, UpdateEvent::ConsentAnswer { accepted }) => {
            if accepted {
                (UpdateState::SilentInstall, UpdateAction::DownloadAndInstall)
            } else {
                (UpdateState::Declined, UpdateAction::Nothing)
            }
        },
        (UpdateState::SilentInstall, UpdateEvent::InstallDone) => (
            UpdateState::Installed,
            UpdateAction::AskRestart,
        ),
        (UpdateState::SilentInstall, UpdateEvent::InstallFailed) => (
            UpdateState::Failed,
            UpdateAction::LogError,
        ),
        (UpdateState::Installed, UpdateEvent::RestartAnswer { restart }) => {
            if restart {
                (UpdateState::Installed, UpdateAction::Restart)
            } else {
                (UpdateState::Installed, UpdateAction::Nothing)
            }
        },
        _ => (s, UpdateAction::Nothing),
    }
}

/// A check that finds no update announces it exactly when asked to:
/// with `announce_if_none = Some(true)` the one informational dialog is
/// shown; with `None` or `Some(false)` nothing observable happens.
pub proof fn lemma_announce_iff_asked(p: CheckParams)
    ensures
        spec_update_step(
            UpdateState::Checking,
            UpdateEvent::CheckDone { available: false },
            p,
        ).1 == UpdateAction::AnnounceUpToDate <==> p.announce_if_none == Some(true),
        p.announce_if_none != Some(true) ==> spec_update_step(
            UpdateState::Checking,
            UpdateEvent::CheckDone { available: false },
            p,
        ).1 == UpdateAction::Nothing,
        spec_update_step(UpdateState::Checking, UpdateEvent::CheckDone { available: false }, p).0
            == UpdateState::NoUpdate,
{
}

/// What an auxiliary HTTP fetch hands back: the body on a 200 response,
/// else nothing and a user-surfaced dialog.
pub fn get_data(status: u16, body: String) -> (r: (Option<String>, bool))
    ensures
        status == 200 ==> r.0 == Some(body) && !r.1,
        status != 200 ==> r.0 is None && r.1,
{
    if status == 200 {
        (Some(body), false)
    } else {
        (None, true)
    }
}

/// The title of the pre-install confirmation dialog.
pub fn install_prompt_title(name: &str) -> (r: String)
    ensures
        r@ == "A new version of "@ + name@ + " is available! "@,
{
    let mut out = chars_of("A new version of ");
    append_str(&mut out, name);
    append_str(&mut out, " is available! ");
    string_of(&out)
}

/// The body of the pre-install confirmation dialog, release notes included.
pub fn install_prompt_message(name: &str, latest: &str, current: &str, notes: &str) -> (r: String)
    ensures
        r@ == name@ + " "@ + latest@ + " is now available -- you have "@ + current@
            + ".\n\nWould you like to install it now?\n\nRelease Notes:\n"@ + notes@,
{
    let mut out = chars_of(name);
    append_str(&mut out, " ");
    append_str(&mut out, latest);
    append_str(&mut out, " is now available -- you have ");
    append_str(&mut out, current);
    append_str(&mut out, ".\n\nWould you like to install it now?\n\nRelease Notes:\n");
    append_str(&mut out, notes);
    string_of(&out)
}

} // verus!
