use vstd::prelude::*;

use crate::lex::{lex_compare, LexOrder};

verus! {

/// The phase of the main window.
#[derive(Debug, Clone, Copy, PartialEq, Eq, Structural)]
pub enum AppPhase {
    /// Connecting to the daemon and fetching the first data.
    Loading,
    /// The main view is up.
    Running,
    /// Start-up failed; the window shows the error.
    Crashed,
}

/// A command that concerns the selected GPU.
#[derive(Debug, Clone, Copy, PartialEq, Eq, Structural)]
pub enum GpuCommand {
    ResetClocks,
    ResetPmfw,
    FetchProcessList,
    DumpVBios,
}

/// A message to the main window, reduced to what decides its handling.
#[derive(Debug, Clone, PartialEq, Eq)]
pub enum AppEvent {
    /// The first data arrived; whether the daemon's build matches, and the
    /// id of the first GPU if there is one.
    DataLoaded { versions_match: bool, initial_gpu_id: Option<String> },
    /// Start-up failed.
    Error,
    /// Progress text while loading.
    LoadingStatus(String),
    /// The connection to the daemon was lost.
    Disconnected,
    /// The connection to the daemon is back.
    Reconnected,
    /// Reload the data of the selected GPU (all of it, or the stats only).
    ReloadData { full: bool },
    /// Drop the unapplied changes.
    RevertChanges,
    /// Rename a profile.
    RenameProfile { old_name: String, new_name: String },
    /// A command on the selected GPU.
    Gpu(GpuCommand),
    /// A request that goes to the daemon as it is.
    Daemon,
    /// A message for the main view.
    Forward,
}

/// What the main window does for a message.
#[derive(Debug, Clone, PartialEq, Eq)]
pub enum AppAction {
    /// Nothing.
    Nothing,
    /// Show the version mismatch error and stay on the loading page.
    ShowVersionMismatch,
    /// Build the main view, and poll the stats of this GPU if any.
    StartContent { stats_gpu_id: Option<String> },
    /// Show the start-up error instead of the loading page, with the text
    /// that `crash_text` gives for it.
    ShowCrash,
    /// Show the new loading text.
    ShowLoadingStatus,
    /// Show the reconnecting dialog.
    PresentReconnecting,
    /// Hide the reconnecting dialog.
    HideReconnecting,
    /// Fetch the data of this GPU anew.
    UpdateGpuData { gpu_id: String, full: bool },
    /// Ask for a reload of the stats.
    RequestReload,
    /// Copy the profile to its new name and delete the old one.
    RenameProfile,
    /// Run the command on this GPU.
    RunGpuCommand { command: GpuCommand, gpu_id: String },
    /// Pass the request to the daemon; `request_outcome` says what follows
    /// its answer.
    CallDaemon,
    /// Pass the message to the main view.
    ForwardToContent,
}

/// The state of the main window.
#[derive(Debug, Clone, PartialEq, Eq)]
pub struct AppState {
    pub phase: AppPhase,
    pub selected_gpu_id: Option<String>,
    pub loading_status: String,
}

pub open spec fn opt_view(o: Option<String>) -> Option<Seq<char>> {
    match o {
        Some(s) => Some(s@),
        None => None,
    }
}

/// The phase after `event` in phase `phase`.
pub open spec fn spec_next_phase(phase: AppPhase, event: AppEvent) -> AppPhase {
    match phase {
        AppPhase::Loading => match event {
            AppEvent::DataLoaded { versions_match, .. } => if versions_match {
                AppPhase::Running
            } else {
                AppPhase::Loading
            },
            AppEvent::Error => AppPhase::Crashed,
            _ => AppPhase::Loading,
        },
        _ => phase,
    }
}

impl AppState {
    /// The state while connecting, with the given loading text.
    pub fn new(loading_status: String) -> (r: Self)
        ensures
            r.phase == AppPhase::Loading,
            r.selected_gpu_id is None,
            r.loading_status == loading_status,
    {
        AppState { phase: AppPhase::Loading, selected_gpu_id: None, loading_status }
    }

    /// Handles a message: while loading, only the first data, an error and
    /// progress texts count; once running, GPU requests need a selected GPU
    /// and renaming a profile to its own name does nothing; after a crash
    /// nothing happens.
    pub fn update(&mut self, event: AppEvent) -> (r: AppAction)
        ensures
            final(self).phase == spec_next_phase(old(self).phase, event),
            old(self).phase == AppPhase::Loading ==> match event {
                AppEvent::DataLoaded { versions_match, initial_gpu_id } => if versions_match {
                    opt_view(final(self).selected_gpu_id) == opt_view(initial_gpu_id)
                        && final(self).loading_status == old(self).loading_status
                        && r == (AppAction::StartContent { stats_gpu_id: initial_gpu_id })
                } else {
                    *final(self) == *old(self) && r == AppAction::ShowVersionMismatch
                },
                AppEvent::Error => final(self).selected_gpu_id == old(self).selected_gpu_id
                    && final(self).loading_status == old(self).loading_status
                    && r == AppAction::ShowCrash,
                AppEvent::LoadingStatus(status) => final(self).selected_gpu_id
                    == old(self).selected_gpu_id && final(self).loading_status == status && r
                    == AppAction::ShowLoadingStatus,
                _ => *final(self) == *old(self) && r == AppAction::Nothing,
            },
            old(self).phase == AppPhase::Running ==> *final(self) == *old(self) && match event {
                AppEvent::Disconnected => r == AppAction::PresentReconnecting,
                AppEvent::Reconnected => r == AppAction::HideReconnecting,
                AppEvent::ReloadData { full } => match old(self).selected_gpu_id {
                    Some(gpu_id) => r == (AppAction::UpdateGpuData { gpu_id, full }),
                    None => r == AppAction::Nothing,
                },
                AppEvent::RevertChanges => r == AppAction::RequestReload,
                AppEvent::RenameProfile { old_name, new_name } => if old_name@ == new_name@ {
                    r == AppAction::Nothing
                } else {
                    r == AppAction::RenameProfile
                },
                AppEvent::Gpu(command) => match old(self).selected_gpu_id {
                    Some(gpu_id) => r == (AppAction::RunGpuCommand { command, gpu_id }),
                    None => r == AppAction::Nothing,
                },
                AppEvent::Daemon => r == AppAction::CallDaemon,
                AppEvent::Forward => r == AppAction::ForwardToContent,
                _ => r == AppAction::ForwardToContent,
            },
            old(self).phase == AppPhase::Crashed ==> *final(self) == *old(self) && r
                == AppAction::Nothing,
    {
        match self.phase {
            AppPhase::Loading => match event {
                AppEvent::DataLoaded { versions_match, initial_gpu_id } => {
                    if !versions_match {
                        return AppAction::ShowVersionMismatch;
                    }
                    self.selected_gpu_id = initial_gpu_id.clone();
                    self.phase = AppPhase::Running;
                    AppAction::StartContent { stats_gpu_id: initial_gpu_id }
                },
                AppEvent::Error => {
                    self.phase = AppPhase::Crashed;
                    AppAction::ShowCrash
                },
                AppEvent::LoadingStatus(status) => {
                    self.loading_status = status;
                    AppAction::ShowLoadingStatus
                },
                _ => AppAction::Nothing,
            },
            AppPhase::Running => match event {
                AppEvent::Disconnected => AppAction::PresentReconnecting,
                AppEvent::Reconnected => AppAction::HideReconnecting,
                AppEvent::ReloadData { full } => match &self.selected_gpu_id {
                    Some(gpu_id) => AppAction::UpdateGpuData { gpu_id: gpu_id.clone(), full },
                    None => AppAction::Nothing,
                },
                AppEvent::RevertChanges => AppAction::RequestReload,
                AppEvent::RenameProfile { old_name, new_name } => match lex_compare(
                    old_name.as_str(),
                    new_name.as_str(),
                ) {
                    LexOrder::Equal => AppAction::Nothing,
                    _ => AppAction::RenameProfile,
                },
                AppEvent::Gpu(command) => match &self.selected_gpu_id {
                    Some(gpu_id) => AppAction::RunGpuCommand { command, gpu_id: gpu_id.clone() },
                    None => AppAction::Nothing,
                },
                AppEvent::Daemon => AppAction::CallDaemon,
                _ => AppAction::ForwardToContent,
            },
            AppPhase::Crashed => AppAction::Nothing,
        }
    }
}

/// A request of the main window that the daemon answers in one call.
#[derive(Debug, Clone, Copy, PartialEq, Eq, Structural)]
pub enum DaemonRequest {
    SelectProfile,
    CreateProfile,
    DeleteProfile,
    MoveProfile,
    SetProfileRule,
    EnableOverdrive,
    DisableOverdrive,
    ResetConfig,
}

/// What follows the answer to a request.
#[derive(Debug, Clone, Copy, PartialEq, Eq, Structural)]
pub enum RequestFollowup {
    /// Fetch the list of profiles anew.
    ReloadProfiles,
    /// Make the created profile the active one (switching automatically),
    /// then fetch the list of profiles anew.
    ActivateCreatedProfile,
    /// Reload all the data of the selected GPU.
    ReloadAllData,
    /// Nothing more.
    Nothing,
}

/// How the main window handles the answer to a request.
#[derive(Debug, Clone, Copy, PartialEq, Eq, Structural)]
pub struct RequestOutcome {
    /// Show the request's error.
    pub show_error: bool,
    pub followup: RequestFollowup,
}

/// How the answer to `request` is handled: a failure shows its error; the
/// profile requests reload the profiles and the overdrive and reset
/// requests reload all data whether or not they succeeded; a created
/// profile is made active and the profiles reloaded only when it succeeded.
pub open spec fn spec_request_outcome(request: DaemonRequest, succeeded: bool) -> RequestOutcome {
    RequestOutcome {
        show_error: !succeeded,
        followup: match request {
            DaemonRequest::CreateProfile => if succeeded {
                RequestFollowup::ActivateCreatedProfile
            } else {
                RequestFollowup::Nothing
            },
            DaemonRequest::EnableOverdrive | DaemonRequest::DisableOverdrive
            | DaemonRequest::ResetConfig => RequestFollowup::ReloadAllData,
            _ => RequestFollowup::ReloadProfiles,
        },
    }
}

/// How the main window handles the answer to `request`.
pub fn request_outcome(request: DaemonRequest, succeeded: bool) -> (r: RequestOutcome)
    ensures
        r == spec_request_outcome(request, succeeded),
{
    let followup = match request {
        DaemonRequest::CreateProfile => if succeeded {
            RequestFollowup::ActivateCreatedProfile
        } else {
            RequestFollowup::Nothing
        },
        DaemonRequest::EnableOverdrive | DaemonRequest::DisableOverdrive | DaemonRequest::ResetConfig => {
            RequestFollowup::ReloadAllData
        },
        _ => RequestFollowup::ReloadProfiles,
    };
    RequestOutcome { show_error: !succeeded, followup }
}

/// The text of the crash page after start-up failed with `error`.
pub fn crash_text(error: &str) -> (r: String)
    ensures
        r@ == "Failed to initialize: "@ + error@,
{
    let mut out = String::from_str("Failed to initialize: ");
    out.append(error);
    out
}

/// After a crash the window stays crashed, and once running it keeps running.
pub proof fn lemma_phase_monotone(phase: AppPhase, event: AppEvent)
    ensures
        phase == AppPhase::Crashed ==> spec_next_phase(phase, event) == AppPhase::Crashed,
        phase == AppPhase::Running ==> spec_next_phase(phase, event) == AppPhase::Running,
        spec_next_phase(phase, event) == AppPhase::Running ==> phase == AppPhase::Running
            || event matches AppEvent::DataLoaded { versions_match: true, .. },
{
}

/// The answer to a request shows its error exactly when the request
/// failed; the profile requests reload the profiles and the overdrive and
/// reset requests reload all data whatever the answer; a created profile
/// is made active (and the profiles reloaded) only when creating it
/// succeeded, and nothing follows a failed creation.
pub proof fn lemma_request_outcomes(request: DaemonRequest, succeeded: bool)
    ensures
        spec_request_outcome(request, succeeded).show_error == !succeeded,
        (request == DaemonRequest::SelectProfile || request == DaemonRequest::DeleteProfile || request
            == DaemonRequest::MoveProfile || request == DaemonRequest::SetProfileRule)
            ==> spec_request_outcome(request, succeeded).followup == RequestFollowup::ReloadProfiles,
        (request == DaemonRequest::EnableOverdrive || request == DaemonRequest::DisableOverdrive || request
            == DaemonRequest::ResetConfig) ==> spec_request_outcome(request, succeeded).followup
            == RequestFollowup::ReloadAllData,
        request == DaemonRequest::CreateProfile ==> spec_request_outcome(request, succeeded).followup == if succeeded {
            RequestFollowup::ActivateCreatedProfile
        } else {
            RequestFollowup::Nothing
        },
{
}

} // verus!
