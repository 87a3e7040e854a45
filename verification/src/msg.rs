use vstd::prelude::*;

use std::path::PathBuf;

verus! {

/// `std::path::PathBuf`, carried through unread.
#[verifier::external_type_specification]
#[verifier::external_body]
pub struct ExPathBuf(PathBuf);

/// A request to show or update a window of the main view.
#[derive(Debug, Clone, Copy, PartialEq, Eq, Structural)]
pub enum UiCommand {
    ShowGraphs,
    ShowProcessMonitor,
    ShowOverdriveDialog,
    OverdriveLoading,
    OverdriveLoaded,
}

/// The result of a background command of the main view.
#[derive(Debug)]
pub enum CommandOutput {
    /// The user picked this file to import a profile from.
    ProfileImport(PathBuf),
}

} // verus!

verus! {

/// A request from a page or the header to the main view, reduced to what
/// decides its handling.
#[derive(Debug, Clone, Copy, PartialEq, Eq, Structural)]
pub enum ContentAction {
    ApplyChanges,
    SettingsChanged,
    ShowGraphsWindow,
    ShowProcessMonitor,
    ShowOverdriveDialog,
    ReloadData,
    ImportProfile,
    AskConfirmation,
    Crash,
    DumpVBios,
    /// Anything else, which the main window handles.
    Other,
}

/// How the main view handles a request.
#[derive(Debug, Clone, PartialEq, Eq)]
pub enum ContentRoute {
    /// Collect the configuration of the pages and send it to be applied to this GPU.
    ApplyConfig(String),
    /// Applying needs a selected GPU: report that none is, with the text
    /// that `no_gpu_selected_text` gives.
    NoGpuSelected,
    /// Show the bar that offers to apply or revert the changes.
    ShowApplyBar,
    /// Run this window command.
    Ui(UiCommand),
    /// Hide the apply bar and pass the reload on to the main window.
    HideApplyBarAndForward,
    /// Open the file chooser for a profile to import.
    OpenImportDialog,
    /// Ask the user before running the request it holds.
    AskConfirmation,
    /// Show the crash page.
    ShowCrashPage,
    /// Open the save dialog for the VBIOS dump, offering this file name.
    SaveVbios(String),
    /// Pass the request on to the main window.
    Forward,
}

/// Whether `r` is how the main view handles `action` when `selected_gpu_id`
/// is the GPU picked in the header.
pub open spec fn routes_to(action: ContentAction, selected_gpu_id: Option<Seq<char>>, r: ContentRoute) -> bool {
    match action {
        ContentAction::ApplyChanges => match selected_gpu_id {
            Some(id) => r matches ContentRoute::ApplyConfig(g) && g@ == id,
            None => r == ContentRoute::NoGpuSelected,
        },
        ContentAction::SettingsChanged => r == ContentRoute::ShowApplyBar,
        ContentAction::ShowGraphsWindow => r == ContentRoute::Ui(UiCommand::ShowGraphs),
        ContentAction::ShowProcessMonitor => r == ContentRoute::Ui(UiCommand::ShowProcessMonitor),
        ContentAction::ShowOverdriveDialog => r == ContentRoute::Ui(UiCommand::ShowOverdriveDialog),
        ContentAction::ReloadData => r == ContentRoute::HideApplyBarAndForward,
        ContentAction::ImportProfile => r == ContentRoute::OpenImportDialog,
        ContentAction::AskConfirmation => r == ContentRoute::AskConfirmation,
        ContentAction::Crash => r == ContentRoute::ShowCrashPage,
        ContentAction::DumpVBios => r matches ContentRoute::SaveVbios(name) && name@
            == crate::files::spec_vbios_dump_file_name(selected_gpu_id),
        ContentAction::Other => r == ContentRoute::Forward,
    }
}

/// Each request of the main view has a handling of its own: a route
/// belongs to exactly one request, applying goes to the selected GPU (or
/// reports that none is selected), and the VBIOS dump offers the file name
/// made from the selected GPU.
pub proof fn lemma_routes_distinct(action: ContentAction, selected_gpu_id: Option<Seq<char>>, r: ContentRoute)
    requires
        routes_to(action, selected_gpu_id, r),
    ensures
        (r is ApplyConfig || r is NoGpuSelected) <==> action == ContentAction::ApplyChanges,
        r matches ContentRoute::ApplyConfig(g) ==> selected_gpu_id == Some(g@),
        r is NoGpuSelected <==> (action == ContentAction::ApplyChanges && selected_gpu_id is None),
        r is ShowApplyBar <==> action == ContentAction::SettingsChanged,
        r == ContentRoute::Ui(UiCommand::ShowGraphs) <==> action == ContentAction::ShowGraphsWindow,
        r == ContentRoute::Ui(UiCommand::ShowProcessMonitor) <==> action == ContentAction::ShowProcessMonitor,
        r == ContentRoute::Ui(UiCommand::ShowOverdriveDialog) <==> action == ContentAction::ShowOverdriveDialog,
        r is Ui ==> (action == ContentAction::ShowGraphsWindow || action == ContentAction::ShowProcessMonitor
            || action == ContentAction::ShowOverdriveDialog),
        r is HideApplyBarAndForward <==> action == ContentAction::ReloadData,
        r is OpenImportDialog <==> action == ContentAction::ImportProfile,
        r is AskConfirmation <==> action == ContentAction::AskConfirmation,
        r is ShowCrashPage <==> action == ContentAction::Crash,
        r is SaveVbios <==> action == ContentAction::DumpVBios,
        r matches ContentRoute::SaveVbios(name) ==> name@ == crate::files::spec_vbios_dump_file_name(
            selected_gpu_id,
        ),
        r is Forward <==> action == ContentAction::Other,
{
}

/// The view of an optional string.
pub open spec fn opt_str_view(o: Option<&str>) -> Option<Seq<char>> {
    match o {
        Some(s) => Some(s@),
        None => None,
    }
}

/// How the main view handles `action` when `selected_gpu_id` is the GPU
/// picked in the header.
pub fn route_action(action: ContentAction, selected_gpu_id: Option<&str>) -> (r: ContentRoute)
    ensures
        routes_to(action, opt_str_view(selected_gpu_id), r),
{
    match action {
        ContentAction::ApplyChanges => match selected_gpu_id {
            Some(id) => ContentRoute::ApplyConfig(id.to_owned()),
            None => ContentRoute::NoGpuSelected,
        },
        ContentAction::SettingsChanged => ContentRoute::ShowApplyBar,
        ContentAction::ShowGraphsWindow => ContentRoute::Ui(UiCommand::ShowGraphs),
        ContentAction::ShowProcessMonitor => ContentRoute::Ui(UiCommand::ShowProcessMonitor),
        ContentAction::ShowOverdriveDialog => ContentRoute::Ui(UiCommand::ShowOverdriveDialog),
        ContentAction::ReloadData => ContentRoute::HideApplyBarAndForward,
        ContentAction::ImportProfile => ContentRoute::OpenImportDialog,
        ContentAction::AskConfirmation => ContentRoute::AskConfirmation,
        ContentAction::Crash => ContentRoute::ShowCrashPage,
        ContentAction::DumpVBios => ContentRoute::SaveVbios(crate::files::vbios_dump_file_name(selected_gpu_id)),
        ContentAction::Other => ContentRoute::Forward,
    }
}

/// The error shown when changes are applied while no GPU is selected.
pub fn no_gpu_selected_text() -> (r: String)
    ensures
        r@ == "No GPU selected"@,
{
    String::from_str("No GPU selected")
}

/// Whether the power states shown come from a stored configuration: there
/// is a configuration (`Some` with the number of its configured power
/// state kinds) and it configures some.
pub fn power_states_configured(configured_power_states: Option<usize>) -> (r: bool)
    ensures
        r == (configured_power_states matches Some(n) && n > 0),
{
    match configured_power_states {
        Some(n) => n > 0,
        None => false,
    }
}

} // verus!
