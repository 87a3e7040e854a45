use lact::msg::{power_states_configured, route_action, ContentAction, ContentRoute, UiCommand};

#[test]
fn content_routes() {
    assert_eq!(route_action(ContentAction::ApplyChanges, Some("gpu0")), ContentRoute::ApplyConfig("gpu0".to_string()));
    assert_eq!(route_action(ContentAction::ApplyChanges, None), ContentRoute::NoGpuSelected);
    assert_eq!(route_action(ContentAction::ShowGraphsWindow, None), ContentRoute::Ui(UiCommand::ShowGraphs));
    assert_eq!(route_action(ContentAction::ShowProcessMonitor, None), ContentRoute::Ui(UiCommand::ShowProcessMonitor));
    assert_eq!(route_action(ContentAction::ShowOverdriveDialog, None), ContentRoute::Ui(UiCommand::ShowOverdriveDialog));
    assert_eq!(route_action(ContentAction::SettingsChanged, None), ContentRoute::ShowApplyBar);
    assert_eq!(route_action(ContentAction::ReloadData, None), ContentRoute::HideApplyBarAndForward);
    assert_eq!(
        route_action(ContentAction::DumpVBios, Some("10DE:2684-1458:40E5-0000:01:00.0")),
        ContentRoute::SaveVbios("10DE_2684_vbios_dump.rom".to_string())
    );
    assert_eq!(route_action(ContentAction::Other, Some("gpu0")), ContentRoute::Forward);
}

#[test]
fn configured_power_states() {
    assert!(!power_states_configured(None));
    assert!(!power_states_configured(Some(0)));
    assert!(power_states_configured(Some(2)));
}
