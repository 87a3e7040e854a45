use lact::content::{
    content_start, gpu_data_deliveries, stats_deliveries, Delivery, FirstData, GpuDataParts, UpdateKind,
};
use lact::daemon_tasks::{
    profile_not_found_message, DaemonTask, StepOutcome, TaskAction, TaskFollowup, TaskRun, TaskStep,
};
use lact::gpu_config::{
    collect_config, merge_config, ClocksLimits, GpuConfig, OcPageValues, PerformanceLevel, PowerLevelKind,
};
use lact::thermals::{
    ChangedThermalValues, CurveSettings, FanControlMode, FanControlSettings, FanPage, PmfwOptions,
    ThermalConfig, ThermalsState,
};

fn rename_task() -> DaemonTask {
    DaemonTask::rename("gaming", "quiet").unwrap()
}

#[test]
fn rename_to_same_name_is_no_task() {
    assert_eq!(DaemonTask::rename("gaming", "gaming"), None);
    assert_eq!(
        rename_task(),
        DaemonTask::RenameProfile { old_name: "gaming".to_string(), new_name: "quiet".to_string() }
    );
}

#[test]
fn rename_runs_get_create_delete_then_reloads_profiles() {
    let (mut run, first) = TaskRun::start(rename_task());
    assert_eq!(first, TaskAction::Perform(TaskStep::GetProfile("gaming".to_string())));
    assert_eq!(
        run.advance(StepOutcome::Succeeded),
        TaskAction::Perform(TaskStep::CreateProfile("quiet".to_string()))
    );
    assert_eq!(
        run.advance(StepOutcome::Succeeded),
        TaskAction::Perform(TaskStep::DeleteProfile("gaming".to_string()))
    );
    assert_eq!(run.advance(StepOutcome::Succeeded), TaskAction::Finish(TaskFollowup::ReloadProfiles));
    assert!(run.finished);
}

#[test]
fn rename_stops_at_first_failure() {
    let task = rename_task();
    let (mut run, _) = TaskRun::start(task.clone());
    assert_eq!(run.advance(StepOutcome::Succeeded), TaskAction::Perform(TaskStep::CreateProfile("quiet".to_string())));
    assert_eq!(run.advance(StepOutcome::Failed), TaskAction::ShowStepError { step: 1 });
    assert!(run.finished);
    assert_eq!(task.failure_context(1), Some("Could not create new profile".to_string()));
    assert_eq!(task.failure_context(0), Some("Could not get profile by old name".to_string()));
    assert_eq!(task.failure_context(2), Some("Could not delete old name".to_string()));

    let (mut run, _) = TaskRun::start(task);
    assert_eq!(run.advance(StepOutcome::Missing), TaskAction::ProfileNotFound);
    assert!(run.finished);
    assert_eq!(profile_not_found_message(), "Original profile not found");
}

#[test]
fn reset_tasks_confirm_then_reload_data() {
    let task = DaemonTask::ResetClocks { gpu_id: "1002:73BF-0000:03:00.0".to_string() };
    assert_eq!(task.failure_context(0), None);
    let (mut run, first) = TaskRun::start(task);
    assert_eq!(first, TaskAction::Perform(TaskStep::ResetClocks("1002:73BF-0000:03:00.0".to_string())));
    assert_eq!(run.advance(StepOutcome::Succeeded), TaskAction::Perform(TaskStep::ConfirmPending));
    assert_eq!(run.advance(StepOutcome::Succeeded), TaskAction::Finish(TaskFollowup::ReloadData));

    let (mut run, first) = TaskRun::start(DaemonTask::ResetPmfw { gpu_id: "gpu".to_string() });
    assert_eq!(first, TaskAction::Perform(TaskStep::ResetPmfw("gpu".to_string())));
    assert_eq!(run.advance(StepOutcome::Failed), TaskAction::ShowStepError { step: 0 });
}

#[test]
fn import_reads_parses_and_creates_under_the_file_name() {
    let task = DaemonTask::import(Some("LACT-profile-night.json"));
    assert_eq!(task, DaemonTask::ImportProfile { profile_name: "night".to_string() });
    assert_eq!(
        DaemonTask::import(None),
        DaemonTask::ImportProfile { profile_name: "Imported profile".to_string() }
    );
    assert_eq!(task.failure_context(1), Some("Could not parse profile".to_string()));
    let (mut run, first) = TaskRun::start(task);
    assert_eq!(first, TaskAction::Perform(TaskStep::ReadFile));
    assert_eq!(run.advance(StepOutcome::Succeeded), TaskAction::Perform(TaskStep::ParseProfile));
    assert_eq!(
        run.advance(StepOutcome::Succeeded),
        TaskAction::Perform(TaskStep::CreateProfile("night".to_string()))
    );
    assert_eq!(run.advance(StepOutcome::Succeeded), TaskAction::Finish(TaskFollowup::ReloadProfiles));
}

#[test]
fn content_start_decisions() {
    let start = content_start(true, None);
    assert_eq!(start.first, FirstData::InitialGpuData);
    assert_eq!(start.embedded_notice, None);
    let start = content_start(false, Some("connection refused"));
    assert_eq!(start.first, FirstData::ReloadFull);
    let notice = start.embedded_notice.unwrap();
    assert!(notice.starts_with("Could not connect to daemon, running in embedded mode."));
    assert!(notice.contains("Error info: connection refused\n\n"));
}

#[test]
fn gpu_data_update_deliveries() {
    assert_eq!(
        stats_deliveries(),
        vec![
            Delivery::OcPage { kind: UpdateKind::Stats, initial: false },
            Delivery::ThermalsPage { kind: UpdateKind::Stats, initial: false },
            Delivery::GraphsStats,
        ]
    );
    let nothing = GpuDataParts {
        has_info: false,
        has_stats: false,
        has_clocks_table: false,
        has_profile_modes: false,
        has_power_states: false,
        configured_power_states: Some(2),
    };
    assert_eq!(gpu_data_deliveries(nothing), vec![Delivery::EnableUi]);
    let some = GpuDataParts {
        has_info: false,
        has_stats: true,
        has_clocks_table: true,
        has_profile_modes: false,
        has_power_states: true,
        configured_power_states: Some(0),
    };
    assert_eq!(
        gpu_data_deliveries(some),
        vec![
            Delivery::InfoPage(UpdateKind::Stats),
            Delivery::ThermalsPage { kind: UpdateKind::Stats, initial: true },
            Delivery::OcPage { kind: UpdateKind::Stats, initial: true },
            Delivery::GraphsStats,
            Delivery::OcClocksTable,
            Delivery::OcPowerStates { configured: false },
            Delivery::EnableUi,
        ]
    );
    let all = GpuDataParts {
        has_info: true,
        has_stats: false,
        has_clocks_table: false,
        has_profile_modes: true,
        has_power_states: true,
        configured_power_states: Some(1),
    };
    let d = gpu_data_deliveries(all);
    assert_eq!(d.len(), 9);
    assert_eq!(d[0], Delivery::InfoPage(UpdateKind::Info));
    assert_eq!(d[5], Delivery::GraphsVramClockRatio);
    assert_eq!(d[6], Delivery::OcProfileModes);
    assert_eq!(d[7], Delivery::OcPowerStates { configured: true });
}

fn limits(v: Option<i32>) -> ClocksLimits {
    ClocksLimits {
        min_core_clock: v,
        max_core_clock: v,
        min_memory_clock: v,
        max_memory_clock: v,
        min_voltage: v,
        max_voltage: v,
        voltage_offset: v,
    }
}

fn pmfw(limit: Option<u32>) -> PmfwOptions {
    PmfwOptions {
        acoustic_limit: limit,
        acoustic_target: None,
        minimum_pwm: None,
        target_temperature: None,
        zero_rpm: None,
        zero_rpm_threshold: None,
    }
}

fn base_config() -> GpuConfig {
    GpuConfig {
        performance_level: None,
        power_profile_mode_index: None,
        custom_power_profile_mode_heuristics: vec![],
        thermal: ThermalConfig {
            fan_control_enabled: false,
            fan_control_settings: None,
            pmfw_options: pmfw(None),
            nvidia_target_temperature: None,
        },
        clocks: limits(None),
        power_states: vec![],
    }
}

#[test]
fn merge_keeps_unset_values_and_nvidia_target() {
    let mut stored = base_config();
    stored.performance_level = Some(PerformanceLevel::High);
    stored.power_profile_mode_index = Some(3);
    stored.custom_power_profile_mode_heuristics = vec![vec![Some(1)]];
    stored.thermal.nvidia_target_temperature = Some(80);
    stored.thermal.fan_control_enabled = true;
    stored.clocks = limits(Some(100));
    stored.power_states = vec![(PowerLevelKind::CoreClock, vec![0, 1])];

    let mut ui = base_config();
    ui.thermal.pmfw_options = pmfw(Some(2500));
    ui.thermal.nvidia_target_temperature = Some(70);
    ui.clocks = limits(Some(5));
    merge_config(&mut stored, ui);
    assert_eq!(stored.performance_level, Some(PerformanceLevel::High));
    assert_eq!(stored.power_profile_mode_index, Some(3));
    assert_eq!(stored.custom_power_profile_mode_heuristics, vec![vec![Some(1)]]);
    assert_eq!(stored.thermal.nvidia_target_temperature, Some(80));
    assert!(!stored.thermal.fan_control_enabled);
    assert_eq!(stored.thermal.pmfw_options.acoustic_limit, Some(2500));
    assert_eq!(stored.clocks, limits(Some(5)));
    assert!(stored.power_states.is_empty());

    let mut ui = base_config();
    ui.performance_level = Some(PerformanceLevel::Manual);
    ui.power_profile_mode_index = Some(0);
    ui.custom_power_profile_mode_heuristics = vec![vec![None, Some(7)]];
    merge_config(&mut stored, ui);
    assert_eq!(stored.performance_level, Some(PerformanceLevel::Manual));
    assert_eq!(stored.power_profile_mode_index, Some(0));
    assert_eq!(stored.custom_power_profile_mode_heuristics, vec![vec![None, Some(7)]]);
}

#[test]
fn collect_config_takes_page_values() {
    let mut thermals = ThermalsState::new();
    thermals.selected_page = FanPage::Static;
    let oc = OcPageValues {
        clocks: limits(Some(1800)),
        performance_level: Some(PerformanceLevel::Low),
        power_profile_mode_index: Some(1),
        custom_power_profile_mode_heuristics: vec![],
        power_states: vec![(PowerLevelKind::MemoryClock, vec![2])],
    };
    let changed = ChangedThermalValues {
        target_temperature: None,
        acoustic_limit: Some(2000),
        acoustic_target: None,
        minimum_pwm: None,
        nvidia_target_temperature: None,
    };
    let curve = CurveSettings {
        change_threshold: 2,
        spindown_delay_ms: 0,
        auto_threshold: None,
        temperature_key: None,
    };
    let defaults = FanControlSettings {
        mode: FanControlMode::Curve,
        change_threshold: None,
        spindown_delay_ms: None,
        auto_threshold: None,
        temperature_key: "edge".to_string(),
    };
    let config = collect_config(base_config(), oc, &thermals, &changed, &curve, &defaults);
    assert_eq!(config.performance_level, Some(PerformanceLevel::Low));
    assert_eq!(config.power_profile_mode_index, Some(1));
    assert_eq!(config.power_states, vec![(PowerLevelKind::MemoryClock, vec![2])]);
    assert_eq!(config.clocks, limits(Some(1800)));
    assert!(config.thermal.fan_control_enabled);
    assert_eq!(config.thermal.pmfw_options.acoustic_limit, Some(2000));
    let fan = config.thermal.fan_control_settings.unwrap();
    assert_eq!(fan.mode, FanControlMode::Static);
    assert_eq!(fan.change_threshold, None);
    assert_eq!(fan.temperature_key, "edge");
}

use lact::loading::{ConnectionError, LoadingAction, LoadingEvent, LoadingStage, LoadingState};

#[test]
fn loading_falls_back_from_tcp_and_reports_its_error() {
    let (mut s, a) = LoadingState::start(true);
    assert_eq!(a, LoadingAction::ConnectTcp);
    assert_eq!(s.step(LoadingEvent::SystemInfoFetched), LoadingAction::Ignore);
    assert_eq!(s.step(LoadingEvent::TcpFailed), LoadingAction::ConnectLocal);
    assert_eq!(s.step(LoadingEvent::EmbeddedStarted), LoadingAction::FetchSystemInfo);
    assert_eq!(s.connection_error, Some(ConnectionError::Tcp));
    assert_eq!(s.step(LoadingEvent::SystemInfoFetched), LoadingAction::ListDevices);
    assert_eq!(
        s.step(LoadingEvent::DevicesListed { first_gpu_id: Some("gpu-0".to_string()) }),
        LoadingAction::FetchGpuData("gpu-0".to_string())
    );
    assert_eq!(s.step(LoadingEvent::GpuDataFetched), LoadingAction::ListProfiles);
    assert_eq!(
        s.step(LoadingEvent::ProfilesListed),
        LoadingAction::Loaded {
            initial_gpu_id: Some("gpu-0".to_string()),
            connection_error: Some(ConnectionError::Tcp),
        }
    );
    assert_eq!(s.stage, LoadingStage::Loaded);
    assert_eq!(s.step(LoadingEvent::ProfilesListed), LoadingAction::Ignore);
}

#[test]
fn loading_local_without_gpus_and_failures() {
    let (mut s, a) = LoadingState::start(false);
    assert_eq!(a, LoadingAction::ConnectLocal);
    assert_eq!(s.step(LoadingEvent::SocketConnected), LoadingAction::FetchSystemInfo);
    assert_eq!(s.connection_error, None);
    assert_eq!(s.step(LoadingEvent::SystemInfoFetched), LoadingAction::ListDevices);
    assert_eq!(s.step(LoadingEvent::DevicesListed { first_gpu_id: None }), LoadingAction::ListProfiles);
    assert_eq!(
        s.step(LoadingEvent::ProfilesListed),
        LoadingAction::Loaded { initial_gpu_id: None, connection_error: None }
    );

    let (mut s, _) = LoadingState::start(false);
    assert_eq!(s.step(LoadingEvent::EmbeddedStarted), LoadingAction::FetchSystemInfo);
    assert_eq!(s.connection_error, Some(ConnectionError::Socket));
    assert_eq!(s.step(LoadingEvent::RequestFailed), LoadingAction::Fail);
    assert_eq!(s.stage, LoadingStage::Failed);

    let (mut s, _) = LoadingState::start(false);
    assert_eq!(s.step(LoadingEvent::LocalFailed), LoadingAction::Fail);
}

#[test]
fn merging_twice_equals_merging_once() {
    let mut ui = base_config();
    ui.performance_level = Some(PerformanceLevel::Auto);
    ui.custom_power_profile_mode_heuristics = vec![vec![Some(3)]];
    ui.thermal.fan_control_enabled = true;
    let mut stored = base_config();
    stored.thermal.nvidia_target_temperature = Some(75);
    merge_config(&mut stored, ui.clone());
    let once = stored.clone();
    merge_config(&mut stored, ui);
    assert_eq!(stored, once);
}

use lact::app_state::{crash_text, request_outcome, DaemonRequest, RequestFollowup, RequestOutcome};
use lact::content::{route_content_msg, ContentMsg, ContentMsgRoute};
use lact::msg::{no_gpu_selected_text, ContentAction, ContentRoute, UiCommand};
use lact::thermals::no_default_target_temperature_text;

#[test]
fn error_texts() {
    assert_eq!(crash_text("connection refused"), "Failed to initialize: connection refused");
    assert_eq!(no_gpu_selected_text(), "No GPU selected");
    assert_eq!(no_default_target_temperature_text(), "No default target temperature present");
}

#[test]
fn request_followups() {
    for r in [
        DaemonRequest::SelectProfile,
        DaemonRequest::DeleteProfile,
        DaemonRequest::MoveProfile,
        DaemonRequest::SetProfileRule,
    ] {
        assert_eq!(request_outcome(r, true), RequestOutcome { show_error: false, followup: RequestFollowup::ReloadProfiles });
        assert_eq!(request_outcome(r, false), RequestOutcome { show_error: true, followup: RequestFollowup::ReloadProfiles });
    }
    for r in [DaemonRequest::EnableOverdrive, DaemonRequest::DisableOverdrive, DaemonRequest::ResetConfig] {
        assert_eq!(request_outcome(r, true), RequestOutcome { show_error: false, followup: RequestFollowup::ReloadAllData });
        assert_eq!(request_outcome(r, false), RequestOutcome { show_error: true, followup: RequestFollowup::ReloadAllData });
    }
    assert_eq!(
        request_outcome(DaemonRequest::CreateProfile, true),
        RequestOutcome { show_error: false, followup: RequestFollowup::ActivateCreatedProfile }
    );
    assert_eq!(
        request_outcome(DaemonRequest::CreateProfile, false),
        RequestOutcome { show_error: true, followup: RequestFollowup::Nothing }
    );
}

#[test]
fn content_messages_are_routed() {
    assert_eq!(route_content_msg(ContentMsg::Error, Some("gpu")), ContentMsgRoute::ShowError);
    assert_eq!(route_content_msg(ContentMsg::LoadingStatus, None), ContentMsgRoute::Nothing);
    assert_eq!(route_content_msg(ContentMsg::Stats, None), ContentMsgRoute::Deliver(stats_deliveries()));
    assert_eq!(route_content_msg(ContentMsg::Crash, None), ContentMsgRoute::ShowCrashPage);
    assert_eq!(
        route_content_msg(ContentMsg::Ui(UiCommand::ShowGraphs), None),
        ContentMsgRoute::Ui(UiCommand::ShowGraphs)
    );
    assert_eq!(
        route_content_msg(ContentMsg::Action(ContentAction::ApplyChanges), None),
        ContentMsgRoute::Action(ContentRoute::NoGpuSelected)
    );
    assert_eq!(
        route_content_msg(ContentMsg::Action(ContentAction::ApplyChanges), Some("gpu-1")),
        ContentMsgRoute::Action(ContentRoute::ApplyConfig("gpu-1".to_string()))
    );
    assert_eq!(
        route_content_msg(ContentMsg::ExportProfileData { profile_name: Some("night".to_string()) }, None),
        ContentMsgRoute::OfferExport("LACT-profile-night.json".to_string())
    );
    assert_eq!(
        route_content_msg(ContentMsg::ExportProfileData { profile_name: None }, None),
        ContentMsgRoute::OfferExport("LACT-profile-default.json".to_string())
    );
}
