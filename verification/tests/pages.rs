use lact::app_state::{AppAction, AppEvent, AppPhase, AppState, GpuCommand};
use lact::page_navigation::{NavigationAction, PageNavigation, PageNavigationMsg};
use lact::powermizer::{
    check_mode_applied, check_status, plan_set_mode, power_mizer_info, supported_modes_from_mask,
    NvidiaPowerMizerMode, PowerMizerControl, PowerMizerError, RawPowerMizerModes, SetModePlan,
};
use lact::thermals::{
    fan_info_init, initial_fan_page, ChangedThermalValues, DeviceFlag, FanControlMode, FanInfo, FanPage,
    FanRowRange, FanStats, PmfwInfo, PmfwOptions, TargetTemperatureReset, ThermalConfig, ThermalSetting,
    ThermalsState, CurveSettings, FanControlSettings,
};

fn names(v: &[&str]) -> Vec<String> {
    v.iter().map(|s| s.to_string()).collect()
}

#[test]
fn navigation_detach_attach() {
    let mut nav = PageNavigation::new(names(&["info", "oc", "thermals"]));
    assert_eq!(nav.update(PageNavigationMsg::Select(1)), NavigationAction::ShowPage("oc".to_string()));
    assert_eq!(nav.update(PageNavigationMsg::Detach(2)), NavigationAction::DetachPage { index: 2, move_content: true });
    assert_eq!(nav.update(PageNavigationMsg::Detach(2)), NavigationAction::DetachPage { index: 2, move_content: false });
    let actions = nav.close_windows();
    assert_eq!(
        actions,
        vec![
            NavigationAction::AttachPage { index: 0, move_content: false },
            NavigationAction::AttachPage { index: 1, move_content: false },
            NavigationAction::AttachPage { index: 2, move_content: true },
        ]
    );
    assert_eq!(nav.update(PageNavigationMsg::Attach(2)), NavigationAction::AttachPage { index: 2, move_content: false });
    assert_eq!(nav.position_of(Some("thermals")), Some(2));
    assert_eq!(nav.position_of(Some("missing")), None);
    assert_eq!(nav.position_of(None), None);
    assert_eq!(nav.len(), 3);
}

#[test]
fn powermizer_modes() {
    assert_eq!(
        supported_modes_from_mask(0b1011),
        vec![NvidiaPowerMizerMode::Adaptive, NvidiaPowerMizerMode::PreferMaximumPerformance, NvidiaPowerMizerMode::PreferConsistentPerformance]
    );
    assert_eq!(supported_modes_from_mask(0xFFFF_FFF0), vec![]);
    for raw in 0..4 {
        assert_eq!(NvidiaPowerMizerMode::from_raw(raw).unwrap().as_raw(), raw);
    }
    assert_eq!(NvidiaPowerMizerMode::from_raw(4), None);
    let info = power_mizer_info(RawPowerMizerModes { current: 2, default: 7, supported_modes_mask: 0b0101 });
    assert_eq!(info.current, Some(NvidiaPowerMizerMode::Auto));
    assert_eq!(info.default, None);
    assert_eq!(info.supported, vec![NvidiaPowerMizerMode::Adaptive, NvidiaPowerMizerMode::Auto]);
}

#[test]
fn powermizer_set_mode_plan() {
    let modes = RawPowerMizerModes { current: 0, default: 0, supported_modes_mask: 0b0011 };
    assert_eq!(plan_set_mode(&modes, NvidiaPowerMizerMode::Auto), SetModePlan::Unsupported);
    assert_eq!(plan_set_mode(&modes, NvidiaPowerMizerMode::Adaptive), SetModePlan::AlreadyCurrent);
    assert_eq!(
        plan_set_mode(&modes, NvidiaPowerMizerMode::PreferMaximumPerformance),
        SetModePlan::Apply(PowerMizerControl { reserved: 0, mode: 1, supported_modes_mask: 0b0011 })
    );
    let after = RawPowerMizerModes { current: 0, default: 0, supported_modes_mask: 0b0011 };
    assert_eq!(check_mode_applied(&after, NvidiaPowerMizerMode::PreferMaximumPerformance), Err(PowerMizerError::NotApplied));
    assert_eq!(check_mode_applied(&after, NvidiaPowerMizerMode::Adaptive), Ok(()));
    assert_eq!(check_status(0), Ok(()));
    assert_eq!(check_status(3), Err(PowerMizerError::Nvml(3)));
}

#[test]
fn fan_rows_and_pages() {
    assert_eq!(fan_info_init(None), None);
    assert_eq!(fan_info_init(Some(FanInfo { current: 0, allowed_range: None })), None);
    assert_eq!(fan_info_init(Some(FanInfo { current: 0, allowed_range: Some((0, 0)) })), None);
    assert_eq!(
        fan_info_init(Some(FanInfo { current: 40, allowed_range: None })),
        Some(FanRowRange { value: 40, lower: 0, upper: 40 })
    );
    assert_eq!(
        fan_info_init(Some(FanInfo { current: 85, allowed_range: Some((25, 110)) })),
        Some(FanRowRange { value: 85, lower: 25, upper: 110 })
    );
    assert_eq!(initial_fan_page(Some(FanControlMode::Static), true), FanPage::Static);
    assert_eq!(initial_fan_page(Some(FanControlMode::Curve), true), FanPage::Curve);
    assert_eq!(initial_fan_page(Some(FanControlMode::Curve), false), FanPage::Automatic);
    assert_eq!(initial_fan_page(None, true), FanPage::Automatic);
    for p in [FanPage::Automatic, FanPage::Curve, FanPage::Static] {
        assert_eq!(FanPage::from_name(p.name()), Some(p));
    }
    assert_eq!(FanPage::from_name("manual"), None);
}

fn stats() -> FanStats {
    FanStats {
        pwm_current: Some(120),
        speed_current: None,
        control_enabled: true,
        control_mode: Some(FanControlMode::Curve),
        pmfw_info: PmfwInfo {
            target_temp: Some(FanInfo { current: 95, allowed_range: Some((25, 110)) }),
            acoustic_limit: None,
            acoustic_target: Some(FanInfo { current: 0, allowed_range: Some((0, 0)) }),
            minimum_pwm: Some(FanInfo { current: 15, allowed_range: Some((0, 100)) }),
            zero_rpm_enable: Some(true),
            zero_rpm_temperature: Some(FanInfo { current: 50, allowed_range: Some((30, 60)) }),
        },
        nvidia_target_temp: None,
        nvidia_target_temp_default: None,
    }
}

#[test]
fn thermals_setup_and_apply() {
    let mut state = ThermalsState::new();
    state.update_info(&vec![DeviceFlag::HasPmfw, DeviceFlag::ConfigurableFanControl]);
    assert!(state.has_pmfw && state.custom_control_supported && !state.has_auto_threshold);
    assert!(!state.fan_settings_available());

    let rows = state.update_stats(&stats(), true).unwrap();
    assert_eq!(
        rows.pmfw_rows,
        vec![
            (ThermalSetting::TargetTemperature, FanRowRange { value: 95, lower: 25, upper: 110 }),
            (ThermalSetting::MinimumPwm, FanRowRange { value: 15, lower: 0, upper: 100 }),
        ]
    );
    assert_eq!(rows.zero_rpm_temperature, Some(FanRowRange { value: 50, lower: 30, upper: 60 }));
    assert_eq!(rows.nvidia_target_temperature, None);
    assert_eq!(state.selected_page, FanPage::Curve);
    assert!(state.zero_rpm_available && state.zero_rpm);
    assert!(state.fan_settings_available());
    assert!(state.update_stats(&stats(), false).is_none());

    assert_eq!(state.zero_rpm_temperature_edited(Some(55)), Some(55));
    assert!(state.zero_rpm_temperature_changed(57));
    assert_eq!(state.zero_rpm_temperature_edit, Some(57));
    assert_eq!(state.zero_rpm_temperature_edited(None), None);
    assert_eq!(state.zero_rpm_temperature_edit, Some(57));
    assert_eq!(state.zero_rpm_temperature_edited(Some(55)), Some(55));

    let mut config = ThermalConfig {
        fan_control_enabled: false,
        fan_control_settings: None,
        pmfw_options: PmfwOptions {
            acoustic_limit: Some(1),
            acoustic_target: None,
            minimum_pwm: None,
            target_temperature: Some(80),
            zero_rpm: None,
            zero_rpm_threshold: None,
        },
        nvidia_target_temperature: None,
    };
    let changed = ChangedThermalValues {
        target_temperature: Some(90),
        acoustic_limit: None,
        acoustic_target: None,
        minimum_pwm: Some(20),
        nvidia_target_temperature: None,
    };
    let curve = CurveSettings {
        change_threshold: 2,
        spindown_delay_ms: 5000,
        auto_threshold: None,
        temperature_key: Some("junction".to_string()),
    };
    let defaults = FanControlSettings {
        mode: FanControlMode::Static,
        change_threshold: None,
        spindown_delay_ms: None,
        auto_threshold: Some(40),
        temperature_key: "edge".to_string(),
    };
    state.apply_config(&mut config, &changed, &curve, &defaults);
    let once = config.clone();
    state.apply_config(&mut config, &changed, &curve, &defaults);
    assert_eq!(config, once);
    assert!(config.fan_control_enabled);
    assert_eq!(
        config.fan_control_settings,
        Some(FanControlSettings {
            mode: FanControlMode::Curve,
            change_threshold: Some(2),
            spindown_delay_ms: Some(5000),
            auto_threshold: Some(40),
            temperature_key: "junction".to_string(),
        })
    );
    assert_eq!(config.pmfw_options.acoustic_limit, Some(1));
    assert_eq!(config.pmfw_options.target_temperature, Some(90));
    assert_eq!(config.pmfw_options.minimum_pwm, Some(20));
    assert_eq!(config.pmfw_options.zero_rpm_threshold, Some(55));
    assert_eq!(config.pmfw_options.zero_rpm, Some(true));

    let editor_without_key = CurveSettings {
        change_threshold: 3,
        spindown_delay_ms: 0,
        auto_threshold: Some(50),
        temperature_key: None,
    };
    state.apply_config(&mut config, &changed, &editor_without_key, &defaults);
    let stored = config.fan_control_settings.clone().unwrap();
    assert_eq!(stored.change_threshold, Some(3));
    assert_eq!(stored.spindown_delay_ms, Some(0));
    assert_eq!(stored.auto_threshold, Some(50));
    assert_eq!(stored.temperature_key, "junction");

    state.selected_page = FanPage::Automatic;
    let before = config.fan_control_settings.clone();
    state.apply_config(&mut config, &changed, &curve, &defaults);
    assert!(!config.fan_control_enabled);
    assert_eq!(config.fan_control_settings, before);

    state.selected_page = FanPage::Static;
    state.apply_config(&mut config, &changed, &curve, &defaults);
    assert!(config.fan_control_enabled);
    let stored = config.fan_control_settings.clone().unwrap();
    assert_eq!(stored.mode, FanControlMode::Static);
    assert_eq!(stored.change_threshold, Some(3));
    assert_eq!(stored.temperature_key, "junction");

    let mut fresh = ThermalConfig {
        fan_control_enabled: false,
        fan_control_settings: None,
        pmfw_options: config.pmfw_options,
        nvidia_target_temperature: None,
    };
    state.apply_config(&mut fresh, &changed, &curve, &defaults);
    let stored = fresh.fan_control_settings.unwrap();
    assert_eq!(stored.mode, FanControlMode::Static);
    assert_eq!(stored.auto_threshold, Some(40));
    assert_eq!(stored.temperature_key, "edge");
}

#[test]
fn nvidia_target_reset() {
    let mut state = ThermalsState::new();
    assert_eq!(state.reset_nvidia_options(), TargetTemperatureReset::NoDefault);
    let mut s = stats();
    s.nvidia_target_temp = Some(FanInfo { current: 83, allowed_range: Some((65, 91)) });
    s.nvidia_target_temp_default = Some(83);
    state.update_stats(&s, true);
    assert_eq!(state.reset_nvidia_options(), TargetTemperatureReset::SetValue(83));
    let mut without_row = ThermalsState::new();
    assert!(!without_row.zero_rpm_temperature_changed(40));
    assert_eq!(without_row.zero_rpm_temperature_edit, None);
}

#[test]
fn app_state_machine() {
    let mut app = AppState::new("connecting".to_string());
    assert_eq!(app.update(AppEvent::Gpu(GpuCommand::ResetClocks)), AppAction::Nothing);
    assert_eq!(app.update(AppEvent::LoadingStatus("fetching".to_string())), AppAction::ShowLoadingStatus);
    assert_eq!(app.loading_status, "fetching");
    assert_eq!(
        app.update(AppEvent::DataLoaded { versions_match: false, initial_gpu_id: None }),
        AppAction::ShowVersionMismatch
    );
    assert_eq!(app.phase, AppPhase::Loading);
    assert_eq!(
        app.update(AppEvent::DataLoaded { versions_match: true, initial_gpu_id: Some("gpu0".to_string()) }),
        AppAction::StartContent { stats_gpu_id: Some("gpu0".to_string()) }
    );
    assert_eq!(app.phase, AppPhase::Running);
    assert_eq!(
        app.update(AppEvent::ReloadData { full: true }),
        AppAction::UpdateGpuData { gpu_id: "gpu0".to_string(), full: true }
    );
    assert_eq!(
        app.update(AppEvent::RenameProfile { old_name: "a".to_string(), new_name: "a".to_string() }),
        AppAction::Nothing
    );
    assert_eq!(
        app.update(AppEvent::RenameProfile { old_name: "a".to_string(), new_name: "b".to_string() }),
        AppAction::RenameProfile
    );
    assert_eq!(app.update(AppEvent::Error), AppAction::ForwardToContent);
    assert_eq!(app.phase, AppPhase::Running);

    let mut crashed = AppState::new(String::new());
    assert_eq!(crashed.update(AppEvent::Error), AppAction::ShowCrash);
    assert_eq!(crashed.update(AppEvent::Daemon), AppAction::Nothing);
    assert_eq!(crashed.phase, AppPhase::Crashed);
}
