use vstd::prelude::*;

use crate::thermals::{
    applied_config, ChangedThermalValues, CurveSettings, FanControlSettings, ThermalConfig, ThermalsState,
};

verus! {

/// The performance level of an AMD GPU.
#[derive(Debug, Clone, Copy, PartialEq, Eq, Structural)]
pub enum PerformanceLevel {
    Auto,
    Low,
    High,
    Manual,
}

/// The kind of clock that a set of power states belongs to.
#[derive(Debug, Clone, Copy, PartialEq, Eq, Structural)]
pub enum PowerLevelKind {
    CoreClock,
    MemoryClock,
}

/// The clock and voltage limits of a GPU configuration (the seven that the
/// pages' settings overwrite when they are applied; the clock offsets and
/// curve points of a configuration are not held here).
#[derive(Debug, Clone, Copy, PartialEq, Eq, Structural)]
pub struct ClocksLimits {
    pub min_core_clock: Option<i32>,
    pub max_core_clock: Option<i32>,
    pub min_memory_clock: Option<i32>,
    pub max_memory_clock: Option<i32>,
    pub min_voltage: Option<i32>,
    pub max_voltage: Option<i32>,
    pub voltage_offset: Option<i32>,
}

/// A GPU configuration, but for its power cap (a float), with the clock
/// limits of `ClocksLimits`.
#[derive(Debug, Clone, PartialEq, Eq)]
pub struct GpuConfig {
    pub performance_level: Option<PerformanceLevel>,
    pub power_profile_mode_index: Option<u16>,
    pub custom_power_profile_mode_heuristics: Vec<Vec<Option<i32>>>,
    pub thermal: ThermalConfig,
    pub clocks: ClocksLimits,
    /// The enabled power state indices of each clock kind.
    pub power_states: Vec<(PowerLevelKind, Vec<u8>)>,
}

/// The settings that the overclocking page holds. `clocks` is what the
/// page's clock commands give when applied in order to the clock limits of
/// the default configuration: applying a command is the configuration
/// schema's own code, which this library does not hold, so the caller
/// applies them.
#[derive(Debug, Clone, PartialEq, Eq)]
pub struct OcPageValues {
    pub clocks: ClocksLimits,
    pub performance_level: Option<PerformanceLevel>,
    pub power_profile_mode_index: Option<u16>,
    pub custom_power_profile_mode_heuristics: Vec<Vec<Option<i32>>>,
    pub power_states: Vec<(PowerLevelKind, Vec<u8>)>,
}

/// `new` where it holds a value, else `old`.
pub open spec fn keep_unless_set<T>(old: Option<T>, new: Option<T>) -> Option<T> {
    match new {
        Some(v) => Some(v),
        None => old,
    }
}

/// The stored configuration `stored` with the settings of the pages `ui`
/// written over it: the performance level and power profile mode where the
/// pages set one, the custom heuristics where the pages have any; the fan
/// control switch and settings, the firmware options, the power states and
/// the clock limits as the pages hold them. The NVIDIA target temperature
/// stays as stored.
pub open spec fn merged_config(stored: GpuConfig, ui: GpuConfig) -> GpuConfig {
    GpuConfig {
        performance_level: keep_unless_set(stored.performance_level, ui.performance_level),
        power_profile_mode_index: keep_unless_set(stored.power_profile_mode_index, ui.power_profile_mode_index),
        custom_power_profile_mode_heuristics: if ui.custom_power_profile_mode_heuristics@.len() == 0 {
            stored.custom_power_profile_mode_heuristics
        } else {
            ui.custom_power_profile_mode_heuristics
        },
        thermal: ThermalConfig {
            fan_control_enabled: ui.thermal.fan_control_enabled,
            fan_control_settings: ui.thermal.fan_control_settings,
            pmfw_options: ui.thermal.pmfw_options,
            nvidia_target_temperature: stored.thermal.nvidia_target_temperature,
        },
        clocks: ui.clocks,
        power_states: ui.power_states,
    }
}

/// Writes the settings of the pages `ui` over the stored configuration.
pub fn merge_config(stored: &mut GpuConfig, ui: GpuConfig)
    ensures
        *final(stored) == merged_config(*old(stored), ui),
{
    let GpuConfig {
        performance_level,
        power_profile_mode_index,
        custom_power_profile_mode_heuristics,
        thermal,
        clocks,
        power_states,
    } = ui;
    if let Some(level) = performance_level {
        stored.performance_level = Some(level);
    }
    if let Some(mode) = power_profile_mode_index {
        stored.power_profile_mode_index = Some(mode);
    }
    if custom_power_profile_mode_heuristics.len() > 0 {
        stored.custom_power_profile_mode_heuristics = custom_power_profile_mode_heuristics;
    }
    let ThermalConfig { fan_control_enabled, fan_control_settings, pmfw_options, .. } = thermal;
    stored.thermal.fan_control_enabled = fan_control_enabled;
    stored.thermal.fan_control_settings = fan_control_settings;
    stored.thermal.pmfw_options = pmfw_options;
    stored.power_states = power_states;
    stored.clocks = clocks;
}

/// The configuration that the pages describe, built on `base` (the default
/// configuration): the overclocking page's values, its clock limits with
/// the clock commands applied, and the thermals page's settings written in.
pub open spec fn collected_config(
    base: GpuConfig,
    oc: OcPageValues,
    thermals: ThermalsState,
    changed: ChangedThermalValues,
    curve: CurveSettings,
    fan_defaults: FanControlSettings,
) -> GpuConfig {
    GpuConfig {
        performance_level: oc.performance_level,
        power_profile_mode_index: oc.power_profile_mode_index,
        custom_power_profile_mode_heuristics: oc.custom_power_profile_mode_heuristics,
        thermal: applied_config(thermals, base.thermal, changed, curve, fan_defaults),
        clocks: oc.clocks,
        power_states: oc.power_states,
    }
}

/// Collects the configuration that the pages describe, on `base`.
pub fn collect_config(
    base: GpuConfig,
    oc: OcPageValues,
    thermals: &ThermalsState,
    changed: &ChangedThermalValues,
    curve: &CurveSettings,
    fan_defaults: &FanControlSettings,
) -> (r: GpuConfig)
    ensures
        r == collected_config(base, oc, *thermals, *changed, *curve, *fan_defaults),
{
    let mut config = base;
    config.performance_level = oc.performance_level;
    config.power_profile_mode_index = oc.power_profile_mode_index;
    config.custom_power_profile_mode_heuristics = oc.custom_power_profile_mode_heuristics;
    thermals.apply_config(&mut config.thermal, changed, curve, fan_defaults);
    config.clocks = oc.clocks;
    config.power_states = oc.power_states;
    config
}

/// Applying the same page settings twice stores what applying them once
/// stores.
pub proof fn lemma_merge_idempotent(stored: GpuConfig, ui: GpuConfig)
    ensures
        merged_config(merged_config(stored, ui), ui) == merged_config(stored, ui),
{
}

/// The collected configuration takes every value of the overclocking page
/// (performance level, power profile mode, custom heuristics, clock limits
/// and power states) as the page holds it, and the thermal part is the
/// default one with the thermals page's settings written in.
pub proof fn lemma_collected_takes_page_values(
    base: GpuConfig,
    oc: OcPageValues,
    thermals: ThermalsState,
    changed: ChangedThermalValues,
    curve: CurveSettings,
    fan_defaults: FanControlSettings,
)
    ensures
        ({
            let r = collected_config(base, oc, thermals, changed, curve, fan_defaults);
            &&& r.performance_level == oc.performance_level
            &&& r.power_profile_mode_index == oc.power_profile_mode_index
            &&& r.custom_power_profile_mode_heuristics == oc.custom_power_profile_mode_heuristics
            &&& r.clocks == oc.clocks
            &&& r.power_states == oc.power_states
            &&& r.thermal == applied_config(thermals, base.thermal, changed, curve, fan_defaults)
        }),
{
}

/// Merging keeps a stored performance level, power profile mode or set of
/// custom heuristics that the pages leave unset (or empty), and takes the
/// pages' ones otherwise; the fan control switch and settings, the firmware
/// options, the clock limits and the power states always come from the
/// pages; the NVIDIA target temperature always stays as stored.
pub proof fn lemma_merge_fields(stored: GpuConfig, ui: GpuConfig)
    ensures
        ({
            let m = merged_config(stored, ui);
            &&& ui.performance_level is None ==> m.performance_level == stored.performance_level
            &&& ui.performance_level is Some ==> m.performance_level == ui.performance_level
            &&& ui.power_profile_mode_index is None ==> m.power_profile_mode_index
                == stored.power_profile_mode_index
            &&& ui.power_profile_mode_index is Some ==> m.power_profile_mode_index
                == ui.power_profile_mode_index
            &&& ui.custom_power_profile_mode_heuristics@.len() == 0
                ==> m.custom_power_profile_mode_heuristics == stored.custom_power_profile_mode_heuristics
            &&& ui.custom_power_profile_mode_heuristics@.len() > 0
                ==> m.custom_power_profile_mode_heuristics == ui.custom_power_profile_mode_heuristics
            &&& m.thermal.fan_control_enabled == ui.thermal.fan_control_enabled
            &&& m.thermal.fan_control_settings == ui.thermal.fan_control_settings
            &&& m.thermal.pmfw_options == ui.thermal.pmfw_options
            &&& m.thermal.nvidia_target_temperature == stored.thermal.nvidia_target_temperature
            &&& m.clocks == ui.clocks
            &&& m.power_states == ui.power_states
        }),
{
}

} // verus!
