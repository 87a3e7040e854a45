use vstd::prelude::*;

use crate::lex::{lex_compare, LexOrder};

verus! {

/// The page of the fan control stack.
#[derive(Debug, Clone, Copy, PartialEq, Eq, Structural)]
pub enum FanPage {
    Automatic,
    Curve,
    Static,
}

/// How the daemon drives a fan under custom control.
#[derive(Debug, Clone, Copy, PartialEq, Eq, Structural)]
pub enum FanControlMode {
    Static,
    Curve,
}

/// A setting of the power management firmware shown as a row.
#[derive(Debug, Clone, Copy, PartialEq, Eq, Hash, Structural)]
pub enum ThermalSetting {
    TargetTemperature,
    AcousticLimit,
    AcousticTarget,
    MinimumPwm,
}

/// The page name of each fan page.
pub open spec fn fan_page_name(p: FanPage) -> Seq<char> {
    match p {
        FanPage::Automatic => "automatic"@,
        FanPage::Curve => "curve"@,
        FanPage::Static => "static"@,
    }
}

/// The page shown first: the page of the active custom mode, else the
/// automatic page.
pub open spec fn spec_initial_fan_page(control_mode: Option<FanControlMode>, control_enabled: bool) -> FanPage {
    match control_mode {
        Some(FanControlMode::Static) if control_enabled => FanPage::Static,
        Some(FanControlMode::Curve) if control_enabled => FanPage::Curve,
        _ => FanPage::Automatic,
    }
}

impl FanPage {
    /// The name under which the page is kept in the stack.
    pub fn name(&self) -> (r: &'static str)
        ensures
            r@ == fan_page_name(*self),
    {
        match self {
            FanPage::Automatic => "automatic",
            FanPage::Curve => "curve",
            FanPage::Static => "static",
        }
    }

    /// The page kept under `name`, if there is one.
    pub fn from_name(name: &str) -> (r: Option<FanPage>)
        ensures
            match r {
                Some(p) => fan_page_name(p) == name@,
                None => forall|p: FanPage| fan_page_name(p) != name@,
            },
    {
        if let LexOrder::Equal = lex_compare(name, "automatic") {
            return Some(FanPage::Automatic);
        }
        if let LexOrder::Equal = lex_compare(name, "curve") {
            return Some(FanPage::Curve);
        }
        if let LexOrder::Equal = lex_compare(name, "static") {
            return Some(FanPage::Static);
        }
        proof {
            assert forall|p: FanPage| fan_page_name(p) != name@ by {
                match p {
                    FanPage::Automatic => {},
                    FanPage::Curve => {},
                    FanPage::Static => {},
                }
            }
        }
        None
    }
}

/// The page to show once the fan state is known.
pub fn initial_fan_page(control_mode: Option<FanControlMode>, control_enabled: bool) -> (r: FanPage)
    ensures
        r == spec_initial_fan_page(control_mode, control_enabled),
{
    match control_mode {
        Some(mode) if control_enabled => match mode {
            FanControlMode::Static => FanPage::Static,
            FanControlMode::Curve => FanPage::Curve,
        },
        _ => FanPage::Automatic,
    }
}

/// Naming a page and looking the name up gives the page back.
pub proof fn lemma_fan_page_name_round_trip(p: FanPage, q: FanPage)
    ensures
        fan_page_name(p) == fan_page_name(q) <==> p == q,
{
    reveal_strlit("automatic");
    reveal_strlit("curve");
    reveal_strlit("static");
    if p != q {
        assert(fan_page_name(p).len() != fan_page_name(q).len() || fan_page_name(p)[0]
            != fan_page_name(q)[0]);
    }
}

} // verus!

verus! {

/// A firmware fan setting: its current value and, when the firmware
/// reports it, the range it accepts.
#[derive(Debug, Clone, Copy)]
pub struct FanInfo {
    pub current: u32,
    pub allowed_range: Option<(u32, u32)>,
}

/// The value and bounds of an adjustment row.
#[derive(Debug, Clone, Copy, PartialEq, Eq, Structural)]
pub struct FanRowRange {
    pub value: u32,
    pub lower: u32,
    pub upper: u32,
}

/// The row for a fan setting: the reported range, or `0..=current` when
/// there is none; no row when the setting is absent or the range is `0..=0`.
pub open spec fn spec_fan_info_init(info: Option<FanInfo>) -> Option<FanRowRange> {
    match info {
        None => None,
        Some(i) => {
            let (min, max) = match i.allowed_range {
                Some(r) => r,
                None => (0u32, i.current),
            };
            if min != 0 || max != 0 {
                Some(FanRowRange { value: i.current, lower: min, upper: max })
            } else {
                None
            }
        },
    }
}

/// The adjustment row to show for a fan setting, if any.
pub fn fan_info_init(info: Option<FanInfo>) -> (r: Option<FanRowRange>)
    ensures
        r == spec_fan_info_init(info),
{
    let info = match info {
        Some(i) => i,
        None => return None,
    };
    let (min, max) = match info.allowed_range {
        Some(range) => range,
        None => (0, info.current),
    };
    if min != 0 || max != 0 {
        Some(FanRowRange { value: info.current, lower: min, upper: max })
    } else {
        None
    }
}

/// A capability flag that the daemon reports for a GPU.
#[derive(Debug, Clone, Copy, PartialEq, Eq, Structural)]
pub enum DeviceFlag {
    ConfigurableFanControl,
    HasPmfw,
    AutoFanThreshold,
}

/// What the thermals page decides from: the capabilities of the GPU, the
/// selected fan page, and which setting rows exist.
#[derive(Debug, Clone, Copy, PartialEq, Eq, Structural)]
pub struct ThermalsState {
    pub selected_page: FanPage,
    pub custom_control_supported: bool,
    pub has_fan_speed: bool,
    pub has_pmfw: bool,
    pub has_auto_threshold: bool,
    pub zero_rpm_available: bool,
    pub zero_rpm: bool,
    pub zero_rpm_temperature_edit: Option<u32>,
    pub target_temperature_default: Option<u32>,
    pub has_pmfw_rows: bool,
    pub has_zero_rpm_temperature_row: bool,
    pub has_nvidia_target_temperature_row: bool,
}

/// The firmware fan settings that the daemon reports.
#[derive(Debug, Clone, Copy)]
pub struct PmfwInfo {
    pub target_temp: Option<FanInfo>,
    pub acoustic_limit: Option<FanInfo>,
    pub acoustic_target: Option<FanInfo>,
    pub minimum_pwm: Option<FanInfo>,
    pub zero_rpm_enable: Option<bool>,
    pub zero_rpm_temperature: Option<FanInfo>,
}

/// The fan readings that decide the thermals page.
#[derive(Debug, Clone, Copy)]
pub struct FanStats {
    pub pwm_current: Option<u32>,
    pub speed_current: Option<u32>,
    pub control_enabled: bool,
    pub control_mode: Option<FanControlMode>,
    pub pmfw_info: PmfwInfo,
    pub nvidia_target_temp: Option<FanInfo>,
    pub nvidia_target_temp_default: Option<u32>,
}

/// The setting rows to create when the page is set up.
#[derive(Debug, PartialEq, Eq)]
pub struct ThermalRows {
    pub pmfw_rows: Vec<(ThermalSetting, FanRowRange)>,
    pub nvidia_target_temperature: Option<FanRowRange>,
    pub zero_rpm_temperature: Option<FanRowRange>,
}

/// The firmware settings in the order of their rows, with their reported values.
pub open spec fn pmfw_settings(info: PmfwInfo) -> Seq<(ThermalSetting, Option<FanInfo>)> {
    seq![
        (ThermalSetting::TargetTemperature, info.target_temp),
        (ThermalSetting::AcousticLimit, info.acoustic_limit),
        (ThermalSetting::AcousticTarget, info.acoustic_target),
        (ThermalSetting::MinimumPwm, info.minimum_pwm),
    ]
}

/// The firmware rows that exist for `s`: those whose setting gets a row.
pub open spec fn pmfw_rows_of(s: Seq<(ThermalSetting, Option<FanInfo>)>) -> Seq<(ThermalSetting, FanRowRange)>
    decreases s.len(),
{
    if s.len() == 0 {
        Seq::empty()
    } else {
        let rest = pmfw_rows_of(s.drop_last());
        match spec_fan_info_init(s.last().1) {
            Some(r) => rest.push((s.last().0, r)),
            None => rest,
        }
    }
}

proof fn lemma_rows_of_contains(s: Seq<(ThermalSetting, Option<FanInfo>)>, setting: ThermalSetting, r: FanRowRange)
    ensures
        pmfw_rows_of(s).contains((setting, r)) <==> exists|i: int|
            0 <= i < s.len() && #[trigger] s[i].0 == setting && spec_fan_info_init(s[i].1) == Some(r),
    decreases s.len(),
{
    if s.len() > 0 {
        let prev = s.drop_last();
        lemma_rows_of_contains(prev, setting, r);
        let rest = pmfw_rows_of(prev);
        let cur = pmfw_rows_of(s);
        let last = s.len() - 1;
        if exists|i: int| 0 <= i < prev.len() && #[trigger] prev[i].0 == setting && spec_fan_info_init(prev[i].1) == Some(r) {
            let i = choose|i: int| 0 <= i < prev.len() && #[trigger] prev[i].0 == setting && spec_fan_info_init(prev[i].1) == Some(r);
            assert(s[i] == prev[i]);
        }
        if exists|i: int| 0 <= i < s.len() && #[trigger] s[i].0 == setting && spec_fan_info_init(s[i].1) == Some(r) {
            let i = choose|i: int| 0 <= i < s.len() && #[trigger] s[i].0 == setting && spec_fan_info_init(s[i].1) == Some(r);
            if i < last {
                assert(prev[i] == s[i]);
            }
        }
        match spec_fan_info_init(s.last().1) {
            Some(x) => {
                assert(cur == rest.push((s.last().0, x)));
                if rest.contains((setting, r)) {
                    let j = choose|j: int| 0 <= j < rest.len() && rest[j] == (setting, r);
                    assert(cur[j] == (setting, r));
                }
                if cur.contains((setting, r)) {
                    let j = choose|j: int| 0 <= j < cur.len() && cur[j] == (setting, r);
                    if j < rest.len() {
                        assert(rest[j] == (setting, r));
                    }
                }
                if s.last().0 == setting && x == r {
                    assert(cur[rest.len() as int] == (setting, r));
                }
            },
            None => {},
        }
    }
}

/// Every firmware setting row is built from the reading of its own
/// setting: the row of a setting exists, with range `r`, exactly when that
/// setting's reading sets up a row with range `r`.
pub proof fn lemma_pmfw_rows_from_own_reading(info: PmfwInfo, r: FanRowRange)
    ensures
        pmfw_rows_of(pmfw_settings(info)).contains((ThermalSetting::TargetTemperature, r))
            <==> spec_fan_info_init(info.target_temp) == Some(r),
        pmfw_rows_of(pmfw_settings(info)).contains((ThermalSetting::AcousticLimit, r))
            <==> spec_fan_info_init(info.acoustic_limit) == Some(r),
        pmfw_rows_of(pmfw_settings(info)).contains((ThermalSetting::AcousticTarget, r))
            <==> spec_fan_info_init(info.acoustic_target) == Some(r),
        pmfw_rows_of(pmfw_settings(info)).contains((ThermalSetting::MinimumPwm, r))
            <==> spec_fan_info_init(info.minimum_pwm) == Some(r),
        pmfw_rows_of(pmfw_settings(info)).len() <= 4,
{
    let s = pmfw_settings(info);
    lemma_rows_of_contains(s, ThermalSetting::TargetTemperature, r);
    lemma_rows_of_contains(s, ThermalSetting::AcousticLimit, r);
    lemma_rows_of_contains(s, ThermalSetting::AcousticTarget, r);
    lemma_rows_of_contains(s, ThermalSetting::MinimumPwm, r);
    assert(s[0].0 == ThermalSetting::TargetTemperature);
    assert(s[1].0 == ThermalSetting::AcousticLimit);
    assert(s[2].0 == ThermalSetting::AcousticTarget);
    assert(s[3].0 == ThermalSetting::MinimumPwm);
    lemma_rows_of_len(s);
}

proof fn lemma_rows_of_len(s: Seq<(ThermalSetting, Option<FanInfo>)>)
    ensures
        pmfw_rows_of(s).len() <= s.len(),
    decreases s.len(),
{
    if s.len() > 0 {
        lemma_rows_of_len(s.drop_last());
    }
}

/// The place of a firmware setting's row on the page.
pub open spec fn setting_place(t: ThermalSetting) -> int {
    match t {
        ThermalSetting::TargetTemperature => 0,
        ThermalSetting::AcousticLimit => 1,
        ThermalSetting::AcousticTarget => 2,
        ThermalSetting::MinimumPwm => 3,
    }
}

proof fn lemma_rows_of_ordered(s: Seq<(ThermalSetting, Option<FanInfo>)>)
    requires
        forall|i: int, j: int| 0 <= i < j < s.len() ==> setting_place(s[i].0) < setting_place(s[j].0),
    ensures
        forall|i: int, j: int|
            0 <= i < j < pmfw_rows_of(s).len() ==> setting_place(pmfw_rows_of(s)[i].0) < setting_place(
                pmfw_rows_of(s)[j].0,
            ),
    decreases s.len(),
{
    if s.len() > 0 {
        let prev = s.drop_last();
        lemma_rows_of_ordered(prev);
        let rest = pmfw_rows_of(prev);
        let cur = pmfw_rows_of(s);
        match spec_fan_info_init(s.last().1) {
            Some(x) => {
                assert(cur == rest.push((s.last().0, x)));
                assert forall|i: int, j: int| 0 <= i < j < cur.len() implies setting_place(cur[i].0)
                    < setting_place(cur[j].0) by {
                    if j == rest.len() {
                        assert(rest.contains(rest[i]));
                        lemma_rows_of_contains(prev, rest[i].0, rest[i].1);
                        let k = choose|k: int|
                            0 <= k < prev.len() && #[trigger] prev[k].0 == rest[i].0
                                && spec_fan_info_init(prev[k].1) == Some(rest[i].1);
                        assert(prev[k] == s[k]);
                    } else {
                        assert(cur[i] == rest[i] && cur[j] == rest[j]);
                    }
                }
            },
            None => {},
        }
    }
}

/// The firmware rows come in the page's order, each setting at most once.
pub proof fn lemma_pmfw_rows_ordered(info: PmfwInfo)
    ensures
        forall|i: int, j: int|
            0 <= i < j < pmfw_rows_of(pmfw_settings(info)).len() ==> setting_place(
                pmfw_rows_of(pmfw_settings(info))[i].0,
            ) < setting_place(pmfw_rows_of(pmfw_settings(info))[j].0),
{
    lemma_rows_of_ordered(pmfw_settings(info));
}

/// What the reset button of the NVIDIA thresholds does.
#[derive(Debug, Clone, Copy, PartialEq, Eq, Structural)]
pub enum TargetTemperatureReset {
    /// Set the target temperature row to this default.
    SetValue(u32),
    /// There is a default but no row to set.
    NoRow,
    /// The GPU reports no default: show the error that
    /// `no_default_target_temperature_text` gives.
    NoDefault,
}

impl ThermalsState {
    /// The state before the GPU is known.
    pub fn new() -> (r: Self)
        ensures
            r.selected_page == FanPage::Automatic,
            !r.custom_control_supported && !r.has_fan_speed && !r.has_pmfw && !r.has_auto_threshold,
            !r.zero_rpm_available && !r.zero_rpm,
            r.zero_rpm_temperature_edit is None && r.target_temperature_default is None,
            !r.has_pmfw_rows && !r.has_zero_rpm_temperature_row && !r.has_nvidia_target_temperature_row,
    {
        ThermalsState {
            selected_page: FanPage::Automatic,
            custom_control_supported: false,
            has_fan_speed: false,
            has_pmfw: false,
            has_auto_threshold: false,
            zero_rpm_available: false,
            zero_rpm: false,
            zero_rpm_temperature_edit: None,
            target_temperature_default: None,
            has_pmfw_rows: false,
            has_zero_rpm_temperature_row: false,
            has_nvidia_target_temperature_row: false,
        }
    }

    pub open spec fn spec_has_pmfw_options(self) -> bool {
        self.zero_rpm_available || self.has_pmfw_rows || self.has_zero_rpm_temperature_row
    }

    /// Whether the page has firmware fan options to show.
    pub fn has_pmfw_options(&self) -> (r: bool)
        ensures
            r == self.spec_has_pmfw_options(),
    {
        self.zero_rpm_available || self.has_pmfw_rows || self.has_zero_rpm_temperature_row
    }

    /// Whether the fan settings stack is shown: the fan speed is known, and
    /// a custom page is selected or there are firmware options.
    pub fn fan_settings_available(&self) -> (r: bool)
        ensures
            r == (self.has_fan_speed && (self.selected_page != FanPage::Automatic
                || self.spec_has_pmfw_options())),
    {
        let not_auto = match self.selected_page {
            FanPage::Automatic => false,
            _ => true,
        };
        self.has_fan_speed && (not_auto || self.has_pmfw_options())
    }

    /// Takes in the capability flags of the GPU.
    pub fn update_info(&mut self, flags: &Vec<DeviceFlag>)
        ensures
            final(self).custom_control_supported == flags@.contains(DeviceFlag::ConfigurableFanControl),
            final(self).has_pmfw == flags@.contains(DeviceFlag::HasPmfw),
            final(self).has_auto_threshold == flags@.contains(DeviceFlag::AutoFanThreshold),
            *final(self) == (ThermalsState {
                custom_control_supported: final(self).custom_control_supported,
                has_pmfw: final(self).has_pmfw,
                has_auto_threshold: final(self).has_auto_threshold,
                ..*old(self)
            }),
    {
        self.custom_control_supported = contains_flag(flags, DeviceFlag::ConfigurableFanControl);
        self.has_pmfw = contains_flag(flags, DeviceFlag::HasPmfw);
        self.has_auto_threshold = contains_flag(flags, DeviceFlag::AutoFanThreshold);
    }

    /// Takes in new fan readings. On the first readings of a GPU the page is
    /// set up anew: the page of the active mode is selected, pending edits
    /// are dropped, and the rows to create are returned.
    pub fn update_stats(&mut self, stats: &FanStats, initial: bool) -> (r: Option<ThermalRows>)
        ensures
            final(self).has_fan_speed == (stats.pwm_current is Some || stats.speed_current is Some),
            !initial ==> r is None && *final(self) == (ThermalsState {
                has_fan_speed: final(self).has_fan_speed,
                ..*old(self)
            }),
            initial ==> (r matches Some(rows) && {
                &&& rows.pmfw_rows@ == pmfw_rows_of(pmfw_settings(stats.pmfw_info))
                &&& rows.nvidia_target_temperature == spec_fan_info_init(stats.nvidia_target_temp)
                &&& rows.zero_rpm_temperature == spec_fan_info_init(stats.pmfw_info.zero_rpm_temperature)
                &&& *final(self) == (ThermalsState {
                    selected_page: spec_initial_fan_page(stats.control_mode, stats.control_enabled),
                    has_fan_speed: final(self).has_fan_speed,
                    zero_rpm_temperature_edit: None,
                    target_temperature_default: stats.nvidia_target_temp_default,
                    zero_rpm_available: stats.pmfw_info.zero_rpm_enable is Some,
                    zero_rpm: stats.pmfw_info.zero_rpm_enable == Some(true),
                    has_pmfw_rows: rows.pmfw_rows@.len() > 0,
                    has_nvidia_target_temperature_row: rows.nvidia_target_temperature is Some,
                    has_zero_rpm_temperature_row: rows.zero_rpm_temperature is Some,
                    ..*old(self)
                })
            }),
    {
        self.has_fan_speed = stats.pwm_current.is_some() || stats.speed_current.is_some();
        if !initial {
            return None;
        }
        self.selected_page = initial_fan_page(stats.control_mode, stats.control_enabled);
        self.zero_rpm_temperature_edit = None;

        let info = stats.pmfw_info;
        let settings: [(ThermalSetting, Option<FanInfo>); 4] = [
            (ThermalSetting::TargetTemperature, info.target_temp),
            (ThermalSetting::AcousticLimit, info.acoustic_limit),
            (ThermalSetting::AcousticTarget, info.acoustic_target),
            (ThermalSetting::MinimumPwm, info.minimum_pwm),
        ];
        let ghost all = pmfw_settings(info);
        assert(settings@ == all);
        let mut pmfw_rows: Vec<(ThermalSetting, FanRowRange)> = Vec::new();
        let mut i: usize = 0;
        while i < 4
            invariant
                settings@ == all,
                all.len() == 4,
                i <= 4,
                pmfw_rows@ == pmfw_rows_of(all.take(i as int)),
            decreases 4 - i,
        {
            let (setting, value) = settings[i];
            assert(all.take(i + 1).drop_last() =~= all.take(i as int));
            if let Some(range) = fan_info_init(value) {
                pmfw_rows.push((setting, range));
            }
            i += 1;
        }
        assert(all.take(4) =~= all);

        let nvidia_target_temperature = fan_info_init(stats.nvidia_target_temp);
        let zero_rpm_temperature = fan_info_init(info.zero_rpm_temperature);
        self.has_pmfw_rows = pmfw_rows.len() > 0;
        self.has_nvidia_target_temperature_row = nvidia_target_temperature.is_some();
        self.has_zero_rpm_temperature_row = zero_rpm_temperature.is_some();
        self.target_temperature_default = stats.nvidia_target_temp_default;
        self.zero_rpm_available = info.zero_rpm_enable.is_some();
        self.zero_rpm = match info.zero_rpm_enable {
            Some(enabled) => enabled,
            None => false,
        };
        Some(ThermalRows { pmfw_rows, nvidia_target_temperature, zero_rpm_temperature })
    }

    /// The zero-RPM temperature row was edited to `changed` (`None` when its
    /// value equals the one it was set up with). Returns the value to pass
    /// on to the fan curve, which is also kept as the pending edit.
    pub fn zero_rpm_temperature_edited(&mut self, changed: Option<u32>) -> (r: Option<u32>)
        ensures
            r == changed,
            *final(self) == (ThermalsState {
                zero_rpm_temperature_edit: match changed {
                    Some(v) => Some(v),
                    None => old(self).zero_rpm_temperature_edit,
                },
                ..*old(self)
            }),
    {
        if let Some(value) = changed {
            self.zero_rpm_temperature_edit = Some(value);
        }
        changed
    }

    /// The fan curve changed the zero-RPM temperature to `value`. When the
    /// row exists it is kept as the pending edit, and `true` tells to sync the row.
    pub fn zero_rpm_temperature_changed(&mut self, value: u32) -> (r: bool)
        ensures
            r == old(self).has_zero_rpm_temperature_row,
            *final(self) == (ThermalsState {
                zero_rpm_temperature_edit: if r {
                    Some(value)
                } else {
                    old(self).zero_rpm_temperature_edit
                },
                ..*old(self)
            }),
    {
        if self.has_zero_rpm_temperature_row {
            self.zero_rpm_temperature_edit = Some(value);
            true
        } else {
            false
        }
    }

    /// What the NVIDIA thresholds reset button does.
    pub fn reset_nvidia_options(&self) -> (r: TargetTemperatureReset)
        ensures
            r == match self.target_temperature_default {
                Some(d) => if self.has_nvidia_target_temperature_row {
                    TargetTemperatureReset::SetValue(d)
                } else {
                    TargetTemperatureReset::NoRow
                },
                None => TargetTemperatureReset::NoDefault,
            },
    {
        match self.target_temperature_default {
            Some(default) => {
                if self.has_nvidia_target_temperature_row {
                    TargetTemperatureReset::SetValue(default)
                } else {
                    TargetTemperatureReset::NoRow
                }
            },
            None => TargetTemperatureReset::NoDefault,
        }
    }
}

/// The error reported when the NVIDIA thresholds are reset on a GPU that
/// reports no default target temperature.
pub fn no_default_target_temperature_text() -> (r: String)
    ensures
        r@ == "No default target temperature present"@,
{
    String::from_str("No default target temperature present")
}

/// Whether `flags` holds `flag`.
fn contains_flag(flags: &Vec<DeviceFlag>, flag: DeviceFlag) -> (r: bool)
    ensures
        r == flags@.contains(flag),
{
    let n = flags.len();
    let mut i: usize = 0;
    while i < n
        invariant
            n == flags@.len(),
            i <= n,
            forall|j: int| 0 <= j < i ==> flags@[j] != flag,
        decreases n - i,
    {
        if flags[i] == flag {
            return true;
        }
        i += 1;
    }
    false
}

} // verus!

verus! {

/// The firmware fan options of a GPU configuration.
#[derive(Debug, Clone, Copy, PartialEq, Eq, Structural)]
pub struct PmfwOptions {
    pub acoustic_limit: Option<u32>,
    pub acoustic_target: Option<u32>,
    pub minimum_pwm: Option<u32>,
    pub target_temperature: Option<u32>,
    pub zero_rpm: Option<bool>,
    pub zero_rpm_threshold: Option<u32>,
}

/// The stored fan control settings of a GPU configuration, but for the
/// curve points and the static speed.
#[derive(Debug, Clone, PartialEq, Eq)]
pub struct FanControlSettings {
    pub mode: FanControlMode,
    pub change_threshold: Option<u64>,
    pub spindown_delay_ms: Option<u64>,
    pub auto_threshold: Option<u64>,
    pub temperature_key: String,
}

/// A copy of `s`.
pub fn copy_fan_control_settings(s: &FanControlSettings) -> (r: FanControlSettings)
    ensures
        r == *s,
{
    FanControlSettings {
        mode: s.mode,
        change_threshold: s.change_threshold,
        spindown_delay_ms: s.spindown_delay_ms,
        auto_threshold: s.auto_threshold,
        temperature_key: s.temperature_key.clone(),
    }
}

/// What the fan curve editor holds: the change threshold and spindown delay
/// it always has, the automatic threshold where the GPU supports one, and
/// the selected temperature sensor where one is selected.
#[derive(Debug, Clone, PartialEq, Eq)]
pub struct CurveSettings {
    pub change_threshold: u64,
    pub spindown_delay_ms: u64,
    pub auto_threshold: Option<u64>,
    pub temperature_key: Option<String>,
}

/// The thermal part of a GPU configuration: whether custom fan control is
/// on, the stored fan control settings (`None` when none are stored), the
/// firmware options and the NVIDIA target temperature.
#[derive(Debug, Clone, PartialEq, Eq)]
pub struct ThermalConfig {
    pub fan_control_enabled: bool,
    pub fan_control_settings: Option<FanControlSettings>,
    pub pmfw_options: PmfwOptions,
    pub nvidia_target_temperature: Option<u32>,
}

/// The values of the setting rows that the user changed (`None` for a row
/// that is absent or holds the value it was set up with).
#[derive(Debug, Clone, Copy, PartialEq, Eq, Structural)]
pub struct ChangedThermalValues {
    pub target_temperature: Option<u32>,
    pub acoustic_limit: Option<u32>,
    pub acoustic_target: Option<u32>,
    pub minimum_pwm: Option<u32>,
    pub nvidia_target_temperature: Option<u32>,
}

/// `new` when it holds a value, else `old`.
pub open spec fn overwrite<T>(old: Option<T>, new: Option<T>) -> Option<T> {
    match new {
        Some(v) => Some(v),
        None => old,
    }
}

/// The fan control settings after a custom page is written into them:
/// `stored`, or `defaults` where none are stored, with the page's mode; the
/// curve page also writes the editor's thresholds and delay, and its
/// automatic threshold and sensor where it has them.
pub open spec fn applied_fan_settings(
    page: FanPage,
    stored: Option<FanControlSettings>,
    curve: CurveSettings,
    defaults: FanControlSettings,
) -> FanControlSettings {
    let base = match stored {
        Some(f) => f,
        None => defaults,
    };
    match page {
        FanPage::Curve => FanControlSettings {
            mode: FanControlMode::Curve,
            change_threshold: Some(curve.change_threshold),
            spindown_delay_ms: Some(curve.spindown_delay_ms),
            auto_threshold: overwrite(base.auto_threshold, curve.auto_threshold),
            temperature_key: match curve.temperature_key {
                Some(k) => k,
                None => base.temperature_key,
            },
        },
        _ => FanControlSettings { mode: FanControlMode::Static, ..base },
    }
}

/// The configuration after the page's settings are written into `c`.
pub open spec fn applied_config(
    s: ThermalsState,
    c: ThermalConfig,
    v: ChangedThermalValues,
    curve: CurveSettings,
    defaults: FanControlSettings,
) -> ThermalConfig {
    ThermalConfig {
        fan_control_enabled: s.selected_page != FanPage::Automatic,
        fan_control_settings: if s.selected_page == FanPage::Automatic {
            c.fan_control_settings
        } else {
            Some(applied_fan_settings(s.selected_page, c.fan_control_settings, curve, defaults))
        },
        pmfw_options: PmfwOptions {
            acoustic_limit: overwrite(c.pmfw_options.acoustic_limit, v.acoustic_limit),
            acoustic_target: overwrite(c.pmfw_options.acoustic_target, v.acoustic_target),
            target_temperature: overwrite(c.pmfw_options.target_temperature, v.target_temperature),
            minimum_pwm: overwrite(c.pmfw_options.minimum_pwm, v.minimum_pwm),
            zero_rpm_threshold: overwrite(c.pmfw_options.zero_rpm_threshold, s.zero_rpm_temperature_edit),
            zero_rpm: if s.zero_rpm_available {
                Some(s.zero_rpm)
            } else {
                c.pmfw_options.zero_rpm
            },
        },
        nvidia_target_temperature: overwrite(c.nvidia_target_temperature, v.nvidia_target_temperature),
    }
}

fn overwrite_with(target: &mut Option<u32>, value: Option<u32>)
    ensures
        *final(target) == overwrite(*old(target), value),
{
    if let Some(v) = value {
        *target = Some(v);
    }
}

impl ThermalsState {
    /// Writes the page's settings into `config`: custom fan control is on
    /// exactly when a custom page is selected, whose mode (and, for the
    /// curve page, the editor's settings) it writes into the stored fan
    /// control settings, starting from `defaults` where none are stored;
    /// changed rows and the pending zero-RPM edit overwrite their options;
    /// the zero-RPM switch is written when the GPU has one.
    pub fn apply_config(
        &self,
        config: &mut ThermalConfig,
        changed: &ChangedThermalValues,
        curve: &CurveSettings,
        defaults: &FanControlSettings,
    )
        ensures
            *final(config) == applied_config(*self, *old(config), *changed, *curve, *defaults),
    {
        if self.selected_page == FanPage::Automatic {
            config.fan_control_enabled = false;
        } else {
            config.fan_control_enabled = true;
            let mut settings = match config.fan_control_settings.take() {
                Some(f) => f,
                None => copy_fan_control_settings(defaults),
            };
            if self.selected_page == FanPage::Curve {
                settings.mode = FanControlMode::Curve;
                settings.change_threshold = Some(curve.change_threshold);
                settings.spindown_delay_ms = Some(curve.spindown_delay_ms);
                if let Some(threshold) = curve.auto_threshold {
                    settings.auto_threshold = Some(threshold);
                }
                if let Some(key) = &curve.temperature_key {
                    settings.temperature_key = key.clone();
                }
            } else {
                settings.mode = FanControlMode::Static;
            }
            config.fan_control_settings = Some(settings);
        }
        overwrite_with(&mut config.pmfw_options.acoustic_limit, changed.acoustic_limit);
        overwrite_with(&mut config.pmfw_options.acoustic_target, changed.acoustic_target);
        overwrite_with(&mut config.pmfw_options.target_temperature, changed.target_temperature);
        overwrite_with(&mut config.pmfw_options.minimum_pwm, changed.minimum_pwm);
        overwrite_with(&mut config.pmfw_options.zero_rpm_threshold, self.zero_rpm_temperature_edit);
        overwrite_with(&mut config.nvidia_target_temperature, changed.nvidia_target_temperature);
        if self.zero_rpm_available {
            config.pmfw_options.zero_rpm = Some(self.zero_rpm);
        }
    }
}

/// Writing the page's settings twice gives what writing them once gives.
pub proof fn lemma_apply_config_idempotent(
    s: ThermalsState,
    c: ThermalConfig,
    v: ChangedThermalValues,
    curve: CurveSettings,
    defaults: FanControlSettings,
)
    ensures
        applied_config(s, applied_config(s, c, v, curve, defaults), v, curve, defaults)
            == applied_config(s, c, v, curve, defaults),
{
}

/// With the automatic page selected, custom fan control is switched off and
/// the stored fan control settings are kept.
pub proof fn lemma_automatic_page_disables_fan_control(
    s: ThermalsState,
    c: ThermalConfig,
    v: ChangedThermalValues,
    curve: CurveSettings,
    defaults: FanControlSettings,
)
    requires
        s.selected_page == FanPage::Automatic,
    ensures
        !applied_config(s, c, v, curve, defaults).fan_control_enabled,
        applied_config(s, c, v, curve, defaults).fan_control_settings == c.fan_control_settings,
{
}

/// The page shown first is a custom page only when custom fan control is
/// on, and then it is the page of the active mode.
pub proof fn lemma_initial_fan_page(control_mode: Option<FanControlMode>, control_enabled: bool)
    ensures
        !control_enabled ==> spec_initial_fan_page(control_mode, control_enabled) == FanPage::Automatic,
        control_mode is None ==> spec_initial_fan_page(control_mode, control_enabled) == FanPage::Automatic,
        control_enabled && control_mode == Some(FanControlMode::Static) ==> spec_initial_fan_page(
            control_mode,
            control_enabled,
        ) == FanPage::Static,
        control_enabled && control_mode == Some(FanControlMode::Curve) ==> spec_initial_fan_page(
            control_mode,
            control_enabled,
        ) == FanPage::Curve,
{
}

/// A reading gives a row exactly when it is present and its range (the
/// reported one, or `0..=current` when none is reported) is not `0..=0`;
/// the row holds the current value between those bounds.
pub proof fn lemma_fan_info_row(info: Option<FanInfo>)
    ensures
        info is None ==> spec_fan_info_init(info) is None,
        info matches Some(i) ==> match i.allowed_range {
            Some((lo, hi)) => if lo == 0 && hi == 0 {
                spec_fan_info_init(info) is None
            } else {
                spec_fan_info_init(info) == Some(FanRowRange { value: i.current, lower: lo, upper: hi })
            },
            None => if i.current == 0 {
                spec_fan_info_init(info) is None
            } else {
                spec_fan_info_init(info) == Some(FanRowRange { value: i.current, lower: 0, upper: i.current })
            },
        },
{
}

/// What writing the page's settings does: custom fan control is on exactly
/// on a custom page; the automatic page keeps the stored fan settings; a
/// custom page sets its mode on the stored settings (or the defaults where
/// none are stored), the curve page also writing the editor's threshold and
/// delay always, and its automatic threshold and sensor where it has them,
/// while the static page changes nothing else; each firmware option and the
/// NVIDIA target take the changed value where there is one and keep the
/// stored one otherwise; the zero-RPM switch is written where the GPU has one.
pub proof fn lemma_applied_config_fields(
    s: ThermalsState,
    c: ThermalConfig,
    v: ChangedThermalValues,
    curve: CurveSettings,
    defaults: FanControlSettings,
)
    ensures
        ({
            let r = applied_config(s, c, v, curve, defaults);
            let base = match c.fan_control_settings {
                Some(f) => f,
                None => defaults,
            };
            &&& r.fan_control_enabled == (s.selected_page != FanPage::Automatic)
            &&& s.selected_page == FanPage::Automatic ==> r.fan_control_settings == c.fan_control_settings
            &&& s.selected_page == FanPage::Curve ==> (r.fan_control_settings matches Some(f) && {
                &&& f.mode == FanControlMode::Curve
                &&& f.change_threshold == Some(curve.change_threshold)
                &&& f.spindown_delay_ms == Some(curve.spindown_delay_ms)
                &&& f.auto_threshold == if curve.auto_threshold is Some {
                    curve.auto_threshold
                } else {
                    base.auto_threshold
                }
                &&& f.temperature_key == match curve.temperature_key {
                    Some(k) => k,
                    None => base.temperature_key,
                }
            })
            &&& s.selected_page == FanPage::Static ==> r.fan_control_settings == Some(
                FanControlSettings { mode: FanControlMode::Static, ..base },
            )
            &&& r.pmfw_options.acoustic_limit == if v.acoustic_limit is Some {
                v.acoustic_limit
            } else {
                c.pmfw_options.acoustic_limit
            }
            &&& r.pmfw_options.acoustic_target == if v.acoustic_target is Some {
                v.acoustic_target
            } else {
                c.pmfw_options.acoustic_target
            }
            &&& r.pmfw_options.target_temperature == if v.target_temperature is Some {
                v.target_temperature
            } else {
                c.pmfw_options.target_temperature
            }
            &&& r.pmfw_options.minimum_pwm == if v.minimum_pwm is Some {
                v.minimum_pwm
            } else {
                c.pmfw_options.minimum_pwm
            }
            &&& r.pmfw_options.zero_rpm_threshold == if s.zero_rpm_temperature_edit is Some {
                s.zero_rpm_temperature_edit
            } else {
                c.pmfw_options.zero_rpm_threshold
            }
            &&& r.pmfw_options.zero_rpm == if s.zero_rpm_available {
                Some(s.zero_rpm)
            } else {
                c.pmfw_options.zero_rpm
            }
            &&& r.nvidia_target_temperature == if v.nvidia_target_temperature is Some {
                v.nvidia_target_temperature
            } else {
                c.nvidia_target_temperature
            }
        }),
{
}

} // verus!
