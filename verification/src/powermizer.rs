use vstd::prelude::*;

verus! {

/// An NVIDIA PowerMizer mode, numbered as NVML numbers it.
#[derive(Debug, Clone, Copy, PartialEq, Eq, Hash, Structural)]
pub enum NvidiaPowerMizerMode {
    Adaptive,
    PreferMaximumPerformance,
    Auto,
    PreferConsistentPerformance,
}

/// The NVML number of a mode.
pub open spec fn mode_raw(m: NvidiaPowerMizerMode) -> u32 {
    match m {
        NvidiaPowerMizerMode::Adaptive => 0,
        NvidiaPowerMizerMode::PreferMaximumPerformance => 1,
        NvidiaPowerMizerMode::Auto => 2,
        NvidiaPowerMizerMode::PreferConsistentPerformance => 3,
    }
}

/// The mode with NVML number `raw`, if any.
pub open spec fn mode_from_raw(raw: u32) -> Option<NvidiaPowerMizerMode> {
    if raw == 0 {
        Some(NvidiaPowerMizerMode::Adaptive)
    } else if raw == 1 {
        Some(NvidiaPowerMizerMode::PreferMaximumPerformance)
    } else if raw == 2 {
        Some(NvidiaPowerMizerMode::Auto)
    } else if raw == 3 {
        Some(NvidiaPowerMizerMode::PreferConsistentPerformance)
    } else {
        None
    }
}

impl NvidiaPowerMizerMode {
    /// The mode with NVML number `raw`, if any.
    pub fn from_raw(raw: u32) -> (r: Option<Self>)
        ensures
            r == mode_from_raw(raw),
    {
        match raw {
            0 => Some(NvidiaPowerMizerMode::Adaptive),
            1 => Some(NvidiaPowerMizerMode::PreferMaximumPerformance),
            2 => Some(NvidiaPowerMizerMode::Auto),
            3 => Some(NvidiaPowerMizerMode::PreferConsistentPerformance),
            _ => None,
        }
    }

    /// The NVML number of the mode.
    pub fn as_raw(&self) -> (r: u32)
        ensures
            r == mode_raw(*self),
    {
        match self {
            NvidiaPowerMizerMode::Adaptive => 0,
            NvidiaPowerMizerMode::PreferMaximumPerformance => 1,
            NvidiaPowerMizerMode::Auto => 2,
            NvidiaPowerMizerMode::PreferConsistentPerformance => 3,
        }
    }
}

/// Numbering a mode and reading the number back gives the mode; a number
/// that names a mode is that mode's number.
pub proof fn lemma_mode_raw_round_trip(m: NvidiaPowerMizerMode, raw: u32)
    ensures
        mode_from_raw(mode_raw(m)) == Some(m),
        mode_from_raw(raw) matches Some(n) ==> mode_raw(n) == raw,
        mode_raw(m) < 4,
{
}

/// Whether bit `raw` of `mask` is set.
pub open spec fn mask_has(mask: u32, raw: u32) -> bool {
    mask & (1u32 << raw) != 0
}

/// The modes among NVML numbers `0..n` whose bit is set in `mask`, in order.
pub open spec fn modes_below(mask: u32, n: nat) -> Seq<NvidiaPowerMizerMode>
    decreases n,
{
    if n == 0 {
        Seq::empty()
    } else {
        let raw = (n - 1) as u32;
        let prev = modes_below(mask, (n - 1) as nat);
        if mask_has(mask, raw) && mode_from_raw(raw) is Some {
            prev.push(mode_from_raw(raw).unwrap())
        } else {
            prev
        }
    }
}

/// The modes that a supported-modes mask lists, in NVML order.
pub open spec fn spec_supported_modes(mask: u32) -> Seq<NvidiaPowerMizerMode> {
    modes_below(mask, 4)
}

/// The modes whose bit is set in the supported-modes mask, in NVML order.
pub fn supported_modes_from_mask(mask: u32) -> (r: Vec<NvidiaPowerMizerMode>)
    ensures
        r@ == spec_supported_modes(mask),
{
    let mut out: Vec<NvidiaPowerMizerMode> = Vec::new();
    let mut raw: u32 = 0;
    while raw <= 3
        invariant
            raw <= 4,
            out@ == modes_below(mask, raw as nat),
        decreases 4 - raw,
    {
        if mask & (1u32 << raw) != 0 {
            if let Some(mode) = NvidiaPowerMizerMode::from_raw(raw) {
                out.push(mode);
            }
        }
        raw += 1;
    }
    out
}

proof fn lemma_modes_below_membership(mask: u32, n: nat, m: NvidiaPowerMizerMode)
    requires
        n <= 4,
    ensures
        modes_below(mask, n).contains(m) <==> mode_raw(m) < n && mask_has(mask, mode_raw(m)),
    decreases n,
{
    if n > 0 {
        lemma_modes_below_membership(mask, (n - 1) as nat, m);
        let prev = modes_below(mask, (n - 1) as nat);
        let cur = modes_below(mask, n);
        let raw = (n - 1) as u32;
        if mask_has(mask, raw) && mode_from_raw(raw) is Some {
            assert(cur == prev.push(mode_from_raw(raw).unwrap()));
            if prev.contains(m) {
                let i = choose|i: int| 0 <= i < prev.len() && prev[i] == m;
                assert(cur[i] == m);
            }
            if mode_raw(m) == raw {
                assert(cur[prev.len() as int] == m);
            }
            if cur.contains(m) {
                let i = choose|i: int| 0 <= i < cur.len() && cur[i] == m;
                if i < prev.len() {
                    assert(prev[i] == m);
                }
            }
        }
    }
}

/// A mode is listed exactly when its bit is set in the mask.
pub proof fn lemma_supported_modes_membership(mask: u32, m: NvidiaPowerMizerMode)
    ensures
        spec_supported_modes(mask).contains(m) <==> mask_has(mask, mode_raw(m)),
{
    lemma_modes_below_membership(mask, 4, m);
}

} // verus!

verus! {

/// The PowerMizer state that NVML reports for a device.
#[derive(Debug, Clone, Copy, PartialEq, Eq, Structural)]
pub struct RawPowerMizerModes {
    pub current: u32,
    pub default: u32,
    pub supported_modes_mask: u32,
}

/// The PowerMizer control record handed to NVML to set a mode.
#[derive(Debug, Clone, Copy, PartialEq, Eq, Structural)]
pub struct PowerMizerControl {
    pub reserved: u32,
    pub mode: u32,
    pub supported_modes_mask: u32,
}

/// The PowerMizer state of a GPU, in modes.
#[derive(Debug, Clone, PartialEq, Eq)]
pub struct NvidiaPowerMizerInfo {
    pub current: Option<NvidiaPowerMizerMode>,
    pub default: Option<NvidiaPowerMizerMode>,
    pub supported: Vec<NvidiaPowerMizerMode>,
}

/// Reads the modes that NVML reported.
pub fn power_mizer_info(modes: RawPowerMizerModes) -> (r: NvidiaPowerMizerInfo)
    ensures
        r.current == mode_from_raw(modes.current),
        r.default == mode_from_raw(modes.default),
        r.supported@ == spec_supported_modes(modes.supported_modes_mask),
{
    NvidiaPowerMizerInfo {
        current: NvidiaPowerMizerMode::from_raw(modes.current),
        default: NvidiaPowerMizerMode::from_raw(modes.default),
        supported: supported_modes_from_mask(modes.supported_modes_mask),
    }
}

/// What setting a mode takes, from the state before.
#[derive(Debug, Clone, Copy, PartialEq, Eq, Structural)]
pub enum SetModePlan {
    /// The GPU does not support the mode.
    Unsupported,
    /// The mode is already the current one: nothing to do.
    AlreadyCurrent,
    /// Hand this control record to NVML, then read the state back.
    Apply(PowerMizerControl),
}

/// The plan for setting `mode` on a GPU in state `modes`.
pub open spec fn spec_plan_set_mode(modes: RawPowerMizerModes, mode: NvidiaPowerMizerMode) -> SetModePlan {
    let raw = mode_raw(mode);
    if !mask_has(modes.supported_modes_mask, raw) {
        SetModePlan::Unsupported
    } else if modes.current == raw {
        SetModePlan::AlreadyCurrent
    } else {
        SetModePlan::Apply(
            PowerMizerControl {
                reserved: 0,
                mode: raw,
                supported_modes_mask: modes.supported_modes_mask,
            },
        )
    }
}

/// Decides how to set `mode` on a GPU in state `modes`.
pub fn plan_set_mode(modes: &RawPowerMizerModes, mode: NvidiaPowerMizerMode) -> (r: SetModePlan)
    ensures
        r == spec_plan_set_mode(*modes, mode),
{
    let requested_mode = mode.as_raw();
    if modes.supported_modes_mask & (1u32 << requested_mode) == 0 {
        return SetModePlan::Unsupported;
    }
    if modes.current == requested_mode {
        return SetModePlan::AlreadyCurrent;
    }
    SetModePlan::Apply(
        PowerMizerControl {
            reserved: 0,
            mode: requested_mode,
            supported_modes_mask: modes.supported_modes_mask,
        },
    )
}

/// Why setting a PowerMizer mode failed.
#[derive(Debug, Clone, Copy, PartialEq, Eq, Structural)]
pub enum PowerMizerError {
    /// NVML returned this status.
    Nvml(i32),
    /// The GPU does not support the mode.
    Unsupported(NvidiaPowerMizerMode),
    /// After setting, the driver reports another mode.
    NotApplied,
    /// NVML gave no device handle.
    NullDevice,
}

/// Whether the state read back after setting shows the requested mode.
pub fn check_mode_applied(modes_after: &RawPowerMizerModes, mode: NvidiaPowerMizerMode) -> (r: Result<(), PowerMizerError>)
    ensures
        r is Ok <==> modes_after.current == mode_raw(mode),
        r is Err ==> r == Err::<(), PowerMizerError>(PowerMizerError::NotApplied),
{
    if modes_after.current != mode.as_raw() {
        Err(PowerMizerError::NotApplied)
    } else {
        Ok(())
    }
}

/// The NVML status that means success.
pub const NVML_SUCCESS: i32 = 0;

/// Turns an NVML status into a result.
pub fn check_status(status: i32) -> (r: Result<(), PowerMizerError>)
    ensures
        r is Ok <==> status == NVML_SUCCESS,
        r is Err ==> r == Err::<(), PowerMizerError>(PowerMizerError::Nvml(status)),
{
    if status == NVML_SUCCESS {
        Ok(())
    } else {
        Err(PowerMizerError::Nvml(status))
    }
}

/// A mode gets applied only when the GPU supports it and it is not current
/// already, and then with the device's own mask.
pub proof fn lemma_apply_only_supported(modes: RawPowerMizerModes, mode: NvidiaPowerMizerMode)
    ensures
        spec_plan_set_mode(modes, mode) matches SetModePlan::Apply(c) ==> {
            &&& spec_supported_modes(modes.supported_modes_mask).contains(mode)
            &&& modes.current != mode_raw(mode)
            &&& c.mode == mode_raw(mode)
            &&& c.supported_modes_mask == modes.supported_modes_mask
        },
        spec_plan_set_mode(modes, mode) is Unsupported <==> !spec_supported_modes(
            modes.supported_modes_mask,
        ).contains(mode),
{
    lemma_supported_modes_membership(modes.supported_modes_mask, mode);
}

/// A supported mode is left alone exactly when it is the current one;
/// otherwise it is applied with its own number and the device's mask. The
/// device's default mode plays no part.
pub proof fn lemma_plan_set_mode_cases(modes: RawPowerMizerModes, mode: NvidiaPowerMizerMode)
    ensures
        spec_plan_set_mode(modes, mode) is AlreadyCurrent <==> (spec_supported_modes(
            modes.supported_modes_mask,
        ).contains(mode) && modes.current == mode_raw(mode)),
        spec_supported_modes(modes.supported_modes_mask).contains(mode) && modes.current != mode_raw(mode)
            ==> spec_plan_set_mode(modes, mode) == SetModePlan::Apply(
            PowerMizerControl { reserved: 0, mode: mode_raw(mode), supported_modes_mask: modes.supported_modes_mask },
        ),
        spec_plan_set_mode(RawPowerMizerModes { default: 0, ..modes }, mode) == spec_plan_set_mode(modes, mode),
{
    lemma_supported_modes_membership(modes.supported_modes_mask, mode);
}

} // verus!
