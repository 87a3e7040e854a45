use vstd::prelude::*;

verus! {

/// The kind of a clock adjustment that the daemon accepts.
#[derive(Debug, Clone, Copy, PartialEq, Eq, Hash, Structural)]
pub enum ClockspeedType {
    MaxCoreClock,
    MinCoreClock,
    MaxMemoryClock,
    MinMemoryClock,
    MaxVoltage,
    MinVoltage,
    VoltageOffset,
    VoltageBoost,
    GpuClockOffset(u32),
    MemClockOffset(u32),
    GpuVfCurveClock(u32),
    MemVfCurveClock(u32),
    GpuVfCurveVoltage(u32),
    MemVfCurveVoltage(u32),
    Reset,
}

/// The group under which a clock adjustment is shown.
#[derive(Debug, Clone, Copy, PartialEq, Eq, Hash, Structural)]
pub enum ClockCategory {
    CoreClock,
    CoreVoltage,
    VramClock,
    CoreCurveClock,
    VramCurveClock,
    CoreCurveVoltage,
    VramCurveVoltage,
}

/// The category that shows adjustments of kind `t`.
pub open spec fn category_of(t: ClockspeedType) -> ClockCategory
    recommends
        !(t is Reset),
{
    match t {
        ClockspeedType::MaxCoreClock | ClockspeedType::MinCoreClock | ClockspeedType::GpuClockOffset(
            _,
        ) => ClockCategory::CoreClock,
        ClockspeedType::MinVoltage | ClockspeedType::MaxVoltage | ClockspeedType::VoltageOffset
        | ClockspeedType::VoltageBoost => ClockCategory::CoreVoltage,
        ClockspeedType::MaxMemoryClock | ClockspeedType::MinMemoryClock
        | ClockspeedType::MemClockOffset(_) => ClockCategory::VramClock,
        ClockspeedType::GpuVfCurveClock(_) => ClockCategory::CoreCurveClock,
        ClockspeedType::MemVfCurveClock(_) => ClockCategory::VramCurveClock,
        ClockspeedType::GpuVfCurveVoltage(_) => ClockCategory::CoreCurveVoltage,
        ClockspeedType::MemVfCurveVoltage(_) => ClockCategory::VramCurveVoltage,
        ClockspeedType::Reset => ClockCategory::CoreClock,
    }
}

impl ClockCategory {
    /// The categories of the GPU core.
    pub const CORE: [ClockCategory; 4] = [
        ClockCategory::CoreClock,
        ClockCategory::CoreVoltage,
        ClockCategory::CoreCurveClock,
        ClockCategory::CoreCurveVoltage,
    ];

    /// The categories of the video memory.
    pub const VRAM: [ClockCategory; 3] = [
        ClockCategory::VramClock,
        ClockCategory::VramCurveClock,
        ClockCategory::VramCurveVoltage,
    ];

    pub open spec fn spec_is_core(self) -> bool {
        self is CoreClock || self is CoreVoltage || self is CoreCurveClock || self is CoreCurveVoltage
    }

    pub open spec fn spec_is_vram(self) -> bool {
        self is VramClock || self is VramCurveClock || self is VramCurveVoltage
    }

    /// The category of an adjustment kind; the reset command has none.
    pub fn from_type(clock_type: ClockspeedType) -> (r: Self)
        requires
            !(clock_type is Reset),
        ensures
            r == category_of(clock_type),
    {
        match clock_type {
            ClockspeedType::MaxCoreClock
            | ClockspeedType::MinCoreClock
            | ClockspeedType::GpuClockOffset(_) => ClockCategory::CoreClock,
            ClockspeedType::MinVoltage
            | ClockspeedType::MaxVoltage
            | ClockspeedType::VoltageOffset
            | ClockspeedType::VoltageBoost => ClockCategory::CoreVoltage,
            ClockspeedType::MaxMemoryClock
            | ClockspeedType::MinMemoryClock
            | ClockspeedType::MemClockOffset(_) => ClockCategory::VramClock,
            ClockspeedType::GpuVfCurveClock(_) => ClockCategory::CoreCurveClock,
            ClockspeedType::MemVfCurveClock(_) => ClockCategory::VramCurveClock,
            ClockspeedType::GpuVfCurveVoltage(_) => ClockCategory::CoreCurveVoltage,
            ClockspeedType::MemVfCurveVoltage(_) => ClockCategory::VramCurveVoltage,
            ClockspeedType::Reset => unreached(),
        }
    }

    /// Whether the category is one of [`Self::CORE`].
    pub fn is_core(&self) -> (r: bool)
        ensures
            r == self.spec_is_core(),
    {
        let core = Self::CORE;
        let mut i: usize = 0;
        while i < 4
            invariant
                core@ == seq![
                    ClockCategory::CoreClock,
                    ClockCategory::CoreVoltage,
                    ClockCategory::CoreCurveClock,
                    ClockCategory::CoreCurveVoltage,
                ],
                i <= 4,
                forall|j: int| 0 <= j < i ==> core@[j] != *self,
            decreases 4 - i,
        {
            if core[i] == *self {
                return true;
            }
            i += 1;
        }
        false
    }

    /// Whether the category is one of [`Self::VRAM`].
    pub fn is_vram(&self) -> (r: bool)
        ensures
            r == self.spec_is_vram(),
    {
        let vram = Self::VRAM;
        let mut i: usize = 0;
        while i < 3
            invariant
                vram@ == seq![
                    ClockCategory::VramClock,
                    ClockCategory::VramCurveClock,
                    ClockCategory::VramCurveVoltage,
                ],
                i <= 3,
                forall|j: int| 0 <= j < i ==> vram@[j] != *self,
            decreases 3 - i,
        {
            if vram[i] == *self {
                return true;
            }
            i += 1;
        }
        false
    }
}

} // verus!

verus! {

/// The variant of an adjustment kind, numbered in declaration order.
pub open spec fn clock_tag(t: ClockspeedType) -> u64 {
    match t {
        ClockspeedType::MaxCoreClock => 0,
        ClockspeedType::MinCoreClock => 1,
        ClockspeedType::MaxMemoryClock => 2,
        ClockspeedType::MinMemoryClock => 3,
        ClockspeedType::MaxVoltage => 4,
        ClockspeedType::MinVoltage => 5,
        ClockspeedType::VoltageOffset => 6,
        ClockspeedType::VoltageBoost => 7,
        ClockspeedType::GpuClockOffset(_) => 8,
        ClockspeedType::MemClockOffset(_) => 9,
        ClockspeedType::GpuVfCurveClock(_) => 10,
        ClockspeedType::MemVfCurveClock(_) => 11,
        ClockspeedType::GpuVfCurveVoltage(_) => 12,
        ClockspeedType::MemVfCurveVoltage(_) => 13,
        ClockspeedType::Reset => 14,
    }
}

/// The number that an adjustment kind carries, or 0 for those without one.
pub open spec fn clock_payload(t: ClockspeedType) -> u64 {
    match t {
        ClockspeedType::GpuClockOffset(p) => p as u64,
        ClockspeedType::MemClockOffset(p) => p as u64,
        ClockspeedType::GpuVfCurveClock(p) => p as u64,
        ClockspeedType::MemVfCurveClock(p) => p as u64,
        ClockspeedType::GpuVfCurveVoltage(p) => p as u64,
        ClockspeedType::MemVfCurveVoltage(p) => p as u64,
        _ => 0,
    }
}

/// A number that identifies an adjustment kind: its variant in the high
/// half, its payload in the low half.
pub open spec fn clock_key(t: ClockspeedType) -> u64 {
    (clock_tag(t) * 0x1_0000_0000 + clock_payload(t)) as u64
}

/// Distinct adjustment kinds have distinct keys.
pub proof fn lemma_clock_key_injective(a: ClockspeedType, b: ClockspeedType)
    ensures
        clock_key(a) == clock_key(b) <==> a == b,
{
    assert(clock_payload(a) < 0x1_0000_0000);
    assert(clock_payload(b) < 0x1_0000_0000);
    if clock_key(a) == clock_key(b) {
        assert(clock_tag(a) == clock_tag(b));
        assert(clock_payload(a) == clock_payload(b));
    }
}

impl ClockspeedType {
    /// The key of this adjustment kind, see [`clock_key`].
    pub fn key(&self) -> (r: u64)
        ensures
            r == clock_key(*self),
    {
        let (tag, payload): (u64, u32) = match *self {
            ClockspeedType::MaxCoreClock => (0, 0),
            ClockspeedType::MinCoreClock => (1, 0),
            ClockspeedType::MaxMemoryClock => (2, 0),
            ClockspeedType::MinMemoryClock => (3, 0),
            ClockspeedType::MaxVoltage => (4, 0),
            ClockspeedType::MinVoltage => (5, 0),
            ClockspeedType::VoltageOffset => (6, 0),
            ClockspeedType::VoltageBoost => (7, 0),
            ClockspeedType::GpuClockOffset(p) => (8, p),
            ClockspeedType::MemClockOffset(p) => (9, p),
            ClockspeedType::GpuVfCurveClock(p) => (10, p),
            ClockspeedType::MemVfCurveClock(p) => (11, p),
            ClockspeedType::GpuVfCurveVoltage(p) => (12, p),
            ClockspeedType::MemVfCurveVoltage(p) => (13, p),
            ClockspeedType::Reset => (14, 0),
        };
        tag * 0x1_0000_0000 + payload as u64
    }
}

} // verus!

verus! {

/// Every category belongs to exactly one of the GPU core and the video memory.
pub proof fn lemma_category_core_or_vram(c: ClockCategory)
    ensures
        c.spec_is_core() != c.spec_is_vram(),
{
}

/// Clock and voltage offsets of the GPU core show in the core categories,
/// those of the memory in the memory categories.
pub proof fn lemma_category_of_side(t: ClockspeedType)
    requires
        !(t is Reset),
    ensures
        category_of(t).spec_is_core() <==> (t is MaxCoreClock || t is MinCoreClock
            || t is GpuClockOffset || t is MinVoltage || t is MaxVoltage || t is VoltageOffset
            || t is VoltageBoost || t is GpuVfCurveClock || t is GpuVfCurveVoltage),
{
}

/// Each adjustment shows in the category of what it adjusts: core clock
/// limits and offsets with the core clock, voltage settings with the core
/// voltage, memory clock limits and offsets with the memory clock, and each
/// curve point kind in its own curve category.
pub proof fn lemma_category_of_kind(t: ClockspeedType)
    requires
        !(t is Reset),
    ensures
        category_of(t) == ClockCategory::CoreClock <==> (t is MaxCoreClock || t is MinCoreClock
            || t is GpuClockOffset),
        category_of(t) == ClockCategory::CoreVoltage <==> (t is MinVoltage || t is MaxVoltage
            || t is VoltageOffset || t is VoltageBoost),
        category_of(t) == ClockCategory::VramClock <==> (t is MaxMemoryClock || t is MinMemoryClock
            || t is MemClockOffset),
        category_of(t) == ClockCategory::CoreCurveClock <==> t is GpuVfCurveClock,
        category_of(t) == ClockCategory::VramCurveClock <==> t is MemVfCurveClock,
        category_of(t) == ClockCategory::CoreCurveVoltage <==> t is GpuVfCurveVoltage,
        category_of(t) == ClockCategory::VramCurveVoltage <==> t is MemVfCurveVoltage,
{
}

} // verus!
