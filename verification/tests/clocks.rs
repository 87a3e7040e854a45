use lact::adjustment_group::AdjustmentGroup;
use lact::clocks::{ClockCategory, ClockspeedType};

#[test]
fn categories_of_clock_types() {
    assert_eq!(ClockCategory::from_type(ClockspeedType::MaxCoreClock), ClockCategory::CoreClock);
    assert_eq!(ClockCategory::from_type(ClockspeedType::GpuClockOffset(2)), ClockCategory::CoreClock);
    assert_eq!(ClockCategory::from_type(ClockspeedType::VoltageBoost), ClockCategory::CoreVoltage);
    assert_eq!(ClockCategory::from_type(ClockspeedType::MemClockOffset(0)), ClockCategory::VramClock);
    assert_eq!(ClockCategory::from_type(ClockspeedType::GpuVfCurveClock(1)), ClockCategory::CoreCurveClock);
    assert_eq!(ClockCategory::from_type(ClockspeedType::MemVfCurveClock(1)), ClockCategory::VramCurveClock);
    assert_eq!(ClockCategory::from_type(ClockspeedType::GpuVfCurveVoltage(1)), ClockCategory::CoreCurveVoltage);
    assert_eq!(ClockCategory::from_type(ClockspeedType::MemVfCurveVoltage(1)), ClockCategory::VramCurveVoltage);
}

#[test]
fn each_category_is_core_or_vram() {
    for c in ClockCategory::CORE {
        assert!(c.is_core());
        assert!(!c.is_vram());
    }
    for c in ClockCategory::VRAM {
        assert!(c.is_vram());
        assert!(!c.is_core());
    }
}

#[test]
fn clock_keys_are_distinct() {
    let types = [
        ClockspeedType::MaxCoreClock,
        ClockspeedType::MinCoreClock,
        ClockspeedType::GpuClockOffset(0),
        ClockspeedType::GpuClockOffset(1),
        ClockspeedType::MemClockOffset(0),
        ClockspeedType::Reset,
    ];
    for (i, a) in types.iter().enumerate() {
        for (j, b) in types.iter().enumerate() {
            assert_eq!(a.key() == b.key(), i == j);
        }
    }
    assert_eq!(ClockspeedType::MemClockOffset(3).key(), 9 * 0x1_0000_0000 + 3);
}

#[test]
fn set_clock_replaces_in_place_and_appends() {
    let mut group = AdjustmentGroup::new();
    assert!(group.is_empty());
    assert_eq!(group.set_clock(ClockspeedType::MaxCoreClock, 10, false), None);
    assert_eq!(group.set_clock(ClockspeedType::GpuClockOffset(0), 11, true), None);
    assert_eq!(group.set_clock(ClockspeedType::MaxCoreClock, 12, false), Some(10));
    assert_eq!(group.rows(), vec![12, 11]);
    assert!(group.has_secondary());
    assert!(!group.is_empty());
}

#[test]
fn visibility_follows_options() {
    let mut group = AdjustmentGroup::new();
    group.set_clock(ClockspeedType::MaxCoreClock, 1, false);
    group.set_clock(ClockspeedType::MinMemoryClock, 2, false);
    group.set_clock(ClockspeedType::GpuClockOffset(0), 3, false);
    group.set_clock(ClockspeedType::VoltageOffset, 4, true);

    let v = group.toggle_secondary_visibility(false, false, false, false, false);
    assert_eq!(v.rows, vec![(1, true), (2, true), (3, true), (4, false)]);
    assert!(v.any_visible);

    let v = group.toggle_secondary_visibility(true, true, false, true, true);
    assert_eq!(v.rows, vec![(1, false), (2, true), (3, false), (4, true)]);

    let mut secondary_only = AdjustmentGroup::new();
    secondary_only.set_clock(ClockspeedType::VoltageOffset, 7, true);
    let v = secondary_only.toggle_secondary_visibility(false, false, false, false, false);
    assert!(!v.any_visible);
}

#[test]
fn commands_offsets_and_raw_values() {
    let mut group = AdjustmentGroup::new();
    group.set_clock(ClockspeedType::GpuClockOffset(0), 5, false);
    group.set_clock(ClockspeedType::MaxCoreClock, 6, false);
    group.set_clock(ClockspeedType::GpuClockOffset(1), 7, false);
    assert_eq!(
        group.get_commands(&vec![Some(-50), None, Some(20)]),
        vec![
            (ClockspeedType::GpuClockOffset(0), Some(-50)),
            (ClockspeedType::MaxCoreClock, None),
            (ClockspeedType::GpuClockOffset(1), Some(20)),
        ]
    );
    assert_eq!(group.reset_gpu_clock_offsets(), vec![5, 7]);
    let values = vec![-50, 2100, 20];
    assert_eq!(group.get_raw_value(ClockspeedType::MaxCoreClock, &values), 2100);
    assert_eq!(group.get_raw_value(ClockspeedType::MinCoreClock, &values), 0);
}
