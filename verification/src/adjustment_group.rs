use vstd::prelude::*;

use indexmap::IndexMap;

use crate::clocks::{clock_key, lemma_clock_key_injective, ClockspeedType};

verus! {

/// `indexmap::IndexMap`, an insertion-ordered hash map.
#[verifier::external_type_specification]
#[verifier::external_body]
#[verifier::reject_recursive_types(K)]
#[verifier::reject_recursive_types(V)]
#[verifier::reject_recursive_types(S)]
pub struct ExIndexMap<K, V, S>(IndexMap<K, V, S>);

/// One adjustment row of a group: the adjustment kind it sets, the handle of
/// the row widget that shows it, and whether it is only shown on demand.
#[derive(Debug, Clone, Copy, PartialEq, Eq)]
pub struct ClockEntry {
    pub clock_type: ClockspeedType,
    pub row: u64,
    pub is_secondary: bool,
}

/// The key-value pairs of an adjustment map, in the map's order.
pub uninterp spec fn clock_entries(m: IndexMap<u64, ClockEntry>) -> Seq<(u64, ClockEntry)>;

/// `IndexMap::new`: an empty map.
#[verifier::external_body]
fn entries_new() -> (m: IndexMap<u64, ClockEntry>)
    ensures
        clock_entries(m) == Seq::<(u64, ClockEntry)>::empty(),
{
    IndexMap::new()
}

/// `IndexMap::len`: the number of pairs.
#[verifier::external_body]
fn entries_len(m: &IndexMap<u64, ClockEntry>) -> (r: usize)
    ensures
        r == clock_entries(*m).len(),
{
    m.len()
}

/// `IndexMap::get_index`: the pair at position `index`, if there is one.
#[verifier::external_body]
fn entries_get_index(m: &IndexMap<u64, ClockEntry>, index: usize) -> (r: Option<(u64, ClockEntry)>)
    ensures
        index < clock_entries(*m).len() ==> r == Some(clock_entries(*m)[index as int]),
        index >= clock_entries(*m).len() ==> r is None,
{
    match m.get_index(index) {
        Some((k, v)) => Some((*k, *v)),
        None => None,
    }
}

/// `IndexMap::get_index_of`: the position of the pair with key `key`, if any.
#[verifier::external_body]
fn entries_index_of(m: &IndexMap<u64, ClockEntry>, key: u64) -> (r: Option<usize>)
    ensures
        match r {
            Some(i) => i < clock_entries(*m).len() && clock_entries(*m)[i as int].0 == key,
            None => forall|i: int|
                0 <= i < clock_entries(*m).len() ==> clock_entries(*m)[i].0 != key,
        },
{
    m.get_index_of(&key)
}

/// `IndexMap::insert`: a key already present keeps its position and gets the
/// new value, the old value being returned; a new key goes last.
#[verifier::external_body]
fn entries_insert(m: &mut IndexMap<u64, ClockEntry>, key: u64, value: ClockEntry) -> (r: Option<
    ClockEntry,
>)
    ensures
        (r is None) <==> forall|i: int|
            0 <= i < clock_entries(*old(m)).len() ==> clock_entries(*old(m))[i].0 != key,
        r is None ==> clock_entries(*final(m)) == clock_entries(*old(m)).push((key, value)),
        r is Some ==> exists|i: int|
            0 <= i < clock_entries(*old(m)).len() && clock_entries(*old(m))[i].0 == key
                && clock_entries(*final(m)) == clock_entries(*old(m)).update(i, (key, value))
                && r == Some(clock_entries(*old(m))[i].1),
{
    m.insert(key, value)
}

} // verus!

verus! {

/// Whether the row of an adjustment of kind `t` is shown, given the
/// page's display options.
pub open spec fn row_shown(
    t: ClockspeedType,
    is_secondary: bool,
    show_secondary: bool,
    show_nvidia_options: bool,
    enable_gpu_locked: bool,
    enable_vram_locked: bool,
    vf_curve_editing: bool,
) -> bool {
    if (t is MaxCoreClock || t is MinCoreClock) && show_nvidia_options {
        enable_gpu_locked
    } else if (t is MaxMemoryClock || t is MinMemoryClock) && show_nvidia_options {
        enable_vram_locked
    } else if t is GpuClockOffset && show_nvidia_options && vf_curve_editing {
        false
    } else {
        !is_secondary || show_secondary
    }
}

/// Which rows are shown: on an NVIDIA GPU the core clock limits (maximum
/// and minimum alike) exactly when the GPU clocks are locked, the memory
/// clock limits exactly when the VRAM clocks are locked, and no GPU clock
/// offset while the voltage-frequency curve is edited, whatever the
/// secondary flags; every other row exactly when it is primary or the
/// secondary rows are shown.
pub proof fn lemma_row_visibility(
    t: ClockspeedType,
    is_secondary: bool,
    show_secondary: bool,
    show_nvidia_options: bool,
    enable_gpu_locked: bool,
    enable_vram_locked: bool,
    vf_curve_editing: bool,
)
    ensures
        show_nvidia_options && (t == ClockspeedType::MaxCoreClock || t == ClockspeedType::MinCoreClock)
            ==> row_shown(t, is_secondary, show_secondary, true, enable_gpu_locked, enable_vram_locked, vf_curve_editing)
            == enable_gpu_locked,
        show_nvidia_options && (t == ClockspeedType::MaxMemoryClock || t == ClockspeedType::MinMemoryClock)
            ==> row_shown(t, is_secondary, show_secondary, true, enable_gpu_locked, enable_vram_locked, vf_curve_editing)
            == enable_vram_locked,
        show_nvidia_options && vf_curve_editing && (exists|p: u32| t == ClockspeedType::GpuClockOffset(p))
            ==> !row_shown(t, is_secondary, show_secondary, true, enable_gpu_locked, enable_vram_locked, true),
        !show_nvidia_options ==> row_shown(
            t,
            is_secondary,
            show_secondary,
            false,
            enable_gpu_locked,
            enable_vram_locked,
            vf_curve_editing,
        ) == (!is_secondary || show_secondary),
        t != ClockspeedType::MaxCoreClock && t != ClockspeedType::MinCoreClock && t
            != ClockspeedType::MaxMemoryClock && t != ClockspeedType::MinMemoryClock && !(vf_curve_editing
            && exists|p: u32| t == ClockspeedType::GpuClockOffset(p)) ==> row_shown(
            t,
            is_secondary,
            show_secondary,
            show_nvidia_options,
            enable_gpu_locked,
            enable_vram_locked,
            vf_curve_editing,
        ) == (!is_secondary || show_secondary),
{
    if t is GpuClockOffset {
        let p = t->GpuClockOffset_0;
        assert(t == ClockspeedType::GpuClockOffset(p));
    }
}

/// No two entries set the same adjustment kind.
pub open spec fn distinct_clock_types(s: Seq<ClockEntry>) -> bool {
    forall|i: int, j: int|
        0 <= i < s.len() && 0 <= j < s.len() && i != j ==> #[trigger] s[i].clock_type
            != #[trigger] s[j].clock_type
}

/// The rows of the GPU clock offset entries, in order.
pub open spec fn offset_rows(s: Seq<ClockEntry>) -> Seq<u64>
    decreases s.len(),
{
    if s.len() == 0 {
        Seq::empty()
    } else if s.last().clock_type is GpuClockOffset {
        offset_rows(s.drop_last()).push(s.last().row)
    } else {
        offset_rows(s.drop_last())
    }
}

/// The rows that a clock offset reset sets to zero are exactly the rows of
/// the GPU clock offset entries (no memory offset, no limit, no curve
/// point), one per such entry.
pub proof fn lemma_offset_rows(s: Seq<ClockEntry>, r: u64)
    ensures
        offset_rows(s).contains(r) <==> exists|i: int|
            0 <= i < s.len() && (#[trigger] s[i]).clock_type is GpuClockOffset && s[i].row == r,
        offset_rows(s).len() <= s.len(),
    decreases s.len(),
{
    if s.len() > 0 {
        let prev = s.drop_last();
        lemma_offset_rows(prev, r);
        let rest = offset_rows(prev);
        let cur = offset_rows(s);
        if exists|i: int| 0 <= i < prev.len() && (#[trigger] prev[i]).clock_type is GpuClockOffset && prev[i].row == r {
            let i = choose|i: int| 0 <= i < prev.len() && (#[trigger] prev[i]).clock_type is GpuClockOffset && prev[i].row == r;
            assert(s[i] == prev[i]);
        }
        if exists|i: int| 0 <= i < s.len() && (#[trigger] s[i]).clock_type is GpuClockOffset && s[i].row == r {
            let i = choose|i: int| 0 <= i < s.len() && (#[trigger] s[i]).clock_type is GpuClockOffset && s[i].row == r;
            if i < s.len() - 1 {
                assert(prev[i] == s[i]);
            }
        }
        if s.last().clock_type is GpuClockOffset {
            assert(cur == rest.push(s.last().row));
            if rest.contains(r) {
                let j = choose|j: int| 0 <= j < rest.len() && rest[j] == r;
                assert(cur[j] == r);
            }
            if cur.contains(r) {
                let j = choose|j: int| 0 <= j < cur.len() && cur[j] == r;
                if j < rest.len() {
                    assert(rest[j] == r);
                }
            }
            if s.last().row == r {
                assert(cur[rest.len() as int] == r);
            }
        }
    }
}

/// The visibility of each row of a group, and whether any row is visible.
#[derive(Debug, PartialEq, Eq)]
pub struct RowVisibility {
    pub rows: Vec<(u64, bool)>,
    pub any_visible: bool,
}

/// The clock adjustments of one category, in the order they were first set.
pub struct AdjustmentGroup {
    adjustments: IndexMap<u64, ClockEntry>,
}

impl View for AdjustmentGroup {
    type V = Seq<ClockEntry>;

    closed spec fn view(&self) -> Seq<ClockEntry> {
        clock_entries(self.adjustments).map_values(|p: (u64, ClockEntry)| p.1)
    }
}

impl AdjustmentGroup {
    /// Each entry is stored under the key of its kind, and keys are distinct.
    pub closed spec fn wf(&self) -> bool {
        let e = clock_entries(self.adjustments);
        &&& forall|i: int| 0 <= i < e.len() ==> #[trigger] e[i].0 == clock_key(e[i].1.clock_type)
        &&& forall|i: int, j: int|
            0 <= i < e.len() && 0 <= j < e.len() && i != j ==> #[trigger] e[i].0 != #[trigger] e[j].0
    }

    /// A well-formed group never holds two entries for one adjustment kind.
    pub proof fn lemma_distinct_clock_types(&self)
        requires
            self.wf(),
        ensures
            distinct_clock_types(self@),
    {
        let e = clock_entries(self.adjustments);
        assert forall|i: int, j: int|
            0 <= i < self@.len() && 0 <= j < self@.len() && i != j implies #[trigger] self@[i].clock_type
            != #[trigger] self@[j].clock_type by {
            assert(e[i].0 != e[j].0);
            lemma_clock_key_injective(e[i].1.clock_type, e[j].1.clock_type);
        }
    }

    /// An empty group.
    pub fn new() -> (r: Self)
        ensures
            r.wf(),
            r@ == Seq::<ClockEntry>::empty(),
    {
        let r = AdjustmentGroup { adjustments: entries_new() };
        assert(r@ =~= Seq::<ClockEntry>::empty());
        r
    }

    /// Whether the group has no entry.
    pub fn is_empty(&self) -> (r: bool)
        ensures
            r == (self@.len() == 0),
    {
        entries_len(&self.adjustments) == 0
    }

    /// Whether some entry is secondary.
    pub fn has_secondary(&self) -> (r: bool)
        ensures
            r == exists|i: int| 0 <= i < self@.len() && (#[trigger] self@[i]).is_secondary,
    {
        let n = entries_len(&self.adjustments);
        let mut i: usize = 0;
        while i < n
            invariant
                n == self@.len(),
                i <= n,
                forall|j: int| 0 <= j < i ==> !(#[trigger] self@[j]).is_secondary,
            decreases n - i,
        {
            let (_, entry) = entries_get_index(&self.adjustments, i).unwrap();
            if entry.is_secondary {
                assert(self@[i as int].is_secondary);
                return true;
            }
            i += 1;
        }
        false
    }

    /// Sets the row that shows adjustments of kind `clock_type`. An entry of
    /// that kind keeps its position and gets the new row, and the row it had
    /// is returned, to be taken off the screen; otherwise the entry goes last.
    pub fn set_clock(&mut self, clock_type: ClockspeedType, row: u64, is_secondary: bool) -> (r:
        Option<u64>)
        requires
            old(self).wf(),
        ensures
            final(self).wf(),
            match r {
                Some(previous) => exists|i: int|
                    0 <= i < old(self)@.len() && old(self)@[i].clock_type == clock_type
                        && previous == old(self)@[i].row && final(self)@ == old(self)@.update(
                        i,
                        ClockEntry { clock_type, row, is_secondary },
                    ),
                None => (forall|i: int|
                    0 <= i < old(self)@.len() ==> old(self)@[i].clock_type != clock_type)
                    && final(self)@ == old(self)@.push(ClockEntry { clock_type, row, is_secondary }),
            },
    {
        let ghost old_e = clock_entries(self.adjustments);
        let entry = ClockEntry { clock_type, row, is_secondary };
        let key = clock_type.key();
        let previous = entries_insert(&mut self.adjustments, key, entry);
        let ghost new_e = clock_entries(self.adjustments);
        match previous {
            Some(p) => {
                proof {
                    let i = choose|i: int|
                        0 <= i < old_e.len() && old_e[i].0 == key && new_e == old_e.update(
                            i,
                            (key, entry),
                        ) && previous == Some(old_e[i].1);
                    assert(old_e[i].0 == clock_key(old_e[i].1.clock_type));
                    lemma_clock_key_injective(old_e[i].1.clock_type, clock_type);
                    assert(self@ =~= old(self)@.update(i, entry));
                    assert(old(self)@[i].clock_type == clock_type);
                }
                Some(p.row)
            },
            None => {
                proof {
                    assert(self@ =~= old(self)@.push(entry));
                    assert forall|i: int| 0 <= i < old(self)@.len() implies old(self)@[i].clock_type
                        != clock_type by {
                        assert(old_e[i].0 != key);
                    }
                }
                None
            },
        }
    }

    /// The rows of all entries, in order.
    pub fn rows(&self) -> (r: Vec<u64>)
        ensures
            r@ == self@.map_values(|e: ClockEntry| e.row),
    {
        let n = entries_len(&self.adjustments);
        let mut out: Vec<u64> = Vec::new();
        let mut i: usize = 0;
        while i < n
            invariant
                n == self@.len(),
                i <= n,
                out@ == self@.take(i as int).map_values(|e: ClockEntry| e.row),
            decreases n - i,
        {
            let (_, entry) = entries_get_index(&self.adjustments, i).unwrap();
            out.push(entry.row);
            assert(self@.take(i + 1) =~= self@.take(i as int).push(entry));
            i += 1;
        }
        assert(self@.take(n as int) =~= self@);
        out
    }

    /// Which rows to show for the given display options: on NVIDIA pages
    /// the locked core and memory clock rows follow their lock switches and
    /// clock offsets hide while the voltage curve is edited; any other row is
    /// shown unless it is secondary and secondary rows are hidden.
    pub fn toggle_secondary_visibility(
        &self,
        show_secondary: bool,
        show_nvidia_options: bool,
        enable_gpu_locked: bool,
        enable_vram_locked: bool,
        vf_curve_editing: bool,
    ) -> (r: RowVisibility)
        ensures
            r.rows@.len() == self@.len(),
            forall|i: int|
                0 <= i < self@.len() ==> #[trigger] r.rows@[i] == (
                    self@[i].row,
                    row_shown(
                        self@[i].clock_type,
                        self@[i].is_secondary,
                        show_secondary,
                        show_nvidia_options,
                        enable_gpu_locked,
                        enable_vram_locked,
                        vf_curve_editing,
                    ),
                ),
            r.any_visible == exists|i: int| 0 <= i < self@.len() && (#[trigger] r.rows@[i]).1,
    {
        let n = entries_len(&self.adjustments);
        let mut rows: Vec<(u64, bool)> = Vec::new();
        let mut any_visible = false;
        let mut i: usize = 0;
        while i < n
            invariant
                n == self@.len(),
                i <= n,
                rows@.len() == i,
                forall|j: int|
                    0 <= j < i ==> #[trigger] rows@[j] == (
                        self@[j].row,
                        row_shown(
                            self@[j].clock_type,
                            self@[j].is_secondary,
                            show_secondary,
                            show_nvidia_options,
                            enable_gpu_locked,
                            enable_vram_locked,
                            vf_curve_editing,
                        ),
                    ),
                any_visible == exists|j: int| 0 <= j < i && (#[trigger] rows@[j]).1,
            decreases n - i,
        {
            let (_, entry) = entries_get_index(&self.adjustments, i).unwrap();
            let show_current = match entry.clock_type {
                ClockspeedType::MaxCoreClock if show_nvidia_options => enable_gpu_locked,
                ClockspeedType::MinCoreClock if show_nvidia_options => enable_gpu_locked,
                ClockspeedType::MaxMemoryClock if show_nvidia_options => enable_vram_locked,
                ClockspeedType::MinMemoryClock if show_nvidia_options => enable_vram_locked,
                ClockspeedType::GpuClockOffset(_) if show_nvidia_options && vf_curve_editing => false,
                _ => !entry.is_secondary || show_secondary,
            };
            let ghost old_rows = rows@;
            rows.push((entry.row, show_current));
            any_visible = any_visible || show_current;
            proof {
                assert(rows@[i as int] == (entry.row, show_current));
                assert forall|j: int| 0 <= j < i implies rows@[j] == old_rows[j] by {}
                if show_current {
                    assert(rows@[i as int].1);
                }
            }
            i += 1;
        }
        RowVisibility { rows, any_visible }
    }

    /// The command of each entry, in order: its kind and the value its row
    /// holds if that was changed (`changed_values[i]` is the one of entry `i`).
    pub fn get_commands(&self, changed_values: &Vec<Option<i32>>) -> (r: Vec<(ClockspeedType, Option<i32>)>)
        requires
            changed_values@.len() == self@.len(),
        ensures
            r@.len() == self@.len(),
            forall|i: int|
                0 <= i < self@.len() ==> #[trigger] r@[i] == (self@[i].clock_type, changed_values@[i]),
    {
        let n = entries_len(&self.adjustments);
        let mut out: Vec<(ClockspeedType, Option<i32>)> = Vec::new();
        let mut i: usize = 0;
        while i < n
            invariant
                n == self@.len(),
                changed_values@.len() == n,
                i <= n,
                out@.len() == i,
                forall|j: int|
                    0 <= j < i ==> #[trigger] out@[j] == (self@[j].clock_type, changed_values@[j]),
            decreases n - i,
        {
            let (_, entry) = entries_get_index(&self.adjustments, i).unwrap();
            out.push((entry.clock_type, changed_values[i]));
            i += 1;
        }
        out
    }

    /// The rows of the GPU clock offset entries, which a reset sets to zero.
    pub fn reset_gpu_clock_offsets(&self) -> (r: Vec<u64>)
        ensures
            r@ == offset_rows(self@),
    {
        let n = entries_len(&self.adjustments);
        let mut out: Vec<u64> = Vec::new();
        let mut i: usize = 0;
        while i < n
            invariant
                n == self@.len(),
                i <= n,
                out@ == offset_rows(self@.take(i as int)),
            decreases n - i,
        {
            let (_, entry) = entries_get_index(&self.adjustments, i).unwrap();
            assert(self@.take(i + 1).drop_last() =~= self@.take(i as int));
            if let ClockspeedType::GpuClockOffset(_) = entry.clock_type {
                out.push(entry.row);
            }
            i += 1;
        }
        assert(self@.take(n as int) =~= self@);
        out
    }

    /// The value of the row of kind `clock_type` (`values[i]` is the one of
    /// entry `i`), or 0 when the group has no such entry.
    pub fn get_raw_value(&self, clock_type: ClockspeedType, values: &Vec<i32>) -> (r: i32)
        requires
            self.wf(),
            values@.len() == self@.len(),
        ensures
            forall|i: int|
                0 <= i < self@.len() && self@[i].clock_type == clock_type ==> r == values@[i],
            (forall|i: int| 0 <= i < self@.len() ==> self@[i].clock_type != clock_type) ==> r == 0,
    {
        proof {
            self.lemma_distinct_clock_types();
        }
        let ghost e = clock_entries(self.adjustments);
        match entries_index_of(&self.adjustments, clock_type.key()) {
            Some(i) => {
                proof {
                    lemma_clock_key_injective(e[i as int].1.clock_type, clock_type);
                    assert(self@[i as int].clock_type == clock_type);
                }
                values[i]
            },
            None => {
                proof {
                    assert forall|i: int| 0 <= i < self@.len() implies self@[i].clock_type != clock_type by {
                        lemma_clock_key_injective(e[i].1.clock_type, clock_type);
                    }
                }
                0
            },
        }
    }
}

} // verus!
