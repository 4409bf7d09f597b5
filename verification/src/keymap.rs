//! The report state: which keys and modifiers the user holds, what the
//! current report says, the reports waiting to go to the host, and the
//! active keymap layer.
use vstd::prelude::*;
use crate::hid::{KeyboardReport, ReportView, copy_report, empty_report_view};
use crate::keycodes::{KeyCode, Modifier};
use crate::queue::{Queue, pushed, next_start};

verus! {

/// Reports that can wait for the host at once.
pub const OUTBOUND_CAPACITY: usize = 16;

#[derive(Debug, Copy, Clone, PartialEq, Eq, Structural)]
pub enum KeymapLayer {
    DvorakSe,
    DvorakAnsi,
    DvorakSeMac,
    QwertyGaming,
    Lower,
    LowerSeMac,
    LowerAnsi,
    Raise,
    Num,
    Settings,
}

/// Which shift-dependent symbol a key produced when it went down, so that
/// its release undoes the same thing even if shift changed in between.
#[derive(Debug, Copy, Clone, PartialEq, Eq, Structural)]
pub struct JankState {
    pub pressing_double_quote: bool,
    pub pressing_single_quote: bool,
    pub pressing_left_bracket: bool,
    pub pressing_comma: bool,
    pub pressing_right_bracket: bool,
    pub pressing_dot: bool,
    pub pressing_reg_colon: bool,
    pub pressing_semicolon: bool,
}

/// What held when a key went down: the press count after the press and the
/// layers then in force.
#[derive(Copy, Clone, Debug)]
pub struct LastPressState {
    pub generation: usize,
    pub layer: KeymapLayer,
    pub last_perm_layer: Option<KeymapLayer>,
}

/// `g + 1`, wrapping to zero.
pub open spec fn next_generation(g: usize) -> usize {
    if g == usize::MAX {
        0
    } else {
        (g + 1) as usize
    }
}

/// Index of the first slot of `keys` at or after `i` that is free or
/// already holds `k`; 6 when there is none.
pub open spec fn slot_for(keys: Seq<u8>, k: u8, i: int) -> int
    decreases 6 - i,
{
    if i >= 6 {
        6
    } else if keys[i] == 0 || keys[i] == k {
        i
    } else {
        slot_for(keys, k, i + 1)
    }
}

/// The key slots after `k` goes down: `k` takes the first free slot (or
/// stays where it is); with all six slots taken by other keys the oldest
/// one is dropped and `k` goes last.
pub open spec fn with_key(keys: Seq<u8>, k: u8) -> Seq<u8> {
    let i = slot_for(keys, k, 0);
    if i < 6 {
        keys.update(i, k)
    } else {
        keys.subrange(1, 6).push(k)
    }
}

/// Where `k` is among the held keys, looking from slot `i` up to the first
/// free slot.
pub open spec fn key_position(keys: Seq<u8>, k: u8, i: int) -> Option<int>
    decreases 6 - i,
{
    if i >= 6 {
        None
    } else if keys[i] == k {
        Some(i)
    } else if keys[i] == 0 {
        None
    } else {
        key_position(keys, k, i + 1)
    }
}

/// The key slots with slot `i` removed and the later ones moved down.
pub open spec fn without_slot(keys: Seq<u8>, i: int) -> Seq<u8> {
    keys.subrange(0, i) + keys.subrange(i + 1, 6).push(0u8)
}

/// The report state as values.
pub struct ReportStateView {
    pub generation: usize,
    pub report: ReportView,
    pub user_mods: u8,
    pub user_keys: Seq<u8>,
    pub outbound: Seq<ReportView>,
    pub outbound_start: nat,
    pub active_layer: KeymapLayer,
    pub last_perm_layer: Option<KeymapLayer>,
    pub jank: JankState,
}

impl ReportStateView {
    /// Queues a copy of the current report.
    pub open spec fn emit(self) -> Self {
        ReportStateView {
            outbound: pushed(self.outbound, self.outbound_start, OUTBOUND_CAPACITY as nat, self.report),
            ..self
        }
    }

    pub open spec fn with_report_mods(self, m: u8) -> Self {
        ReportStateView { report: ReportView { modifier: m, ..self.report }, ..self }
    }

    pub open spec fn with_report_keys(self, keys: Seq<u8>) -> Self {
        ReportStateView { report: ReportView { keycodes: keys, ..self.report }, ..self }
    }

    pub open spec fn restore_to_user_mods(self) -> Self {
        if self.report.modifier != self.user_mods {
            self.with_report_mods(self.user_mods).emit()
        } else {
            self
        }
    }

    pub open spec fn restore_to_user_keys(self) -> Self {
        if self.report.keycodes != self.user_keys {
            self.with_report_keys(self.user_keys).emit()
        } else {
            self
        }
    }

    /// The report goes back to what the user holds, one report for the
    /// modifiers and one for the keys where each differs.
    pub open spec fn restore_to_user_state(self) -> Self {
        self.restore_to_user_mods().restore_to_user_keys()
    }

    /// Restores the user's state only if no other key went down since the
    /// press counted as `generation`.
    pub open spec fn restore_to_user_if_not_stale(self, generation: usize) -> Self {
        if self.generation == next_generation(generation) {
            self.restore_to_user_state()
        } else {
            self
        }
    }

    pub open spec fn push_key(self, k: u8) -> Self {
        ReportStateView {
            user_keys: with_key(self.user_keys, k),
            ..self.with_report_keys(with_key(self.report.keycodes, k))
        }.emit()
    }

    /// Releases `k` if the user holds it: the report's keys become the
    /// user's.
    pub open spec fn pop_key(self, k: u8) -> Self {
        match key_position(self.user_keys, k, 0) {
            Some(i) => {
                let keys = without_slot(self.user_keys, i);
                ReportStateView { user_keys: keys, ..self.with_report_keys(keys) }.emit()
            },
            None => self,
        }
    }

    /// Sets each listed modifier in the report that is not set yet, one
    /// report per change.
    pub open spec fn push_temp_modifiers(self, mods: Seq<Modifier>) -> Self
        decreases mods.len(),
    {
        if mods.len() == 0 {
            self
        } else {
            let m = mods[0].0;
            let next = if self.report.modifier & m == 0 {
                self.with_report_mods(self.report.modifier | m).emit()
            } else {
                self
            };
            next.push_temp_modifiers(mods.drop_first())
        }
    }

    /// Clears each listed modifier in the report that is set, one report
    /// per change.
    pub open spec fn temp_remove_modifiers(self, mods: Seq<Modifier>) -> Self
        decreases mods.len(),
    {
        if mods.len() == 0 {
            self
        } else {
            let m = mods[0].0;
            let next = if self.report.modifier & m != 0 {
                self.with_report_mods(self.report.modifier & !m).emit()
            } else {
                self
            };
            next.temp_remove_modifiers(mods.drop_first())
        }
    }

    /// Adds `k` to the report only, not to what the user holds.
    pub open spec fn push_temp_key(self, k: u8) -> Self {
        self.with_report_keys(with_key(self.report.keycodes, k)).emit()
    }

    pub open spec fn pop_temp_key(self, k: u8) -> Self {
        match key_position(self.report.keycodes, k, 0) {
            Some(i) => self.with_report_keys(without_slot(self.report.keycodes, i)).emit(),
            None => self,
        }
    }

    pub open spec fn temp_modify(self, k: u8, add: Seq<Modifier>, remove: Seq<Modifier>) -> Self {
        self.push_temp_modifiers(add).temp_remove_modifiers(remove).push_temp_key(k)
    }

    pub open spec fn push_modifier(self, m: u8) -> Self {
        let held = if self.user_mods & m == 0 {
            ReportStateView { user_mods: self.user_mods | m, ..self }
        } else {
            self
        };
        if self.report.modifier & m == 0 {
            held.with_report_mods(self.report.modifier | m).emit()
        } else {
            held
        }
    }

    pub open spec fn pop_modifier(self, m: u8) -> Self {
        if self.user_mods & m != 0 {
            let released = ReportStateView { user_mods: self.user_mods & !m, ..self };
            if self.report.modifier != released.user_mods {
                released.with_report_mods(released.user_mods).emit()
            } else {
                released
            }
        } else {
            self
        }
    }

    pub open spec fn has_user_modifier(self, m: u8) -> bool {
        self.user_mods & m != 0
    }

    /// Switches to a temporary layer; a temporary layer already in force is
    /// dropped first, so the layer to fall back to is always a permanent one.
    pub open spec fn push_layer_with_fallback(self, layer: KeymapLayer) -> Self {
        let base = match self.last_perm_layer {
            Some(old) => old,
            None => self.active_layer,
        };
        ReportStateView { active_layer: layer, last_perm_layer: Some(base), ..self }
    }

    /// Leaves the temporary layer `this` if it is the one in force.
    pub open spec fn pop_layer(self, this: KeymapLayer) -> Self {
        if self.active_layer == this {
            match self.last_perm_layer {
                Some(old) => ReportStateView { active_layer: old, last_perm_layer: None, ..self },
                None => self,
            }
        } else {
            self
        }
    }

    pub open spec fn set_perm_layer(self, layer: KeymapLayer) -> Self {
        if layer != self.active_layer {
            ReportStateView { active_layer: layer, last_perm_layer: None, ..self }
        } else {
            self
        }
    }

    pub open spec fn increment_generation(self) -> Self {
        ReportStateView { generation: next_generation(self.generation), ..self }
    }

    /// The layer that a temporary layer falls back to, or the active one.
    pub open spec fn base_layer(self) -> KeymapLayer {
        match self.last_perm_layer {
            Some(l) => l,
            None => self.active_layer,
        }
    }

    /// What a key press records for the key's later release.
    pub open spec fn last_press(self) -> LastPressState {
        LastPressState {
            generation: self.generation,
            layer: self.active_layer,
            last_perm_layer: self.last_perm_layer,
        }
    }
}

pub open spec fn report_views(reports: Seq<KeyboardReport>) -> Seq<ReportView> {
    reports.map_values(|r: KeyboardReport| r@)
}

proof fn lemma_pushed_views(items: Seq<KeyboardReport>, start: nat, v: KeyboardReport)
    ensures
        report_views(pushed(items, start, OUTBOUND_CAPACITY as nat, v)) == pushed(
            report_views(items),
            start,
            OUTBOUND_CAPACITY as nat,
            v@,
        ),
{
    let cap = OUTBOUND_CAPACITY as nat;
    if items.len() >= cap {
    } else if items.len() + 1 == cap && start != 0 {
        assert(report_views(Seq::<KeyboardReport>::empty()) =~= Seq::<ReportView>::empty());
    } else {
        assert(report_views(items.push(v)) =~= report_views(items).push(v@));
    }
}

/// Whether two key arrays hold the same keys.
fn same_keys(a: &[u8; 6], b: &[u8; 6]) -> (r: bool)
    ensures
        r == (a@ == b@),
{
    let mut i: usize = 0;
    while i < 6
        invariant
            i <= 6,
            a@.len() == 6,
            b@.len() == 6,
            forall|j: int| 0 <= j < i ==> a@[j] == b@[j],
        decreases 6 - i,
    {
        if a[i] != b[i] {
            return false;
        }
        i = i + 1;
    }
    assert(a@ =~= b@);
    true
}

pub struct KeyboardReportState {
    generation: usize,
    inner_report: KeyboardReport,
    user_mods: Modifier,
    user_key_state: [u8; 6],
    outbound_reports: Queue<KeyboardReport, OUTBOUND_CAPACITY>,
    active_layer: KeymapLayer,
    last_perm_layer: Option<KeymapLayer>,
    jank: JankState,
}

impl View for KeyboardReportState {
    type V = ReportStateView;

    open spec fn view(&self) -> ReportStateView {
        self.model()
    }
}

impl KeyboardReportState {
    pub closed spec fn model(&self) -> ReportStateView {
        ReportStateView {
            generation: self.generation,
            report: self.inner_report@,
            user_mods: self.user_mods.0,
            user_keys: self.user_key_state@,
            outbound: report_views(self.outbound_reports@),
            outbound_start: self.outbound_reports.start(),
            active_layer: self.active_layer,
            last_perm_layer: self.last_perm_layer,
            jank: self.jank,
        }
    }

    pub closed spec fn wf(&self) -> bool {
        self.outbound_reports.wf()
    }

    /// Nothing held, nothing queued, on the Swedish Dvorak layer.
    pub fn new() -> (r: Self)
        ensures
            r.wf(),
            r@ == (ReportStateView {
                generation: 0,
                report: empty_report_view(),
                user_mods: 0,
                user_keys: seq![0u8, 0, 0, 0, 0, 0],
                outbound: Seq::empty(),
                outbound_start: 0,
                active_layer: KeymapLayer::DvorakSe,
                last_perm_layer: None,
                jank: JankState {
                    pressing_double_quote: false,
                    pressing_single_quote: false,
                    pressing_left_bracket: false,
                    pressing_comma: false,
                    pressing_right_bracket: false,
                    pressing_dot: false,
                    pressing_reg_colon: false,
                    pressing_semicolon: false,
                },
            }),
    {
        let r = KeyboardReportState {
            generation: 0,
            inner_report: crate::hid::transform_state(),
            user_mods: Modifier(0),
            user_key_state: [0u8; 6],
            outbound_reports: Queue::new(),
            active_layer: KeymapLayer::DvorakSe,
            last_perm_layer: None,
            jank: JankState {
                pressing_double_quote: false,
                pressing_single_quote: false,
                pressing_left_bracket: false,
                pressing_comma: false,
                pressing_right_bracket: false,
                pressing_dot: false,
                pressing_reg_colon: false,
                pressing_semicolon: false,
            },
        };
        assert(r.user_key_state@ =~= seq![0u8, 0, 0, 0, 0, 0]);
        assert(report_views(r.outbound_reports@) =~= Seq::<ReportView>::empty());
        r
    }

    pub fn increment_generation(&mut self)
        requires
            old(self).wf(),
        ensures
            final(self).wf(),
            final(self)@ == old(self)@.increment_generation(),
    {
        self.generation = self.generation.wrapping_add(1);
    }

    /// The oldest report waiting for the host.
    pub fn report(&self) -> (r: Option<&KeyboardReport>)
        requires
            self.wf(),
        ensures
            r is Some <==> self@.outbound.len() > 0,
            r matches Some(rep) ==> rep@ == self@.outbound[0],
    {
        self.outbound_reports.peek()
    }

    /// Drops the oldest waiting report, once the host has taken it.
    pub fn accept(&mut self)
        requires
            old(self).wf(),
        ensures
            final(self).wf(),
            old(self)@.outbound.len() > 0 ==> final(self)@ == (ReportStateView {
                outbound: old(self)@.outbound.drop_first(),
                outbound_start: next_start(old(self)@.outbound_start, OUTBOUND_CAPACITY as nat),
                ..old(self)@
            }),
            old(self)@.outbound.len() == 0 ==> final(self)@ == old(self)@,
    {
        let ghost before = self.outbound_reports@;
        let _ = self.outbound_reports.pop_front();
        proof {
            if before.len() > 0 {
                assert(report_views(before.drop_first()) =~= report_views(before).drop_first());
            }
        }
    }

    pub(crate) fn restore_to_user_if_not_stale(&mut self, generation: usize)
        requires
            old(self).wf(),
        ensures
            final(self).wf(),
            final(self)@ == old(self)@.restore_to_user_if_not_stale(generation),
    {
        if self.generation == generation.wrapping_add(1) {
            self.restore_to_user_state();
        }
    }

    pub(crate) fn restore_to_user_state(&mut self)
        requires
            old(self).wf(),
        ensures
            final(self).wf(),
            final(self)@ == old(self)@.restore_to_user_state(),
    {
        self.restore_to_user_mods();
        self.restore_to_user_keys();
    }

    fn restore_to_user_mods(&mut self)
        requires
            old(self).wf(),
        ensures
            final(self).wf(),
            final(self)@ == old(self)@.restore_to_user_mods(),
    {
        if self.inner_report.modifier != self.user_mods.0 {
            self.inner_report.modifier = self.user_mods.0;
            self.report_current();
        }
    }

    fn restore_to_user_keys(&mut self)
        requires
            old(self).wf(),
        ensures
            final(self).wf(),
            final(self)@ == old(self)@.restore_to_user_keys(),
    {
        if !same_keys(&self.inner_report.keycodes, &self.user_key_state) {
            self.inner_report.keycodes = self.user_key_state;
            self.report_current();
        }
    }

    /// Presses `key_code` for the user and reports it.
    pub(crate) fn push_key(&mut self, key_code: KeyCode)
        requires
            old(self).wf(),
        ensures
            final(self).wf(),
            final(self)@ == old(self)@.push_key(key_code.0),
    {
        self.push_key_raw(key_code);
        self.report_current();
    }

    fn push_key_raw(&mut self, key_code: KeyCode)
        requires
            old(self).wf(),
        ensures
            final(self).wf(),
            final(self)@ == (ReportStateView {
                user_keys: with_key(old(self)@.user_keys, key_code.0),
                ..old(self)@.with_report_keys(with_key(old(self)@.report.keycodes, key_code.0))
            }),
    {
        Self::push_key_to_arr(key_code, &mut self.user_key_state);
        Self::push_key_to_arr(key_code, &mut self.inner_report.keycodes);
    }

    /// Puts `key_code` in the first free slot, or leaves it where it
    /// already is; with no room the oldest key is dropped.
    pub fn push_key_to_arr(key_code: KeyCode, arr: &mut [u8; 6])
        ensures
            final(arr)@ == with_key(old(arr)@, key_code.0),
    {
        let k = key_code.0;
        let mut i: usize = 0;
        while i < 6
            invariant
                i <= 6,
                arr@ == old(arr)@,
                arr@.len() == 6,
                k == key_code.0,
                slot_for(old(arr)@, k, 0) == slot_for(old(arr)@, k, i as int),
            decreases 6 - i,
        {
            if arr[i] == 0 || arr[i] == k {
                assert(slot_for(old(arr)@, k, i as int) == i);
                arr[i] = k;
                return;
            }
            i = i + 1;
        }
        assert(slot_for(old(arr)@, k, 6) == 6);
        let mut j: usize = 0;
        while j < 5
            invariant
                j <= 5,
                arr@.len() == 6,
                k == key_code.0,
                slot_for(old(arr)@, k, 0) == 6,
                forall|x: int| 0 <= x < j ==> arr@[x] == old(arr)@[x + 1],
                forall|x: int| j <= x < 6 ==> arr@[x] == old(arr)@[x],
            decreases 5 - j,
        {
            arr[j] = arr[j + 1];
            j = j + 1;
        }
        arr[5] = k;
        assert(arr@ =~= old(arr)@.subrange(1, 6).push(k));
    }

    /// Releases `key_code` from the keys: it is looked for up to the first
    /// free slot, and on success the keys after it move down one slot.
    pub fn pop_key_from_arr(key_code: KeyCode, arr: &mut [u8; 6]) -> (r: bool)
        ensures
            r == (key_position(old(arr)@, key_code.0, 0) is Some),
            match key_position(old(arr)@, key_code.0, 0) {
                Some(i) => final(arr)@ == without_slot(old(arr)@, i),
                None => final(arr)@ == old(arr)@,
            },
    {
        let k = key_code.0;
        let mut i: usize = 0;
        while i < 6
            invariant
                i <= 6,
                arr@ == old(arr)@,
                arr@.len() == 6,
                k == key_code.0,
                key_position(old(arr)@, k, 0) == key_position(old(arr)@, k, i as int),
            decreases 6 - i,
        {
            if arr[i] == k {
                assert(key_position(old(arr)@, k, i as int) == Some(i as int));
                Self::pop_copy_back_arr(i, arr);
                return true;
            } else if arr[i] == 0 {
                assert(key_position(old(arr)@, k, i as int) == None::<int>);
                return false;
            }
            i = i + 1;
        }
        assert(key_position(old(arr)@, k, 6) == None::<int>);
        false
    }

    /// Removes slot `ind`, moving the later keys down and freeing the last
    /// slot.
    fn pop_copy_back_arr(ind: usize, arr: &mut [u8; 6])
        requires
            ind < 6,
        ensures
            final(arr)@ == without_slot(old(arr)@, ind as int),
    {
        arr[ind] = 0;
        let mut j: usize = ind;
        while j < 5
            invariant
                ind <= j <= 5,
                arr@.len() == 6,
                forall|x: int| 0 <= x < ind ==> arr@[x] == old(arr)@[x],
                forall|x: int| ind <= x < j ==> arr@[x] == old(arr)@[x + 1],
                forall|x: int| j < x < 6 ==> arr@[x] == old(arr)@[x],
            decreases 5 - j,
        {
            arr[j] = arr[j + 1];
            j = j + 1;
        }
        arr[5] = 0;
        assert(arr@ =~= without_slot(old(arr)@, ind as int));
    }

    /// Releases `key_code` for the user; the report's keys become the
    /// user's and are reported, if the key was held.
    pub(crate) fn pop_key(&mut self, key_code: KeyCode)
        requires
            old(self).wf(),
        ensures
            final(self).wf(),
            final(self)@ == old(self)@.pop_key(key_code.0),
    {
        if Self::pop_key_from_arr(key_code, &mut self.user_key_state) {
            self.inner_report.keycodes = self.user_key_state;
            self.report_current();
        }
    }

    pub(crate) fn temp_modify(&mut self, key_code: KeyCode, add_modifiers: &[Modifier], remove_modifiers: &[Modifier])
        requires
            old(self).wf(),
        ensures
            final(self).wf(),
            final(self)@ == old(self)@.temp_modify(key_code.0, add_modifiers@, remove_modifiers@),
    {
        self.push_temp_modifiers(add_modifiers);
        self.temp_remove_modifiers(remove_modifiers);
        self.push_temp_key(key_code);
    }

    fn push_temp_modifiers(&mut self, modifier: &[Modifier])
        requires
            old(self).wf(),
        ensures
            final(self).wf(),
            final(self)@ == old(self)@.push_temp_modifiers(modifier@),
    {
        assert(modifier@.subrange(0, modifier@.len() as int) =~= modifier@);
        let mut i: usize = 0;
        while i < modifier.len()
            invariant
                i <= modifier@.len(),
                self.wf(),
                old(self)@.push_temp_modifiers(modifier@) == self@.push_temp_modifiers(
                    modifier@.subrange(i as int, modifier@.len() as int),
                ),
            decreases modifier@.len() - i,
        {
            let m = modifier[i];
            proof {
                let rest = modifier@.subrange(i as int, modifier@.len() as int);
                assert(rest[0] == m);
                assert(rest.drop_first() =~= modifier@.subrange(i + 1, modifier@.len() as int));
            }
            if self.inner_report.modifier & m.0 == 0 {
                self.inner_report.modifier = self.inner_report.modifier | m.0;
                self.report_current();
            }
            i = i + 1;
        }
        proof {
            assert(modifier@.subrange(i as int, modifier@.len() as int) =~= Seq::<Modifier>::empty());
        }
    }

    fn temp_remove_modifiers(&mut self, modifier: &[Modifier])
        requires
            old(self).wf(),
        ensures
            final(self).wf(),
            final(self)@ == old(self)@.temp_remove_modifiers(modifier@),
    {
        assert(modifier@.subrange(0, modifier@.len() as int) =~= modifier@);
        let mut i: usize = 0;
        while i < modifier.len()
            invariant
                i <= modifier@.len(),
                self.wf(),
                old(self)@.temp_remove_modifiers(modifier@) == self@.temp_remove_modifiers(
                    modifier@.subrange(i as int, modifier@.len() as int),
                ),
            decreases modifier@.len() - i,
        {
            let m = modifier[i];
            proof {
                let rest = modifier@.subrange(i as int, modifier@.len() as int);
                assert(rest[0] == m);
                assert(rest.drop_first() =~= modifier@.subrange(i + 1, modifier@.len() as int));
            }
            if self.inner_report.modifier & m.0 != 0 {
                self.inner_report.modifier = self.inner_report.modifier & !m.0;
                self.report_current();
            }
            i = i + 1;
        }
        proof {
            assert(modifier@.subrange(i as int, modifier@.len() as int) =~= Seq::<Modifier>::empty());
        }
    }

    pub(crate) fn push_temp_key(&mut self, key_code: KeyCode)
        requires
            old(self).wf(),
        ensures
            final(self).wf(),
            final(self)@ == old(self)@.push_temp_key(key_code.0),
    {
        Self::push_key_to_arr(key_code, &mut self.inner_report.keycodes);
        self.report_current();
    }

    pub(crate) fn pop_temp_key(&mut self, key_code: KeyCode)
        requires
            old(self).wf(),
        ensures
            final(self).wf(),
            final(self)@ == old(self)@.pop_temp_key(key_code.0),
    {
        if Self::pop_key_from_arr(key_code, &mut self.inner_report.keycodes) {
            self.report_current();
        }
    }

    pub(crate) fn push_modifier(&mut self, modifier: Modifier)
        requires
            old(self).wf(),
        ensures
            final(self).wf(),
            final(self)@ == old(self)@.push_modifier(modifier.0),
    {
        let before = self.user_mods.0;
        let m = modifier.0;
        if before & m == 0 {
            self.user_mods.0 = before | m;
        }
        if self.inner_report.modifier & modifier.0 == 0 {
            self.inner_report.modifier = self.inner_report.modifier | modifier.0;
            self.report_current();
        }
    }

    pub(crate) fn pop_modifier(&mut self, modifier: Modifier)
        requires
            old(self).wf(),
        ensures
            final(self).wf(),
            final(self)@ == old(self)@.pop_modifier(modifier.0),
    {
        if self.user_mods.0 & modifier.0 != 0 {
            self.user_mods.0 = self.user_mods.0 & !modifier.0;
            if self.inner_report.modifier != self.user_mods.0 {
                self.inner_report.modifier = self.user_mods.0;
                self.report_current();
            }
        }
    }

    pub(crate) fn has_user_modifier(&self, modifier: Modifier) -> (r: bool)
        ensures
            r == self@.has_user_modifier(modifier.0),
    {
        self.user_mods.0 & modifier.0 != 0
    }

    pub(crate) fn push_layer_with_fallback(&mut self, keymap_layer: KeymapLayer)
        requires
            old(self).wf(),
        ensures
            final(self).wf(),
            final(self)@ == old(self)@.push_layer_with_fallback(keymap_layer),
    {
        if let Some(old) = self.last_perm_layer.take() {
            self.active_layer = old;
        }
        let previous = self.active_layer;
        self.active_layer = keymap_layer;
        self.last_perm_layer = Some(previous);
    }

    pub(crate) fn pop_layer(&mut self, this: KeymapLayer)
        requires
            old(self).wf(),
        ensures
            final(self).wf(),
            final(self)@ == old(self)@.pop_layer(this),
    {
        if self.active_layer == this {
            if let Some(old) = self.last_perm_layer.take() {
                self.active_layer = old;
            }
        }
    }

    pub(crate) fn set_perm_layer(&mut self, keymap_layer: KeymapLayer)
        requires
            old(self).wf(),
        ensures
            final(self).wf(),
            final(self)@ == old(self)@.set_perm_layer(keymap_layer),
    {
        if keymap_layer != self.active_layer {
            self.active_layer = keymap_layer;
            self.last_perm_layer = None;
        }
    }

    /// The permanent layer to fall back to, and the layer in force.
    pub(crate) fn layers(&self) -> (r: (Option<KeymapLayer>, KeymapLayer))
        ensures
            r == (self@.last_perm_layer, self@.active_layer),
    {
        (self.last_perm_layer, self.active_layer)
    }

    /// The layer in force.
    pub fn active_layer(&self) -> (r: KeymapLayer)
        ensures
            r == self@.active_layer,
    {
        self.active_layer
    }

    pub(crate) fn jank(&self) -> (r: JankState)
        ensures
            r == self@.jank,
    {
        self.jank
    }

    pub(crate) fn set_jank(&mut self, jank: JankState)
        requires
            old(self).wf(),
        ensures
            final(self).wf(),
            final(self)@ == (ReportStateView { jank, ..old(self)@ }),
    {
        self.jank = jank;
    }

    /// What the key press that is being handled records for its release.
    pub(crate) fn last_press(&self) -> (r: LastPressState)
        ensures
            r == self@.last_press(),
    {
        LastPressState {
            generation: self.generation,
            layer: self.active_layer,
            last_perm_layer: self.last_perm_layer,
        }
    }

    fn report_current(&mut self)
        requires
            old(self).wf(),
        ensures
            final(self).wf(),
            final(self)@ == old(self)@.emit(),
    {
        let ghost before = self.outbound_reports@;
        let copy = copy_report(&self.inner_report);
        let _ = self.outbound_reports.push_back(copy);
        proof {
            lemma_pushed_views(before, self.outbound_reports.start(), copy);
        }
    }
}


/// Held keys fill the slots from the front: no key after a free slot.
pub open spec fn packed(keys: Seq<u8>) -> bool {
    &&& keys.len() == 6
    &&& forall|i: int, j: int| 0 <= i < j < 6 && keys[i] == 0 ==> keys[j] == 0
}

proof fn lemma_slot_is_first_free(keys: Seq<u8>, k: u8, i: int)
    requires
        packed(keys),
        0 <= i <= 6,
        forall|j: int| 0 <= j < i ==> keys[j] != 0 && keys[j] != k,
        k != 0,
        key_position(keys, k, 0) is None,
    ensures
        slot_for(keys, k, i) < 6 ==> keys[slot_for(keys, k, i)] == 0,
        slot_for(keys, k, i) >= i,
        forall|j: int| i <= j < slot_for(keys, k, i) && j < 6 ==> keys[j] != 0 && keys[j] != k,
    decreases 6 - i,
{
    lemma_absent_scan(keys, k, 0, i);
    if i < 6 && !(keys[i] == 0 || keys[i] == k) {
        lemma_slot_is_first_free(keys, k, i + 1);
    }
}

proof fn lemma_absent_scan(keys: Seq<u8>, k: u8, i: int, j: int)
    requires
        keys.len() == 6,
        0 <= i <= j <= 6,
        forall|x: int| i <= x < j ==> keys[x] != 0 && keys[x] != k,
    ensures
        key_position(keys, k, i) == key_position(keys, k, j),
    decreases j - i,
{
    if i < j {
        lemma_absent_scan(keys, k, i + 1, j);
    }
}

/// A key that is not held goes into the first free slot, and releasing it
/// gives back the keys held before.
pub proof fn lemma_with_key_then_without(keys: Seq<u8>, k: u8)
    requires
        packed(keys),
        k != 0,
        key_position(keys, k, 0) is None,
        keys[5] == 0,
    ensures
        key_position(with_key(keys, k), k, 0) matches Some(i) && without_slot(with_key(keys, k), i) == keys,
{
    lemma_slot_is_first_free(keys, k, 0);
    let z = slot_for(keys, k, 0);
    assert(z < 6) by {
        if z >= 6 {
            assert(keys[5] != 0);
        }
    }
    let pushed_keys = keys.update(z, k);
    assert(forall|x: int| 0 <= x < z ==> pushed_keys[x] != 0 && pushed_keys[x] != k);
    lemma_absent_scan(pushed_keys, k, 0, z);
    assert(key_position(pushed_keys, k, z) == Some(z));
    assert(without_slot(pushed_keys, z) =~= keys);
}

/// Pressing a key that is not held and releasing it leaves the user's keys
/// as they were, and the report showing them.
pub proof fn lemma_push_then_pop_key(m: ReportStateView, k: u8)
    requires
        packed(m.user_keys),
        k != 0,
        key_position(m.user_keys, k, 0) is None,
        m.user_keys[5] == 0,
    ensures
        m.push_key(k).pop_key(k).user_keys == m.user_keys,
        m.push_key(k).pop_key(k).report.keycodes == m.user_keys,
        m.push_key(k).pop_key(k).user_mods == m.user_mods,
{
    lemma_with_key_then_without(m.user_keys, k);
}

/// Holding a modifier the user did not hold and letting it go leaves the
/// user's modifiers as they were, and the report showing them.
pub proof fn lemma_push_then_pop_modifier(m: ReportStateView, x: u8)
    requires
        m.user_mods & x == 0,
        x != 0,
    ensures
        m.push_modifier(x).pop_modifier(x).user_mods == m.user_mods,
        m.push_modifier(x).pop_modifier(x).report.modifier == m.user_mods,
        m.push_modifier(x).pop_modifier(x).user_keys == m.user_keys,
{
    let u = m.user_mods;
    assert((u | x) & x != 0 && ((u | x) & !x) == u) by (bit_vector)
        requires
            u & x == 0,
            x != 0,
    ;
}

/// Going back to the user's state makes the report show exactly what the
/// user holds.
pub proof fn lemma_restore_shows_user_state(m: ReportStateView)
    ensures
        m.restore_to_user_state().report.modifier == m.user_mods,
        m.restore_to_user_state().report.keycodes == m.user_keys,
        m.restore_to_user_state().user_mods == m.user_mods,
        m.restore_to_user_state().user_keys == m.user_keys,
{
}

/// A temporary layer entered from a permanent layer and left again brings
/// the permanent layer back.
pub proof fn lemma_temp_layer_round_trip(m: ReportStateView, layer: KeymapLayer)
    requires
        m.last_perm_layer is None,
    ensures
        m.push_layer_with_fallback(layer).pop_layer(layer).active_layer == m.active_layer,
        m.push_layer_with_fallback(layer).pop_layer(layer).last_perm_layer is None,
{
}

/// Entering a temporary layer while another one is in force falls back to
/// the same permanent layer.
pub proof fn lemma_temp_layers_do_not_stack(m: ReportStateView, first: KeymapLayer, second: KeymapLayer)
    ensures
        m.push_layer_with_fallback(first).push_layer_with_fallback(second).last_perm_layer == Some(
            m.base_layer(),
        ),
        m.push_layer_with_fallback(first).push_layer_with_fallback(second).active_layer == second,
{
}

} // verus!
