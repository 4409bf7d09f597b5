//! The keymap: what each key does on each layer, and how a press or a
//! release changes the report state.
use vstd::prelude::*;
use crate::keycodes as kc;
use crate::keycodes::{KeyCode, Modifier};
use crate::keymap::{JankState, KeyboardReportState, KeymapLayer, LastPressState, ReportStateView};
use crate::layout::{
    left_press_action, left_release_action, right_press_action, right_release_action,
};
use crate::layout as lay;

verus! {

/// The two halves of the keyboard.
#[derive(Debug, Copy, Clone, PartialEq, Eq, Structural)]
pub enum Side {
    Left,
    Right,
}

/// What a key asks of the core that drives the display and the reboot.
#[derive(Debug, Copy, Clone, PartialEq, Eq, Structural)]
pub enum KeyNotice {
    /// The base layer shown on the display.
    LayerChange(KeymapLayer),
    /// Reboot into the USB bootloader.
    Reboot,
}

/// What a key does when it goes down.
#[derive(Debug, Copy, Clone, PartialEq, Eq, Structural)]
pub enum PressAction {
    Nothing,
    /// Press a key for the user.
    Key(u8),
    /// Send a key with one or two modifiers (the second one when it is not
    /// zero) added for this key only.
    Temp(u8, u8, u8),
    /// Hold a modifier for the user.
    Modifier(u8),
    /// Switch to a temporary layer, announcing the base layer.
    TempLayer(KeymapLayer),
    /// Switch to a permanent layer, announcing it.
    PermLayer(KeymapLayer),
    Reboot,
    /// `"` when shifted, `'` otherwise, on Swedish layouts.
    ShiftedQuote,
    /// The given key with shift taken off when shifted (`<`), a comma
    /// otherwise.
    AngleOrComma(u8),
    /// The given key when shifted (`>`), a dot otherwise.
    AngleOrDot(u8),
    /// `:` when shifted, `;` otherwise, on Swedish layouts.
    ColonOrSemicolon,
    /// `~` typed twice with right alt, so that it comes out at once.
    TildeTwice,
    /// `~` with left alt followed by a space, so that it comes out at once.
    TildeSpace,
    /// `^` followed by a space.
    Circumflex,
    /// `=` when shifted; otherwise shifted `=` typed twice.
    EqualsTwice,
    /// Shifted `=` followed by a space.
    EqualsSpace,
}

/// What a key does when it comes up.
#[derive(Debug, Copy, Clone, PartialEq, Eq, Structural)]
pub enum ReleaseAction {
    Nothing,
    /// Release a key held for the user.
    Key(u8),
    /// Go back to the user's keys and modifiers, unless another key went
    /// down since.
    Restore,
    /// Release a modifier held for the user.
    Modifier(u8),
    /// Leave a temporary layer, announcing the layer then in force.
    TempLayer(KeymapLayer),
    /// Press a key for the user.
    PressKey(u8),
    /// Undo [`PressAction::ShiftedQuote`].
    Quote,
    /// Undo [`PressAction::AngleOrComma`].
    AngleOrComma,
    /// Undo [`PressAction::AngleOrDot`] for the given key.
    AngleOrDot(u8),
    /// Undo [`PressAction::ColonOrSemicolon`].
    ColonOrSemicolon,
}

/// Whether `layer` is the base layer: the one a temporary layer falls back
/// to, or the one in force when no temporary layer is.
pub open spec fn on_base(perm: Option<KeymapLayer>, active: KeymapLayer, layer: KeymapLayer) -> bool {
    perm == Some(layer) || (perm is None && active == layer)
}

fn base_is(perm: Option<KeymapLayer>, active: KeymapLayer, layer: KeymapLayer) -> (r: bool)
    ensures
        r == on_base(perm, active, layer),
{
    match perm {
        Some(p) => p == layer,
        None => active == layer,
    }
}

/// The modifier list of a [`PressAction::Temp`].
pub open spec fn temp_mods(first: u8, second: u8) -> Seq<Modifier> {
    if second == 0 {
        seq![Modifier(first)]
    } else {
        seq![Modifier(first), Modifier(second)]
    }
}

pub open spec fn with_jank(m: ReportStateView, jank: JankState) -> ReportStateView {
    ReportStateView { jank, ..m }
}

/// The report state after a key whose action is `a` goes down, and what it
/// announces.
pub open spec fn apply_press(a: PressAction, m: ReportStateView) -> (ReportStateView, Option<KeyNotice>) {
    match a {
        PressAction::Nothing => (m, None),
        PressAction::Key(k) => (m.push_key(k), None),
        PressAction::Temp(k, first, second) => (m.temp_modify(k, temp_mods(first, second), seq![]), None),
        PressAction::Modifier(x) => (m.push_modifier(x), None),
        PressAction::TempLayer(l) => (
            m.push_layer_with_fallback(l),
            Some(KeyNotice::LayerChange(m.base_layer())),
        ),
        PressAction::PermLayer(l) => {
            let n = m.set_perm_layer(l);
            (n, Some(KeyNotice::LayerChange(n.active_layer)))
        },
        PressAction::Reboot => (m, Some(KeyNotice::Reboot)),
        PressAction::ShiftedQuote => if m.has_user_modifier(kc::ANY_SHIFT) {
            (with_jank(m, JankState { pressing_double_quote: true, ..m.jank }).push_key(kc::N2), None)
        } else {
            (with_jank(m, JankState { pressing_single_quote: true, ..m.jank }).push_key(kc::BACKSLASH), None)
        },
        PressAction::AngleOrComma(k) => if m.has_user_modifier(kc::LEFT_SHIFT) {
            (
                with_jank(
                    m.temp_modify(k, seq![], seq![Modifier(kc::LEFT_SHIFT)]),
                    JankState { pressing_left_bracket: true, ..m.jank },
                ),
                None,
            )
        } else {
            (with_jank(m.push_key(kc::COMMA), JankState { pressing_comma: true, ..m.jank }), None)
        },
        PressAction::AngleOrDot(k) => if m.has_user_modifier(kc::LEFT_SHIFT) {
            (with_jank(m.push_key(k), JankState { pressing_right_bracket: true, ..m.jank }), None)
        } else {
            (with_jank(m.push_key(kc::DOT), JankState { pressing_dot: true, ..m.jank }), None)
        },
        PressAction::ColonOrSemicolon => if m.has_user_modifier(kc::LEFT_SHIFT) {
            (
                with_jank(
                    m.temp_modify(kc::DOT, seq![Modifier(kc::LEFT_SHIFT)], seq![]),
                    JankState { pressing_reg_colon: true, ..m.jank },
                ),
                None,
            )
        } else {
            (
                with_jank(
                    m.temp_modify(kc::COMMA, seq![Modifier(kc::LEFT_SHIFT)], seq![]),
                    JankState { pressing_semicolon: true, ..m.jank },
                ),
                None,
            )
        },
        PressAction::TildeTwice => (
            m.temp_modify(kc::RIGHT_BRACKET, seq![Modifier(kc::RIGHT_ALT)], seq![]).pop_temp_key(
                kc::RIGHT_BRACKET,
            ).temp_modify(kc::RIGHT_BRACKET, seq![Modifier(kc::RIGHT_ALT)], seq![]),
            None,
        ),
        PressAction::TildeSpace => (
            m.temp_modify(kc::RIGHT_BRACKET, seq![Modifier(kc::LEFT_ALT)], seq![]).pop_temp_key(
                kc::RIGHT_BRACKET,
            ).temp_modify(kc::SPACE, seq![], seq![Modifier(kc::LEFT_ALT)]),
            None,
        ),
        PressAction::Circumflex => (
            m.temp_modify(kc::RIGHT_BRACKET, seq![Modifier(kc::LEFT_SHIFT)], seq![]).push_temp_key(
                kc::RIGHT_BRACKET,
            ).temp_modify(kc::SPACE, seq![], seq![Modifier(kc::LEFT_SHIFT)]),
            None,
        ),
        PressAction::EqualsTwice => if m.has_user_modifier(kc::ANY_SHIFT) {
            (m.push_key(kc::EQUALS), None)
        } else {
            (
                m.temp_modify(kc::EQUALS, seq![Modifier(kc::LEFT_SHIFT)], seq![]).pop_temp_key(
                    kc::EQUALS,
                ).push_temp_key(kc::EQUALS),
                None,
            )
        },
        PressAction::EqualsSpace => (
            m.temp_modify(kc::EQUALS, seq![Modifier(kc::LEFT_SHIFT)], seq![]).pop_temp_key(
                kc::EQUALS,
            ).push_temp_key(kc::SPACE),
            None,
        ),
    }
}

/// The report state after a key whose action is `a` comes up, given what
/// held when it went down, and what it announces.
pub open spec fn apply_release(a: ReleaseAction, prev: LastPressState, m: ReportStateView) -> (
    ReportStateView,
    Option<KeyNotice>,
) {
    match a {
        ReleaseAction::Nothing => (m, None),
        ReleaseAction::Key(k) => (m.pop_key(k), None),
        ReleaseAction::Restore => (m.restore_to_user_if_not_stale(prev.generation), None),
        ReleaseAction::Modifier(x) => (m.pop_modifier(x), None),
        ReleaseAction::TempLayer(l) => {
            let n = m.pop_layer(l);
            (n, Some(KeyNotice::LayerChange(n.active_layer)))
        },
        ReleaseAction::PressKey(k) => (m.push_key(k), None),
        ReleaseAction::Quote => {
            let a = if m.jank.pressing_double_quote {
                with_jank(m.pop_key(kc::N2), JankState { pressing_double_quote: false, ..m.jank })
            } else {
                m
            };
            let b = if a.jank.pressing_single_quote {
                with_jank(a, JankState { pressing_single_quote: false, ..a.jank }).pop_key(kc::BACKSLASH)
            } else {
                a
            };
            (b, None)
        },
        ReleaseAction::AngleOrComma => {
            let a = if m.jank.pressing_left_bracket {
                let r = if !m.jank.pressing_right_bracket {
                    m.restore_to_user_if_not_stale(prev.generation)
                } else {
                    m
                };
                with_jank(r, JankState { pressing_left_bracket: false, ..r.jank })
            } else {
                m
            };
            let b = if a.jank.pressing_comma {
                with_jank(a.pop_key(kc::COMMA), JankState { pressing_comma: false, ..a.jank })
            } else {
                a
            };
            (b, None)
        },
        ReleaseAction::AngleOrDot(k) => {
            let a = if m.jank.pressing_right_bracket {
                with_jank(m.pop_key(k), JankState { pressing_right_bracket: false, ..m.jank })
            } else {
                m
            };
            let b = if a.jank.pressing_dot {
                with_jank(a.pop_key(kc::DOT), JankState { pressing_dot: false, ..a.jank })
            } else {
                a
            };
            (b, None)
        },
        ReleaseAction::ColonOrSemicolon => {
            let r = m.restore_to_user_if_not_stale(prev.generation);
            (
                with_jank(
                    r,
                    JankState { pressing_reg_colon: false, pressing_semicolon: false, ..r.jank },
                ),
                None,
            )
        },
    }
}

/// What a key does when it goes down.
pub open spec fn press_action(side: Side, index: u8, perm: Option<KeymapLayer>, active: KeymapLayer) -> PressAction {
    match side {
        Side::Left => left_press_action(index, perm, active),
        Side::Right => right_press_action(index, perm, active),
    }
}

/// What a key does when it comes up, by what held when it went down.
pub open spec fn release_action(side: Side, index: u8, prev: LastPressState) -> ReleaseAction {
    match side {
        Side::Left => left_release_action(index, prev.last_perm_layer, prev.layer),
        Side::Right => right_release_action(index, prev.last_perm_layer, prev.layer),
    }
}

/// The report state after the key `index` of `side` goes down.
#[verifier::opaque]
pub open spec fn press_effect(side: Side, index: u8, m: ReportStateView) -> (ReportStateView, Option<KeyNotice>) {
    apply_press(press_action(side, index, m.last_perm_layer, m.active_layer), m)
}

/// The report state after the key `index` of `side` comes up.
#[verifier::opaque]
pub open spec fn release_effect(side: Side, index: u8, prev: LastPressState, m: ReportStateView) -> (
    ReportStateView,
    Option<KeyNotice>,
) {
    apply_release(release_action(side, index, prev), prev, m)
}

/// Handles the key `index` of `side` going down.
pub fn on_press(side: Side, index: u8, state: &mut KeyboardReportState) -> (r: Option<KeyNotice>)
    requires
        old(state).wf(),
    ensures
        final(state).wf(),
        (final(state)@, r) == press_effect(side, index, old(state)@),
{
    proof {
        reveal(press_effect);
    }
    let (perm, active) = state.layers();
    let action = match side {
        Side::Left => exec_left_press_action(index, perm, active),
        Side::Right => exec_right_press_action(index, perm, active),
    };
    run_press(action, state)
}

/// Handles the key `index` of `side` coming up.
pub fn on_release(side: Side, index: u8, prev: LastPressState, state: &mut KeyboardReportState) -> (r: Option<
    KeyNotice,
>)
    requires
        old(state).wf(),
    ensures
        final(state).wf(),
        (final(state)@, r) == release_effect(side, index, prev, old(state)@),
{
    proof {
        reveal(release_effect);
    }
    let action = match side {
        Side::Left => exec_left_release_action(index, prev.last_perm_layer, prev.layer),
        Side::Right => exec_right_release_action(index, prev.last_perm_layer, prev.layer),
    };
    run_release(action, prev, state)
}

/// Sends `k` with the modifier `m` added for this key only.
fn temp_modify_adding(k: u8, m: u8, state: &mut KeyboardReportState)
    requires
        old(state).wf(),
    ensures
        final(state).wf(),
        final(state)@ == old(state)@.temp_modify(k, seq![Modifier(m)], seq![]),
{
    let add = [Modifier(m)];
    let remove: [Modifier; 0] = [];
    assert(add@ =~= seq![Modifier(m)]);
    assert(remove@ =~= Seq::<Modifier>::empty());
    state.temp_modify(KeyCode(k), &add, &remove);
}

/// Sends `k` with the modifiers `first` and `second` added for this key
/// only.
fn temp_modify_adding_two(k: u8, first: u8, second: u8, state: &mut KeyboardReportState)
    requires
        old(state).wf(),
    ensures
        final(state).wf(),
        final(state)@ == old(state)@.temp_modify(k, seq![Modifier(first), Modifier(second)], seq![]),
{
    let add = [Modifier(first), Modifier(second)];
    let remove: [Modifier; 0] = [];
    assert(add@ =~= seq![Modifier(first), Modifier(second)]);
    assert(remove@ =~= Seq::<Modifier>::empty());
    state.temp_modify(KeyCode(k), &add, &remove);
}

/// Sends `k` with the modifier `m` taken off for this key only.
fn temp_modify_removing(k: u8, m: u8, state: &mut KeyboardReportState)
    requires
        old(state).wf(),
    ensures
        final(state).wf(),
        final(state)@ == old(state)@.temp_modify(k, seq![], seq![Modifier(m)]),
{
    let add: [Modifier; 0] = [];
    let remove = [Modifier(m)];
    assert(add@ =~= Seq::<Modifier>::empty());
    assert(remove@ =~= seq![Modifier(m)]);
    state.temp_modify(KeyCode(k), &add, &remove);
}

fn run_press(a: PressAction, state: &mut KeyboardReportState) -> (r: Option<KeyNotice>)
    requires
        old(state).wf(),
    ensures
        final(state).wf(),
        (final(state)@, r) == apply_press(a, old(state)@),
{
    match a {
        PressAction::Nothing => None,
        PressAction::Key(k) => {
            state.push_key(KeyCode(k));
            None
        },
        PressAction::Temp(k, first, second) => {
            if second == 0 {
                temp_modify_adding(k, first, state);
            } else {
                temp_modify_adding_two(k, first, second, state);
            }
            None
        },
        PressAction::Modifier(x) => {
            state.push_modifier(Modifier(x));
            None
        },
        PressAction::TempLayer(l) => {
            let (perm, active) = state.layers();
            let base = match perm {
                Some(p) => p,
                None => active,
            };
            state.push_layer_with_fallback(l);
            Some(KeyNotice::LayerChange(base))
        },
        PressAction::PermLayer(l) => {
            state.set_perm_layer(l);
            Some(KeyNotice::LayerChange(state.active_layer()))
        },
        PressAction::Reboot => Some(KeyNotice::Reboot),
        PressAction::ShiftedQuote => {
            press_shifted_quote(state);
            None
        },
        PressAction::AngleOrComma(k) => {
            press_angle_or_comma(k, state);
            None
        },
        PressAction::AngleOrDot(k) => {
            press_angle_or_dot(k, state);
            None
        },
        PressAction::ColonOrSemicolon => {
            press_colon_or_semicolon(state);
            None
        },
        PressAction::TildeTwice => {
            press_tilde_twice(state);
            None
        },
        PressAction::TildeSpace => {
            press_tilde_space(state);
            None
        },
        PressAction::Circumflex => {
            press_circumflex(state);
            None
        },
        PressAction::EqualsTwice => {
            press_equals_twice(state);
            None
        },
        PressAction::EqualsSpace => {
            press_equals_space(state);
            None
        },
    }
}

fn press_shifted_quote(state: &mut KeyboardReportState)
    requires
        old(state).wf(),
    ensures
        final(state).wf(),
        (final(state)@, None::<KeyNotice>) == apply_press(PressAction::ShiftedQuote, old(state)@),
{
    let jank = state.jank();
    if state.has_user_modifier(Modifier(kc::ANY_SHIFT)) {
        state.set_jank(JankState { pressing_double_quote: true, ..jank });
        state.push_key(KeyCode(kc::N2));
    } else {
        state.set_jank(JankState { pressing_single_quote: true, ..jank });
        state.push_key(KeyCode(kc::BACKSLASH));
    }
}

fn press_angle_or_comma(k: u8, state: &mut KeyboardReportState)
    requires
        old(state).wf(),
    ensures
        final(state).wf(),
        (final(state)@, None::<KeyNotice>) == apply_press(PressAction::AngleOrComma(k), old(state)@),
{
    let jank = state.jank();
    if state.has_user_modifier(Modifier(kc::LEFT_SHIFT)) {
        temp_modify_removing(k, kc::LEFT_SHIFT, state);
        state.set_jank(JankState { pressing_left_bracket: true, ..jank });
    } else {
        state.push_key(KeyCode(kc::COMMA));
        state.set_jank(JankState { pressing_comma: true, ..jank });
    }
}

fn press_angle_or_dot(k: u8, state: &mut KeyboardReportState)
    requires
        old(state).wf(),
    ensures
        final(state).wf(),
        (final(state)@, None::<KeyNotice>) == apply_press(PressAction::AngleOrDot(k), old(state)@),
{
    let jank = state.jank();
    if state.has_user_modifier(Modifier(kc::LEFT_SHIFT)) {
        state.push_key(KeyCode(k));
        state.set_jank(JankState { pressing_right_bracket: true, ..jank });
    } else {
        state.push_key(KeyCode(kc::DOT));
        state.set_jank(JankState { pressing_dot: true, ..jank });
    }
}

fn press_colon_or_semicolon(state: &mut KeyboardReportState)
    requires
        old(state).wf(),
    ensures
        final(state).wf(),
        (final(state)@, None::<KeyNotice>) == apply_press(PressAction::ColonOrSemicolon, old(state)@),
{
    let jank = state.jank();
    if state.has_user_modifier(Modifier(kc::LEFT_SHIFT)) {
        temp_modify_adding(kc::DOT, kc::LEFT_SHIFT, state);
        state.set_jank(JankState { pressing_reg_colon: true, ..jank });
    } else {
        temp_modify_adding(kc::COMMA, kc::LEFT_SHIFT, state);
        state.set_jank(JankState { pressing_semicolon: true, ..jank });
    }
}

fn press_tilde_twice(state: &mut KeyboardReportState)
    requires
        old(state).wf(),
    ensures
        final(state).wf(),
        (final(state)@, None::<KeyNotice>) == apply_press(PressAction::TildeTwice, old(state)@),
{
    temp_modify_adding(kc::RIGHT_BRACKET, kc::RIGHT_ALT, state);
    state.pop_temp_key(KeyCode(kc::RIGHT_BRACKET));
    temp_modify_adding(kc::RIGHT_BRACKET, kc::RIGHT_ALT, state);
}

fn press_tilde_space(state: &mut KeyboardReportState)
    requires
        old(state).wf(),
    ensures
        final(state).wf(),
        (final(state)@, None::<KeyNotice>) == apply_press(PressAction::TildeSpace, old(state)@),
{
    temp_modify_adding(kc::RIGHT_BRACKET, kc::LEFT_ALT, state);
    state.pop_temp_key(KeyCode(kc::RIGHT_BRACKET));
    temp_modify_removing(kc::SPACE, kc::LEFT_ALT, state);
}

fn press_circumflex(state: &mut KeyboardReportState)
    requires
        old(state).wf(),
    ensures
        final(state).wf(),
        (final(state)@, None::<KeyNotice>) == apply_press(PressAction::Circumflex, old(state)@),
{
    temp_modify_adding(kc::RIGHT_BRACKET, kc::LEFT_SHIFT, state);
    state.push_temp_key(KeyCode(kc::RIGHT_BRACKET));
    temp_modify_removing(kc::SPACE, kc::LEFT_SHIFT, state);
}

fn press_equals_twice(state: &mut KeyboardReportState)
    requires
        old(state).wf(),
    ensures
        final(state).wf(),
        (final(state)@, None::<KeyNotice>) == apply_press(PressAction::EqualsTwice, old(state)@),
{
    if state.has_user_modifier(Modifier(kc::ANY_SHIFT)) {
        state.push_key(KeyCode(kc::EQUALS));
    } else {
        temp_modify_adding(kc::EQUALS, kc::LEFT_SHIFT, state);
        state.pop_temp_key(KeyCode(kc::EQUALS));
        state.push_temp_key(KeyCode(kc::EQUALS));
    }
}

fn press_equals_space(state: &mut KeyboardReportState)
    requires
        old(state).wf(),
    ensures
        final(state).wf(),
        (final(state)@, None::<KeyNotice>) == apply_press(PressAction::EqualsSpace, old(state)@),
{
    temp_modify_adding(kc::EQUALS, kc::LEFT_SHIFT, state);
    state.pop_temp_key(KeyCode(kc::EQUALS));
    state.push_temp_key(KeyCode(kc::SPACE));
}

fn run_release(a: ReleaseAction, prev: LastPressState, state: &mut KeyboardReportState) -> (r: Option<
    KeyNotice,
>)
    requires
        old(state).wf(),
    ensures
        final(state).wf(),
        (final(state)@, r) == apply_release(a, prev, old(state)@),
{
    match a {
        ReleaseAction::Nothing => None,
        ReleaseAction::Key(k) => {
            state.pop_key(KeyCode(k));
            None
        },
        ReleaseAction::Restore => {
            state.restore_to_user_if_not_stale(prev.generation);
            None
        },
        ReleaseAction::Modifier(x) => {
            state.pop_modifier(Modifier(x));
            None
        },
        ReleaseAction::TempLayer(l) => {
            state.pop_layer(l);
            Some(KeyNotice::LayerChange(state.active_layer()))
        },
        ReleaseAction::PressKey(k) => {
            state.push_key(KeyCode(k));
            None
        },
        ReleaseAction::Quote => {
            release_quote(prev, state);
            None
        },
        ReleaseAction::AngleOrComma => {
            release_angle_or_comma(prev, state);
            None
        },
        ReleaseAction::AngleOrDot(k) => {
            release_angle_or_dot(k, prev, state);
            None
        },
        ReleaseAction::ColonOrSemicolon => {
            release_colon_or_semicolon(prev, state);
            None
        },
    }
}

fn release_quote(prev: LastPressState, state: &mut KeyboardReportState)
    requires
        old(state).wf(),
    ensures
        final(state).wf(),
        (final(state)@, None::<KeyNotice>) == apply_release(ReleaseAction::Quote, prev, old(state)@),
{
    if state.jank().pressing_double_quote {
        state.pop_key(KeyCode(kc::N2));
        let jank = state.jank();
        state.set_jank(JankState { pressing_double_quote: false, ..jank });
    }
    if state.jank().pressing_single_quote {
        let jank = state.jank();
        state.set_jank(JankState { pressing_single_quote: false, ..jank });
        state.pop_key(KeyCode(kc::BACKSLASH));
    }
}

fn release_angle_or_comma(prev: LastPressState, state: &mut KeyboardReportState)
    requires
        old(state).wf(),
    ensures
        final(state).wf(),
        (final(state)@, None::<KeyNotice>) == apply_release(ReleaseAction::AngleOrComma, prev, old(state)@),
{
    if state.jank().pressing_left_bracket {
        // These two share a key and interfere with each other.
        if !state.jank().pressing_right_bracket {
            state.restore_to_user_if_not_stale(prev.generation);
        }
        let jank = state.jank();
        state.set_jank(JankState { pressing_left_bracket: false, ..jank });
    }
    if state.jank().pressing_comma {
        state.pop_key(KeyCode(kc::COMMA));
        let jank = state.jank();
        state.set_jank(JankState { pressing_comma: false, ..jank });
    }
}

fn release_angle_or_dot(k: u8, prev: LastPressState, state: &mut KeyboardReportState)
    requires
        old(state).wf(),
    ensures
        final(state).wf(),
        (final(state)@, None::<KeyNotice>) == apply_release(ReleaseAction::AngleOrDot(k), prev, old(state)@),
{
    if state.jank().pressing_right_bracket {
        state.pop_key(KeyCode(k));
        let jank = state.jank();
        state.set_jank(JankState { pressing_right_bracket: false, ..jank });
    }
    if state.jank().pressing_dot {
        state.pop_key(KeyCode(kc::DOT));
        let jank = state.jank();
        state.set_jank(JankState { pressing_dot: false, ..jank });
    }
}

fn release_colon_or_semicolon(prev: LastPressState, state: &mut KeyboardReportState)
    requires
        old(state).wf(),
    ensures
        final(state).wf(),
        (final(state)@, None::<KeyNotice>) == apply_release(ReleaseAction::ColonOrSemicolon, prev, old(state)@),
{
    state.restore_to_user_if_not_stale(prev.generation);
    let jank = state.jank();
    state.set_jank(JankState { pressing_reg_colon: false, pressing_semicolon: false, ..jank });
}

fn exec_left_press_action(index: u8, perm: Option<KeymapLayer>, active: KeymapLayer) -> (r: PressAction)
    ensures
        r == left_press_action(index, perm, active),
{
    match index {
        0 => left_row0_col0_on_press(perm, active),
        1 => left_row0_col1_on_press(perm, active),
        2 => left_row0_col2_on_press(perm, active),
        3 => left_row0_col3_on_press(perm, active),
        4 => left_row0_col4_on_press(perm, active),
        5 => left_row0_col5_on_press(perm, active),
        6 => left_row1_col0_on_press(perm, active),
        7 => left_row1_col1_on_press(perm, active),
        8 => left_row1_col2_on_press(perm, active),
        9 => left_row1_col3_on_press(perm, active),
        10 => left_row1_col4_on_press(perm, active),
        11 => left_row1_col5_on_press(perm, active),
        12 => left_row2_col0_on_press(perm, active),
        13 => left_row2_col1_on_press(perm, active),
        14 => left_row2_col2_on_press(perm, active),
        15 => left_row2_col3_on_press(perm, active),
        16 => left_row2_col4_on_press(perm, active),
        17 => left_row2_col5_on_press(perm, active),
        18 => left_row3_col0_on_press(perm, active),
        19 => left_row3_col1_on_press(perm, active),
        20 => left_row3_col2_on_press(perm, active),
        21 => left_row3_col3_on_press(perm, active),
        22 => left_row3_col4_on_press(perm, active),
        23 => left_row3_col5_on_press(perm, active),
        25 => left_row4_col1_on_press(perm, active),
        26 => left_row4_col2_on_press(perm, active),
        27 => left_row4_col3_on_press(perm, active),
        28 => left_row4_col4_on_press(perm, active),
        29 => left_row4_col5_on_press(perm, active),
        _ => PressAction::Nothing,
    }
}

fn left_row0_col0_on_press(perm: Option<KeymapLayer>, active: KeymapLayer) -> (r: PressAction)
    ensures
        r == lay::left_row0_col0_press(perm, active),
{
    PressAction::Key(kc::TAB)
}

fn left_row0_col1_on_press(perm: Option<KeymapLayer>, active: KeymapLayer) -> (r: PressAction)
    ensures
        r == lay::left_row0_col1_press(perm, active),
{
    if active == KeymapLayer::Raise {
        PressAction::Key(kc::F1)
    } else if active == KeymapLayer::Lower || active == KeymapLayer::LowerAnsi || active == KeymapLayer::LowerSeMac {
        PressAction::Temp(kc::N1, kc::LEFT_SHIFT, 0)
    } else if base_is(perm, active, KeymapLayer::DvorakAnsi) {
        PressAction::Key(kc::COMMA)
    } else if base_is(perm, active, KeymapLayer::QwertyGaming) {
        PressAction::Key(kc::N1)
    } else if base_is(perm, active, KeymapLayer::DvorakSe) || base_is(perm, active, KeymapLayer::DvorakSeMac) {
        PressAction::ShiftedQuote
    } else {
        PressAction::Nothing
    }
}

fn left_row0_col2_on_press(perm: Option<KeymapLayer>, active: KeymapLayer) -> (r: PressAction)
    ensures
        r == lay::left_row0_col2_press(perm, active),
{
    if active == KeymapLayer::Settings {
        PressAction::Nothing
    } else if active == KeymapLayer::Num {
        PressAction::Nothing
    } else if active == KeymapLayer::Raise {
        PressAction::Key(kc::F2)
    } else if active == KeymapLayer::LowerAnsi {
        PressAction::Temp(kc::N2, kc::LEFT_SHIFT, 0)
    } else if active == KeymapLayer::Lower {
        PressAction::Temp(kc::N2, kc::RIGHT_ALT, 0)
    } else if active == KeymapLayer::LowerSeMac {
        PressAction::Temp(kc::N2, kc::LEFT_ALT, 0)
    } else if base_is(perm, active, KeymapLayer::DvorakAnsi) {
        PressAction::Key(kc::COMMA)
    } else if base_is(perm, active, KeymapLayer::DvorakSe) {
        PressAction::AngleOrComma(kc::NON_US_BACKSLASH)
    } else if base_is(perm, active, KeymapLayer::DvorakSeMac) {
        PressAction::AngleOrComma(kc::GRAVE)
    } else if base_is(perm, active, KeymapLayer::QwertyGaming) {
        PressAction::Key(kc::N2)
    } else {
        PressAction::Nothing
    }
}

fn left_row0_col3_on_press(perm: Option<KeymapLayer>, active: KeymapLayer) -> (r: PressAction)
    ensures
        r == lay::left_row0_col3_press(perm, active),
{
    if active == KeymapLayer::Raise {
        PressAction::Key(kc::F3)
    } else if active == KeymapLayer::Lower || active == KeymapLayer::LowerAnsi || active == KeymapLayer::LowerSeMac {
        PressAction::Temp(kc::N3, kc::LEFT_SHIFT, 0)
    } else if base_is(perm, active, KeymapLayer::DvorakAnsi) {
        PressAction::Key(kc::DOT)
    } else if base_is(perm, active, KeymapLayer::DvorakSe) {
        PressAction::AngleOrDot(kc::NON_US_BACKSLASH)
    } else if base_is(perm, active, KeymapLayer::DvorakSeMac) {
        PressAction::AngleOrDot(kc::GRAVE)
    } else if base_is(perm, active, KeymapLayer::QwertyGaming) {
        PressAction::Key(kc::N3)
    } else {
        PressAction::Nothing
    }
}

fn left_row0_col4_on_press(perm: Option<KeymapLayer>, active: KeymapLayer) -> (r: PressAction)
    ensures
        r == lay::left_row0_col4_press(perm, active),
{
    if active == KeymapLayer::Raise {
        PressAction::Key(kc::F4)
    } else if active == KeymapLayer::LowerAnsi {
        PressAction::Temp(kc::N4, kc::LEFT_SHIFT, 0)
    } else if active == KeymapLayer::Lower || active == KeymapLayer::LowerSeMac {
        PressAction::Temp(kc::N4, kc::RIGHT_ALT, 0)
    } else if base_is(perm, active, KeymapLayer::DvorakAnsi) {
        PressAction::Key(kc::P)
    } else if base_is(perm, active, KeymapLayer::DvorakSe) || base_is(perm, active, KeymapLayer::DvorakSeMac) {
        PressAction::Key(kc::P)
    } else if base_is(perm, active, KeymapLayer::QwertyGaming) {
        PressAction::Key(kc::N4)
    } else {
        PressAction::Nothing
    }
}

fn left_row0_col5_on_press(perm: Option<KeymapLayer>, active: KeymapLayer) -> (r: PressAction)
    ensures
        r == lay::left_row0_col5_press(perm, active),
{
    if active == KeymapLayer::Raise {
        PressAction::Key(kc::F4)
    } else if active == KeymapLayer::LowerAnsi {
        PressAction::Temp(kc::N5, kc::LEFT_SHIFT, 0)
    } else if active == KeymapLayer::Lower || active == KeymapLayer::LowerSeMac {
        PressAction::Temp(kc::N5, kc::LEFT_SHIFT, 0)
    } else if base_is(perm, active, KeymapLayer::DvorakAnsi) {
        PressAction::Key(kc::Y)
    } else if base_is(perm, active, KeymapLayer::DvorakSe) || base_is(perm, active, KeymapLayer::DvorakSeMac) {
        PressAction::Key(kc::Y)
    } else if base_is(perm, active, KeymapLayer::QwertyGaming) {
        PressAction::Key(kc::N5)
    } else {
        PressAction::Nothing
    }
}

fn left_row1_col0_on_press(perm: Option<KeymapLayer>, active: KeymapLayer) -> (r: PressAction)
    ensures
        r == lay::left_row1_col0_press(perm, active),
{
    PressAction::Key(kc::ESCAPE)
}

fn left_row1_col1_on_press(perm: Option<KeymapLayer>, active: KeymapLayer) -> (r: PressAction)
    ensures
        r == lay::left_row1_col1_press(perm, active),
{
    if active == KeymapLayer::Num {
        PressAction::Key(kc::N1)
    } else if active == KeymapLayer::Raise {
        PressAction::Key(kc::LEFT_ARROW)
    } else if active == KeymapLayer::LowerAnsi {
        PressAction::Key(kc::KP_PLUS)
    } else if active == KeymapLayer::Lower || active == KeymapLayer::LowerSeMac {
        PressAction::Key(kc::DASH)
    } else if base_is(perm, active, KeymapLayer::DvorakAnsi) {
        PressAction::Key(kc::A)
    } else if base_is(perm, active, KeymapLayer::DvorakSe) || base_is(perm, active, KeymapLayer::DvorakSeMac) {
        PressAction::Key(kc::A)
    } else if base_is(perm, active, KeymapLayer::QwertyGaming) {
        PressAction::Key(kc::T)
    } else {
        PressAction::Nothing
    }
}

fn left_row1_col2_on_press(perm: Option<KeymapLayer>, active: KeymapLayer) -> (r: PressAction)
    ensures
        r == lay::left_row1_col2_press(perm, active),
{
    if active == KeymapLayer::Num {
        PressAction::Key(kc::N2)
    } else if active == KeymapLayer::Raise {
        PressAction::Key(kc::RIGHT_ARROW)
    } else if active == KeymapLayer::LowerAnsi {
        PressAction::Key(kc::EQUALS)
    } else if active == KeymapLayer::Lower || active == KeymapLayer::LowerSeMac {
        PressAction::Temp(kc::N0, kc::LEFT_SHIFT, 0)
    } else if base_is(perm, active, KeymapLayer::DvorakAnsi) {
        PressAction::Key(kc::O)
    } else if base_is(perm, active, KeymapLayer::DvorakSe) || base_is(perm, active, KeymapLayer::DvorakSeMac) {
        PressAction::Key(kc::O)
    } else if base_is(perm, active, KeymapLayer::QwertyGaming) {
        PressAction::Key(kc::Q)
    } else {
        PressAction::Nothing
    }
}

fn left_row1_col3_on_press(perm: Option<KeymapLayer>, active: KeymapLayer) -> (r: PressAction)
    ensures
        r == lay::left_row1_col3_press(perm, active),
{
    if active == KeymapLayer::Num {
        PressAction::Key(kc::N3)
    } else if active == KeymapLayer::Raise {
        PressAction::Key(kc::UP_ARROW)
    } else if active == KeymapLayer::LowerAnsi {
        PressAction::Key(kc::LEFT_BRACKET)
    } else if active == KeymapLayer::Lower || active == KeymapLayer::LowerSeMac {
        PressAction::Temp(kc::N8, kc::RIGHT_ALT, 0)
    } else if base_is(perm, active, KeymapLayer::DvorakAnsi) {
        PressAction::Key(kc::E)
    } else if base_is(perm, active, KeymapLayer::DvorakSe) || base_is(perm, active, KeymapLayer::DvorakSeMac) {
        PressAction::Key(kc::E)
    } else if base_is(perm, active, KeymapLayer::QwertyGaming) {
        PressAction::Key(kc::W)
    } else {
        PressAction::Nothing
    }
}

fn left_row1_col4_on_press(perm: Option<KeymapLayer>, active: KeymapLayer) -> (r: PressAction)
    ensures
        r == lay::left_row1_col4_press(perm, active),
{
    if active == KeymapLayer::Num {
        PressAction::Key(kc::N4)
    } else if active == KeymapLayer::Raise {
        PressAction::Key(kc::DOWN_ARROW)
    } else if active == KeymapLayer::LowerAnsi {
        PressAction::Key(kc::RIGHT_BRACKET)
    } else if active == KeymapLayer::Lower || active == KeymapLayer::LowerSeMac {
        PressAction::Temp(kc::N9, kc::RIGHT_ALT, 0)
    } else if base_is(perm, active, KeymapLayer::DvorakAnsi) {
        PressAction::Key(kc::U)
    } else if base_is(perm, active, KeymapLayer::DvorakSe) || base_is(perm, active, KeymapLayer::DvorakSeMac) {
        PressAction::Key(kc::U)
    } else if base_is(perm, active, KeymapLayer::QwertyGaming) {
        PressAction::Key(kc::E)
    } else {
        PressAction::Nothing
    }
}

fn left_row1_col5_on_press(perm: Option<KeymapLayer>, active: KeymapLayer) -> (r: PressAction)
    ensures
        r == lay::left_row1_col5_press(perm, active),
{
    if active == KeymapLayer::Num {
        PressAction::Key(kc::N5)
    } else if active == KeymapLayer::Raise {
        PressAction::Key(kc::F11)
    } else if active == KeymapLayer::LowerAnsi {
        PressAction::Temp(kc::SLASH, kc::LEFT_SHIFT, 0)
    } else if active == KeymapLayer::Lower || active == KeymapLayer::LowerSeMac {
        PressAction::Temp(kc::DASH, kc::LEFT_SHIFT, 0)
    } else if base_is(perm, active, KeymapLayer::DvorakAnsi) {
        PressAction::Key(kc::I)
    } else if base_is(perm, active, KeymapLayer::DvorakSe) || base_is(perm, active, KeymapLayer::DvorakSeMac) {
        PressAction::Key(kc::I)
    } else if base_is(perm, active, KeymapLayer::QwertyGaming) {
        PressAction::Key(kc::R)
    } else {
        PressAction::Nothing
    }
}

fn left_row2_col0_on_press(perm: Option<KeymapLayer>, active: KeymapLayer) -> (r: PressAction)
    ensures
        r == lay::left_row2_col0_press(perm, active),
{
    PressAction::Modifier(kc::LEFT_SHIFT)
}

fn left_row2_col1_on_press(perm: Option<KeymapLayer>, active: KeymapLayer) -> (r: PressAction)
    ensures
        r == lay::left_row2_col1_press(perm, active),
{
    if base_is(perm, active, KeymapLayer::DvorakAnsi) {
        PressAction::Key(kc::SEMICOLON)
    } else if base_is(perm, active, KeymapLayer::DvorakSe) || base_is(perm, active, KeymapLayer::DvorakSeMac) {
        PressAction::ColonOrSemicolon
    } else if base_is(perm, active, KeymapLayer::QwertyGaming) {
        PressAction::Key(kc::Y)
    } else {
        PressAction::Nothing
    }
}

fn left_row2_col2_on_press(perm: Option<KeymapLayer>, active: KeymapLayer) -> (r: PressAction)
    ensures
        r == lay::left_row2_col2_press(perm, active),
{
    if active == KeymapLayer::LowerAnsi || active == KeymapLayer::Lower || active == KeymapLayer::LowerSeMac {
        PressAction::Temp(kc::C, kc::LEFT_CONTROL, 0)
    } else if base_is(perm, active, KeymapLayer::DvorakAnsi) {
        PressAction::Key(kc::Q)
    } else if base_is(perm, active, KeymapLayer::DvorakSe) || base_is(perm, active, KeymapLayer::DvorakSeMac) {
        PressAction::Key(kc::Q)
    } else if base_is(perm, active, KeymapLayer::QwertyGaming) {
        PressAction::Key(kc::A)
    } else {
        PressAction::Nothing
    }
}

fn left_row2_col3_on_press(perm: Option<KeymapLayer>, active: KeymapLayer) -> (r: PressAction)
    ensures
        r == lay::left_row2_col3_press(perm, active),
{
    if active == KeymapLayer::LowerAnsi || active == KeymapLayer::Lower || active == KeymapLayer::LowerSeMac {
        PressAction::Temp(kc::X, kc::LEFT_CONTROL, 0)
    } else if base_is(perm, active, KeymapLayer::DvorakAnsi) {
        PressAction::Key(kc::J)
    } else if base_is(perm, active, KeymapLayer::DvorakSe) || base_is(perm, active, KeymapLayer::DvorakSeMac) {
        PressAction::Key(kc::J)
    } else if base_is(perm, active, KeymapLayer::QwertyGaming) {
        PressAction::Key(kc::S)
    } else {
        PressAction::Nothing
    }
}

fn left_row2_col4_on_press(perm: Option<KeymapLayer>, active: KeymapLayer) -> (r: PressAction)
    ensures
        r == lay::left_row2_col4_press(perm, active),
{
    if active == KeymapLayer::LowerAnsi || active == KeymapLayer::Lower || active == KeymapLayer::LowerSeMac {
        PressAction::Temp(kc::V, kc::LEFT_CONTROL, 0)
    } else if base_is(perm, active, KeymapLayer::DvorakAnsi) {
        PressAction::Key(kc::K)
    } else if base_is(perm, active, KeymapLayer::DvorakSe) || base_is(perm, active, KeymapLayer::DvorakSeMac) {
        PressAction::Key(kc::K)
    } else if base_is(perm, active, KeymapLayer::QwertyGaming) {
        PressAction::Key(kc::D)
    } else {
        PressAction::Nothing
    }
}

fn left_row2_col5_on_press(perm: Option<KeymapLayer>, active: KeymapLayer) -> (r: PressAction)
    ensures
        r == lay::left_row2_col5_press(perm, active),
{
    if active == KeymapLayer::LowerAnsi {
        PressAction::Temp(kc::GRAVE, kc::LEFT_SHIFT, 0)
    } else if active == KeymapLayer::Lower {
        PressAction::TildeTwice
    } else if active == KeymapLayer::LowerSeMac {
        PressAction::TildeSpace
    } else if base_is(perm, active, KeymapLayer::DvorakAnsi) {
        PressAction::Key(kc::X)
    } else if base_is(perm, active, KeymapLayer::DvorakSe) || base_is(perm, active, KeymapLayer::DvorakSeMac) {
        PressAction::Key(kc::X)
    } else if base_is(perm, active, KeymapLayer::QwertyGaming) {
        PressAction::Key(kc::F)
    } else {
        PressAction::Nothing
    }
}

fn left_row3_col0_on_press(perm: Option<KeymapLayer>, active: KeymapLayer) -> (r: PressAction)
    ensures
        r == lay::left_row3_col0_press(perm, active),
{
    PressAction::Modifier(kc::LEFT_CONTROL)
}

fn left_row3_col1_on_press(perm: Option<KeymapLayer>, active: KeymapLayer) -> (r: PressAction)
    ensures
        r == lay::left_row3_col1_press(perm, active),
{
    if base_is(perm, active, KeymapLayer::DvorakAnsi) {
        PressAction::Modifier(kc::LEFT_GUI)
    } else if base_is(perm, active, KeymapLayer::DvorakSe) || base_is(perm, active, KeymapLayer::DvorakSeMac) {
        PressAction::Modifier(kc::LEFT_GUI)
    } else if base_is(perm, active, KeymapLayer::QwertyGaming) {
        PressAction::Key(kc::Z)
    } else {
        PressAction::Nothing
    }
}

fn left_row3_col2_on_press(perm: Option<KeymapLayer>, active: KeymapLayer) -> (r: PressAction)
    ensures
        r == lay::left_row3_col2_press(perm, active),
{
    if base_is(perm, active, KeymapLayer::DvorakAnsi) {
        PressAction::Modifier(kc::LEFT_ALT)
    } else if base_is(perm, active, KeymapLayer::DvorakSe) || base_is(perm, active, KeymapLayer::DvorakSeMac) {
        PressAction::Modifier(kc::LEFT_ALT)
    } else if base_is(perm, active, KeymapLayer::QwertyGaming) {
        PressAction::Key(kc::X)
    } else {
        PressAction::Nothing
    }
}

fn left_row3_col3_on_press(perm: Option<KeymapLayer>, active: KeymapLayer) -> (r: PressAction)
    ensures
        r == lay::left_row3_col3_press(perm, active),
{
    if base_is(perm, active, KeymapLayer::QwertyGaming) {
        PressAction::Key(kc::C)
    } else if base_is(perm, active, KeymapLayer::DvorakSe) || base_is(perm, active, KeymapLayer::DvorakSeMac) {
        PressAction::Nothing
    } else if base_is(perm, active, KeymapLayer::DvorakAnsi) {
        PressAction::Nothing
    } else {
        PressAction::Nothing
    }
}

fn left_row3_col4_on_press(perm: Option<KeymapLayer>, active: KeymapLayer) -> (r: PressAction)
    ensures
        r == lay::left_row3_col4_press(perm, active),
{
    if base_is(perm, active, KeymapLayer::DvorakAnsi) {
        PressAction::TempLayer(KeymapLayer::LowerAnsi)
    } else if base_is(perm, active, KeymapLayer::DvorakSe) {
        PressAction::TempLayer(KeymapLayer::Lower)
    } else if base_is(perm, active, KeymapLayer::DvorakSeMac) {
        PressAction::TempLayer(KeymapLayer::LowerSeMac)
    } else if base_is(perm, active, KeymapLayer::QwertyGaming) {
        PressAction::Key(kc::V)
    } else {
        PressAction::Nothing
    }
}

fn left_row3_col5_on_press(perm: Option<KeymapLayer>, active: KeymapLayer) -> (r: PressAction)
    ensures
        r == lay::left_row3_col5_press(perm, active),
{
    if base_is(perm, active, KeymapLayer::DvorakAnsi) {
        PressAction::Key(kc::SPACE)
    } else if base_is(perm, active, KeymapLayer::DvorakSe) || base_is(perm, active, KeymapLayer::DvorakSeMac) {
        PressAction::Key(kc::SPACE)
    } else if base_is(perm, active, KeymapLayer::QwertyGaming) {
        PressAction::Key(kc::B)
    } else {
        PressAction::Nothing
    }
}

fn left_row4_col1_on_press(perm: Option<KeymapLayer>, active: KeymapLayer) -> (r: PressAction)
    ensures
        r == lay::left_row4_col1_press(perm, active),
{
    PressAction::Reboot
}

fn left_row4_col2_on_press(perm: Option<KeymapLayer>, active: KeymapLayer) -> (r: PressAction)
    ensures
        r == lay::left_row4_col2_press(perm, active),
{
    if base_is(perm, active, KeymapLayer::QwertyGaming) {
        PressAction::Modifier(kc::LEFT_GUI)
    } else if base_is(perm, active, KeymapLayer::DvorakSe) || base_is(perm, active, KeymapLayer::DvorakSeMac) {
        PressAction::Nothing
    } else if base_is(perm, active, KeymapLayer::DvorakAnsi) {
        PressAction::Nothing
    } else {
        PressAction::Nothing
    }
}

fn left_row4_col3_on_press(perm: Option<KeymapLayer>, active: KeymapLayer) -> (r: PressAction)
    ensures
        r == lay::left_row4_col3_press(perm, active),
{
    PressAction::Nothing
}

fn left_row4_col4_on_press(perm: Option<KeymapLayer>, active: KeymapLayer) -> (r: PressAction)
    ensures
        r == lay::left_row4_col4_press(perm, active),
{
    if base_is(perm, active, KeymapLayer::QwertyGaming) {
        PressAction::Key(kc::SPACE)
    } else if base_is(perm, active, KeymapLayer::DvorakSe) || base_is(perm, active, KeymapLayer::DvorakSeMac) {
        PressAction::Temp(kc::SLASH, kc::LEFT_SHIFT, 0)
    } else if base_is(perm, active, KeymapLayer::DvorakAnsi) {
        PressAction::Nothing
    } else {
        PressAction::Nothing
    }
}

fn left_row4_col5_on_press(perm: Option<KeymapLayer>, active: KeymapLayer) -> (r: PressAction)
    ensures
        r == lay::left_row4_col5_press(perm, active),
{
    PressAction::Nothing
}

fn exec_left_release_action(index: u8, perm: Option<KeymapLayer>, active: KeymapLayer) -> (r: ReleaseAction)
    ensures
        r == left_release_action(index, perm, active),
{
    match index {
        0 => left_row0_col0_on_release(perm, active),
        1 => left_row0_col1_on_release(perm, active),
        2 => left_row0_col2_on_release(perm, active),
        3 => left_row0_col3_on_release(perm, active),
        4 => left_row0_col4_on_release(perm, active),
        5 => left_row0_col5_on_release(perm, active),
        6 => left_row1_col0_on_release(perm, active),
        7 => left_row1_col1_on_release(perm, active),
        8 => left_row1_col2_on_release(perm, active),
        9 => left_row1_col3_on_release(perm, active),
        10 => left_row1_col4_on_release(perm, active),
        11 => left_row1_col5_on_release(perm, active),
        12 => left_row2_col0_on_release(perm, active),
        13 => left_row2_col1_on_release(perm, active),
        14 => left_row2_col2_on_release(perm, active),
        15 => left_row2_col3_on_release(perm, active),
        16 => left_row2_col4_on_release(perm, active),
        17 => left_row2_col5_on_release(perm, active),
        18 => left_row3_col0_on_release(perm, active),
        19 => left_row3_col1_on_release(perm, active),
        20 => left_row3_col2_on_release(perm, active),
        21 => left_row3_col3_on_release(perm, active),
        22 => left_row3_col4_on_release(perm, active),
        23 => left_row3_col5_on_release(perm, active),
        25 => left_row4_col1_on_release(perm, active),
        26 => left_row4_col2_on_release(perm, active),
        27 => left_row4_col3_on_release(perm, active),
        28 => left_row4_col4_on_release(perm, active),
        29 => left_row4_col5_on_release(perm, active),
        _ => ReleaseAction::Nothing,
    }
}

fn left_row0_col0_on_release(perm: Option<KeymapLayer>, active: KeymapLayer) -> (r: ReleaseAction)
    ensures
        r == lay::left_row0_col0_release(perm, active),
{
    ReleaseAction::Key(kc::TAB)
}

fn left_row0_col1_on_release(perm: Option<KeymapLayer>, active: KeymapLayer) -> (r: ReleaseAction)
    ensures
        r == lay::left_row0_col1_release(perm, active),
{
    if active == KeymapLayer::Raise {
        ReleaseAction::Key(kc::F1)
    } else if active == KeymapLayer::Lower || active == KeymapLayer::LowerAnsi || active == KeymapLayer::LowerSeMac {
        ReleaseAction::Restore
    } else if base_is(perm, active, KeymapLayer::DvorakAnsi) {
        ReleaseAction::Key(kc::COMMA)
    } else if base_is(perm, active, KeymapLayer::DvorakSe) || base_is(perm, active, KeymapLayer::DvorakSeMac) {
        ReleaseAction::Quote
    } else if base_is(perm, active, KeymapLayer::QwertyGaming) {
        ReleaseAction::Key(kc::N1)
    } else {
        ReleaseAction::Nothing
    }
}

fn left_row0_col2_on_release(perm: Option<KeymapLayer>, active: KeymapLayer) -> (r: ReleaseAction)
    ensures
        r == lay::left_row0_col2_release(perm, active),
{
    if active == KeymapLayer::Raise {
        ReleaseAction::Key(kc::F2)
    } else if active == KeymapLayer::LowerAnsi || active == KeymapLayer::Lower || active == KeymapLayer::LowerSeMac {
        ReleaseAction::Restore
    } else if base_is(perm, active, KeymapLayer::DvorakAnsi) {
        ReleaseAction::Key(kc::COMMA)
    } else if base_is(perm, active, KeymapLayer::DvorakSe) {
        ReleaseAction::AngleOrComma
    } else if base_is(perm, active, KeymapLayer::DvorakSeMac) {
        ReleaseAction::AngleOrComma
    } else if base_is(perm, active, KeymapLayer::QwertyGaming) {
        ReleaseAction::Key(kc::N2)
    } else {
        ReleaseAction::Nothing
    }
}

fn left_row0_col3_on_release(perm: Option<KeymapLayer>, active: KeymapLayer) -> (r: ReleaseAction)
    ensures
        r == lay::left_row0_col3_release(perm, active),
{
    if active == KeymapLayer::Raise {
        ReleaseAction::Key(kc::F3)
    } else if active == KeymapLayer::Lower || active == KeymapLayer::LowerAnsi || active == KeymapLayer::LowerSeMac {
        ReleaseAction::Restore
    } else if base_is(perm, active, KeymapLayer::DvorakAnsi) {
        ReleaseAction::Key(kc::DOT)
    } else if base_is(perm, active, KeymapLayer::DvorakSe) {
        ReleaseAction::AngleOrDot(kc::NON_US_BACKSLASH)
    } else if base_is(perm, active, KeymapLayer::DvorakSeMac) {
        ReleaseAction::AngleOrDot(kc::GRAVE)
    } else if base_is(perm, active, KeymapLayer::QwertyGaming) {
        ReleaseAction::Key(kc::N3)
    } else {
        ReleaseAction::Nothing
    }
}

fn left_row0_col4_on_release(perm: Option<KeymapLayer>, active: KeymapLayer) -> (r: ReleaseAction)
    ensures
        r == lay::left_row0_col4_release(perm, active),
{
    if active == KeymapLayer::Raise {
        ReleaseAction::Key(kc::F4)
    } else if active == KeymapLayer::LowerAnsi {
        ReleaseAction::Restore
    } else if active == KeymapLayer::Lower || active == KeymapLayer::LowerSeMac {
        ReleaseAction::Restore
    } else if base_is(perm, active, KeymapLayer::DvorakAnsi) {
        ReleaseAction::Key(kc::P)
    } else if base_is(perm, active, KeymapLayer::DvorakSe) || base_is(perm, active, KeymapLayer::DvorakSeMac) {
        ReleaseAction::Key(kc::P)
    } else if base_is(perm, active, KeymapLayer::QwertyGaming) {
        ReleaseAction::Key(kc::N4)
    } else {
        ReleaseAction::Nothing
    }
}

fn left_row0_col5_on_release(perm: Option<KeymapLayer>, active: KeymapLayer) -> (r: ReleaseAction)
    ensures
        r == lay::left_row0_col5_release(perm, active),
{
    if active == KeymapLayer::Raise {
        ReleaseAction::Key(kc::F4)
    } else if active == KeymapLayer::LowerAnsi {
        ReleaseAction::Restore
    } else if active == KeymapLayer::Lower || active == KeymapLayer::LowerSeMac {
        ReleaseAction::Restore
    } else if base_is(perm, active, KeymapLayer::DvorakAnsi) {
        ReleaseAction::Key(kc::Y)
    } else if base_is(perm, active, KeymapLayer::DvorakSe) || base_is(perm, active, KeymapLayer::DvorakSeMac) {
        ReleaseAction::Key(kc::Y)
    } else if base_is(perm, active, KeymapLayer::QwertyGaming) {
        ReleaseAction::Key(kc::N5)
    } else {
        ReleaseAction::Nothing
    }
}

fn left_row1_col0_on_release(perm: Option<KeymapLayer>, active: KeymapLayer) -> (r: ReleaseAction)
    ensures
        r == lay::left_row1_col0_release(perm, active),
{
    ReleaseAction::Key(kc::ESCAPE)
}

fn left_row1_col1_on_release(perm: Option<KeymapLayer>, active: KeymapLayer) -> (r: ReleaseAction)
    ensures
        r == lay::left_row1_col1_release(perm, active),
{
    if active == KeymapLayer::Num {
        ReleaseAction::Key(kc::N1)
    } else if active == KeymapLayer::Raise {
        ReleaseAction::Key(kc::LEFT_ARROW)
    } else if active == KeymapLayer::LowerAnsi {
        ReleaseAction::Key(kc::KP_PLUS)
    } else if active == KeymapLayer::Lower || active == KeymapLayer::LowerSeMac {
        ReleaseAction::Key(kc::DASH)
    } else if base_is(perm, active, KeymapLayer::DvorakAnsi) {
        ReleaseAction::Key(kc::A)
    } else if base_is(perm, active, KeymapLayer::DvorakSe) || base_is(perm, active, KeymapLayer::DvorakSeMac) {
        ReleaseAction::Key(kc::A)
    } else if base_is(perm, active, KeymapLayer::QwertyGaming) {
        ReleaseAction::Key(kc::T)
    } else {
        ReleaseAction::Nothing
    }
}

fn left_row1_col2_on_release(perm: Option<KeymapLayer>, active: KeymapLayer) -> (r: ReleaseAction)
    ensures
        r == lay::left_row1_col2_release(perm, active),
{
    if active == KeymapLayer::Num {
        ReleaseAction::Key(kc::N2)
    } else if active == KeymapLayer::Raise {
        ReleaseAction::Key(kc::RIGHT_ARROW)
    } else if active == KeymapLayer::LowerAnsi {
        ReleaseAction::Key(kc::EQUALS)
    } else if active == KeymapLayer::Lower || active == KeymapLayer::LowerSeMac {
        ReleaseAction::Restore
    } else if base_is(perm, active, KeymapLayer::DvorakAnsi) {
        ReleaseAction::Key(kc::O)
    } else if base_is(perm, active, KeymapLayer::DvorakSe) || base_is(perm, active, KeymapLayer::DvorakSeMac) {
        ReleaseAction::Key(kc::O)
    } else if base_is(perm, active, KeymapLayer::QwertyGaming) {
        ReleaseAction::Key(kc::Q)
    } else {
        ReleaseAction::Nothing
    }
}

fn left_row1_col3_on_release(perm: Option<KeymapLayer>, active: KeymapLayer) -> (r: ReleaseAction)
    ensures
        r == lay::left_row1_col3_release(perm, active),
{
    if active == KeymapLayer::Num {
        ReleaseAction::Key(kc::N3)
    } else if active == KeymapLayer::Raise {
        ReleaseAction::Key(kc::UP_ARROW)
    } else if active == KeymapLayer::LowerAnsi {
        ReleaseAction::Key(kc::LEFT_BRACKET)
    } else if active == KeymapLayer::Lower || active == KeymapLayer::LowerSeMac {
        ReleaseAction::Restore
    } else if base_is(perm, active, KeymapLayer::DvorakAnsi) {
        ReleaseAction::Key(kc::E)
    } else if base_is(perm, active, KeymapLayer::DvorakSe) || base_is(perm, active, KeymapLayer::DvorakSeMac) {
        ReleaseAction::Key(kc::E)
    } else if base_is(perm, active, KeymapLayer::QwertyGaming) {
        ReleaseAction::Key(kc::W)
    } else {
        ReleaseAction::Nothing
    }
}

fn left_row1_col4_on_release(perm: Option<KeymapLayer>, active: KeymapLayer) -> (r: ReleaseAction)
    ensures
        r == lay::left_row1_col4_release(perm, active),
{
    if active == KeymapLayer::Num {
        ReleaseAction::Key(kc::N4)
    } else if active == KeymapLayer::Raise {
        ReleaseAction::Key(kc::DOWN_ARROW)
    } else if active == KeymapLayer::LowerAnsi {
        ReleaseAction::Key(kc::RIGHT_BRACKET)
    } else if active == KeymapLayer::Lower || active == KeymapLayer::LowerSeMac {
        ReleaseAction::Restore
    } else if base_is(perm, active, KeymapLayer::DvorakAnsi) {
        ReleaseAction::Key(kc::U)
    } else if base_is(perm, active, KeymapLayer::DvorakSe) || base_is(perm, active, KeymapLayer::DvorakSeMac) {
        ReleaseAction::Key(kc::U)
    } else if base_is(perm, active, KeymapLayer::QwertyGaming) {
        ReleaseAction::Key(kc::E)
    } else {
        ReleaseAction::Nothing
    }
}

fn left_row1_col5_on_release(perm: Option<KeymapLayer>, active: KeymapLayer) -> (r: ReleaseAction)
    ensures
        r == lay::left_row1_col5_release(perm, active),
{
    if active == KeymapLayer::Num {
        ReleaseAction::Key(kc::N5)
    } else if active == KeymapLayer::Raise {
        ReleaseAction::Key(kc::F11)
    } else if active == KeymapLayer::LowerAnsi {
        ReleaseAction::Restore
    } else if active == KeymapLayer::Lower || active == KeymapLayer::LowerSeMac {
        ReleaseAction::Restore
    } else if base_is(perm, active, KeymapLayer::DvorakAnsi) {
        ReleaseAction::Key(kc::I)
    } else if base_is(perm, active, KeymapLayer::DvorakSe) || base_is(perm, active, KeymapLayer::DvorakSeMac) {
        ReleaseAction::Key(kc::I)
    } else if base_is(perm, active, KeymapLayer::QwertyGaming) {
        ReleaseAction::Key(kc::R)
    } else {
        ReleaseAction::Nothing
    }
}

fn left_row2_col0_on_release(perm: Option<KeymapLayer>, active: KeymapLayer) -> (r: ReleaseAction)
    ensures
        r == lay::left_row2_col0_release(perm, active),
{
    ReleaseAction::Modifier(kc::LEFT_SHIFT)
}

fn left_row2_col1_on_release(perm: Option<KeymapLayer>, active: KeymapLayer) -> (r: ReleaseAction)
    ensures
        r == lay::left_row2_col1_release(perm, active),
{
    if base_is(perm, active, KeymapLayer::DvorakAnsi) {
        ReleaseAction::Key(kc::SEMICOLON)
    } else if base_is(perm, active, KeymapLayer::DvorakSe) || base_is(perm, active, KeymapLayer::DvorakSeMac) {
        ReleaseAction::ColonOrSemicolon
    } else if base_is(perm, active, KeymapLayer::QwertyGaming) {
        ReleaseAction::Key(kc::Y)
    } else {
        ReleaseAction::Nothing
    }
}

fn left_row2_col2_on_release(perm: Option<KeymapLayer>, active: KeymapLayer) -> (r: ReleaseAction)
    ensures
        r == lay::left_row2_col2_release(perm, active),
{
    if active == KeymapLayer::LowerAnsi || active == KeymapLayer::Lower || active == KeymapLayer::LowerSeMac {
        ReleaseAction::Restore
    } else if base_is(perm, active, KeymapLayer::DvorakAnsi) {
        ReleaseAction::Key(kc::Q)
    } else if base_is(perm, active, KeymapLayer::DvorakSe) || base_is(perm, active, KeymapLayer::DvorakSeMac) {
        ReleaseAction::Key(kc::Q)
    } else if base_is(perm, active, KeymapLayer::QwertyGaming) {
        ReleaseAction::Key(kc::A)
    } else {
        ReleaseAction::Nothing
    }
}

fn left_row2_col3_on_release(perm: Option<KeymapLayer>, active: KeymapLayer) -> (r: ReleaseAction)
    ensures
        r == lay::left_row2_col3_release(perm, active),
{
    if active == KeymapLayer::LowerAnsi || active == KeymapLayer::Lower || active == KeymapLayer::LowerSeMac {
        ReleaseAction::Restore
    } else if base_is(perm, active, KeymapLayer::DvorakAnsi) {
        ReleaseAction::Key(kc::J)
    } else if base_is(perm, active, KeymapLayer::DvorakSe) || base_is(perm, active, KeymapLayer::DvorakSeMac) {
        ReleaseAction::Key(kc::J)
    } else if base_is(perm, active, KeymapLayer::QwertyGaming) {
        ReleaseAction::Key(kc::S)
    } else {
        ReleaseAction::Nothing
    }
}

fn left_row2_col4_on_release(perm: Option<KeymapLayer>, active: KeymapLayer) -> (r: ReleaseAction)
    ensures
        r == lay::left_row2_col4_release(perm, active),
{
    if active == KeymapLayer::LowerAnsi || active == KeymapLayer::Lower || active == KeymapLayer::LowerSeMac {
        ReleaseAction::Restore
    } else if base_is(perm, active, KeymapLayer::DvorakAnsi) {
        ReleaseAction::Key(kc::K)
    } else if base_is(perm, active, KeymapLayer::DvorakSe) || base_is(perm, active, KeymapLayer::DvorakSeMac) {
        ReleaseAction::Key(kc::K)
    } else if base_is(perm, active, KeymapLayer::QwertyGaming) {
        ReleaseAction::Key(kc::D)
    } else {
        ReleaseAction::Nothing
    }
}

fn left_row2_col5_on_release(perm: Option<KeymapLayer>, active: KeymapLayer) -> (r: ReleaseAction)
    ensures
        r == lay::left_row2_col5_release(perm, active),
{
    if active == KeymapLayer::LowerAnsi || active == KeymapLayer::Lower || active == KeymapLayer::LowerSeMac {
        ReleaseAction::Restore
    } else if base_is(perm, active, KeymapLayer::DvorakAnsi) {
        ReleaseAction::Key(kc::X)
    } else if base_is(perm, active, KeymapLayer::DvorakSe) || base_is(perm, active, KeymapLayer::DvorakSeMac) {
        ReleaseAction::Key(kc::X)
    } else if base_is(perm, active, KeymapLayer::QwertyGaming) {
        ReleaseAction::Key(kc::F)
    } else {
        ReleaseAction::Nothing
    }
}

fn left_row3_col0_on_release(perm: Option<KeymapLayer>, active: KeymapLayer) -> (r: ReleaseAction)
    ensures
        r == lay::left_row3_col0_release(perm, active),
{
    ReleaseAction::Modifier(kc::LEFT_CONTROL)
}

fn left_row3_col1_on_release(perm: Option<KeymapLayer>, active: KeymapLayer) -> (r: ReleaseAction)
    ensures
        r == lay::left_row3_col1_release(perm, active),
{
    if base_is(perm, active, KeymapLayer::DvorakAnsi) {
        ReleaseAction::Modifier(kc::LEFT_GUI)
    } else if base_is(perm, active, KeymapLayer::DvorakSe) || base_is(perm, active, KeymapLayer::DvorakSeMac) {
        ReleaseAction::Modifier(kc::LEFT_GUI)
    } else if base_is(perm, active, KeymapLayer::QwertyGaming) {
        ReleaseAction::Key(kc::Z)
    } else {
        ReleaseAction::Nothing
    }
}

fn left_row3_col2_on_release(perm: Option<KeymapLayer>, active: KeymapLayer) -> (r: ReleaseAction)
    ensures
        r == lay::left_row3_col2_release(perm, active),
{
    if base_is(perm, active, KeymapLayer::DvorakAnsi) {
        ReleaseAction::Modifier(kc::LEFT_ALT)
    } else if base_is(perm, active, KeymapLayer::DvorakSe) || base_is(perm, active, KeymapLayer::DvorakSeMac) {
        ReleaseAction::Modifier(kc::LEFT_ALT)
    } else if base_is(perm, active, KeymapLayer::QwertyGaming) {
        ReleaseAction::Key(kc::X)
    } else {
        ReleaseAction::Nothing
    }
}

fn left_row3_col3_on_release(perm: Option<KeymapLayer>, active: KeymapLayer) -> (r: ReleaseAction)
    ensures
        r == lay::left_row3_col3_release(perm, active),
{
    if base_is(perm, active, KeymapLayer::QwertyGaming) {
        ReleaseAction::Key(kc::C)
    } else if base_is(perm, active, KeymapLayer::DvorakSe) || base_is(perm, active, KeymapLayer::DvorakSeMac) {
        ReleaseAction::Nothing
    } else if base_is(perm, active, KeymapLayer::DvorakAnsi) {
        ReleaseAction::Nothing
    } else {
        ReleaseAction::Nothing
    }
}

fn left_row3_col4_on_release(perm: Option<KeymapLayer>, active: KeymapLayer) -> (r: ReleaseAction)
    ensures
        r == lay::left_row3_col4_release(perm, active),
{
    if active == KeymapLayer::LowerAnsi {
        ReleaseAction::TempLayer(KeymapLayer::LowerAnsi)
    } else if active == KeymapLayer::Lower {
        ReleaseAction::TempLayer(KeymapLayer::Lower)
    } else if active == KeymapLayer::LowerSeMac {
        ReleaseAction::TempLayer(KeymapLayer::LowerSeMac)
    } else if base_is(perm, active, KeymapLayer::QwertyGaming) {
        ReleaseAction::Key(kc::V)
    } else if base_is(perm, active, KeymapLayer::DvorakAnsi) {
        ReleaseAction::Nothing
    } else if base_is(perm, active, KeymapLayer::DvorakSe) {
        ReleaseAction::Nothing
    } else {
        ReleaseAction::Nothing
    }
}

fn left_row3_col5_on_release(perm: Option<KeymapLayer>, active: KeymapLayer) -> (r: ReleaseAction)
    ensures
        r == lay::left_row3_col5_release(perm, active),
{
    if base_is(perm, active, KeymapLayer::DvorakAnsi) {
        ReleaseAction::Key(kc::SPACE)
    } else if base_is(perm, active, KeymapLayer::DvorakSe) || base_is(perm, active, KeymapLayer::DvorakSeMac) {
        ReleaseAction::Key(kc::SPACE)
    } else if base_is(perm, active, KeymapLayer::QwertyGaming) {
        ReleaseAction::Key(kc::B)
    } else {
        ReleaseAction::Nothing
    }
}

fn left_row4_col1_on_release(perm: Option<KeymapLayer>, active: KeymapLayer) -> (r: ReleaseAction)
    ensures
        r == lay::left_row4_col1_release(perm, active),
{
    ReleaseAction::Nothing
}

fn left_row4_col2_on_release(perm: Option<KeymapLayer>, active: KeymapLayer) -> (r: ReleaseAction)
    ensures
        r == lay::left_row4_col2_release(perm, active),
{
    if base_is(perm, active, KeymapLayer::QwertyGaming) {
        ReleaseAction::Modifier(kc::LEFT_GUI)
    } else if base_is(perm, active, KeymapLayer::DvorakSe) || base_is(perm, active, KeymapLayer::DvorakSeMac) {
        ReleaseAction::Nothing
    } else if base_is(perm, active, KeymapLayer::DvorakAnsi) {
        ReleaseAction::Nothing
    } else {
        ReleaseAction::Nothing
    }
}

fn left_row4_col3_on_release(perm: Option<KeymapLayer>, active: KeymapLayer) -> (r: ReleaseAction)
    ensures
        r == lay::left_row4_col3_release(perm, active),
{
    ReleaseAction::Nothing
}

fn left_row4_col4_on_release(perm: Option<KeymapLayer>, active: KeymapLayer) -> (r: ReleaseAction)
    ensures
        r == lay::left_row4_col4_release(perm, active),
{
    if base_is(perm, active, KeymapLayer::QwertyGaming) {
        ReleaseAction::Key(kc::SPACE)
    } else if base_is(perm, active, KeymapLayer::DvorakSe) || base_is(perm, active, KeymapLayer::DvorakSeMac) {
        ReleaseAction::Restore
    } else if base_is(perm, active, KeymapLayer::DvorakAnsi) {
        ReleaseAction::Nothing
    } else {
        ReleaseAction::Nothing
    }
}

fn left_row4_col5_on_release(perm: Option<KeymapLayer>, active: KeymapLayer) -> (r: ReleaseAction)
    ensures
        r == lay::left_row4_col5_release(perm, active),
{
    ReleaseAction::Nothing
}

fn exec_right_press_action(index: u8, perm: Option<KeymapLayer>, active: KeymapLayer) -> (r: PressAction)
    ensures
        r == right_press_action(index, perm, active),
{
    match index {
        0 => right_row0_col0_on_press(perm, active),
        1 => right_row0_col1_on_press(perm, active),
        2 => right_row0_col2_on_press(perm, active),
        3 => right_row0_col3_on_press(perm, active),
        4 => right_row0_col4_on_press(perm, active),
        5 => right_row0_col5_on_press(perm, active),
        6 => right_row1_col0_on_press(perm, active),
        7 => right_row1_col1_on_press(perm, active),
        8 => right_row1_col2_on_press(perm, active),
        9 => right_row1_col3_on_press(perm, active),
        10 => right_row1_col4_on_press(perm, active),
        11 => right_row1_col5_on_press(perm, active),
        12 => right_row2_col0_on_press(perm, active),
        13 => right_row2_col1_on_press(perm, active),
        14 => right_row2_col2_on_press(perm, active),
        15 => right_row2_col3_on_press(perm, active),
        16 => right_row2_col4_on_press(perm, active),
        17 => right_row2_col5_on_press(perm, active),
        18 => right_row3_col0_on_press(perm, active),
        19 => right_row3_col1_on_press(perm, active),
        20 => right_row3_col2_on_press(perm, active),
        21 => right_row3_col3_on_press(perm, active),
        22 => right_row3_col4_on_press(perm, active),
        23 => right_row3_col5_on_press(perm, active),
        25 => right_row4_col1_on_press(perm, active),
        26 => right_row4_col2_on_press(perm, active),
        27 => right_row4_col3_on_press(perm, active),
        28 => right_row4_col4_on_press(perm, active),
        29 => right_row4_col5_on_press(perm, active),
        _ => PressAction::Nothing,
    }
}

fn right_row0_col0_on_press(perm: Option<KeymapLayer>, active: KeymapLayer) -> (r: PressAction)
    ensures
        r == lay::right_row0_col0_press(perm, active),
{
    PressAction::Key(kc::BACKSPACE)
}

fn right_row0_col1_on_press(perm: Option<KeymapLayer>, active: KeymapLayer) -> (r: PressAction)
    ensures
        r == lay::right_row0_col1_press(perm, active),
{
    if active == KeymapLayer::Raise {
        PressAction::Key(kc::F10)
    } else if active == KeymapLayer::LowerAnsi || active == KeymapLayer::Lower || active == KeymapLayer::LowerSeMac {
        PressAction::Temp(kc::BACKSLASH, kc::LEFT_SHIFT, 0)
    } else if base_is(perm, active, KeymapLayer::DvorakAnsi) || base_is(perm, active, KeymapLayer::DvorakSe) || base_is(perm, active, KeymapLayer::DvorakSeMac) {
        PressAction::Key(kc::L)
    } else if base_is(perm, active, KeymapLayer::QwertyGaming) {
        PressAction::Key(kc::N0)
    } else {
        PressAction::Nothing
    }
}

fn right_row0_col2_on_press(perm: Option<KeymapLayer>, active: KeymapLayer) -> (r: PressAction)
    ensures
        r == lay::right_row0_col2_press(perm, active),
{
    if active == KeymapLayer::Raise {
        PressAction::Key(kc::F9)
    } else if active == KeymapLayer::LowerAnsi {
        PressAction::Temp(kc::N8, kc::LEFT_SHIFT, 0)
    } else if active == KeymapLayer::Lower || active == KeymapLayer::LowerSeMac {
        PressAction::Temp(kc::N9, kc::LEFT_SHIFT, 0)
    } else if base_is(perm, active, KeymapLayer::DvorakAnsi) {
        PressAction::Key(kc::R)
    } else if base_is(perm, active, KeymapLayer::DvorakSe) || base_is(perm, active, KeymapLayer::DvorakSeMac) {
        PressAction::Key(kc::R)
    } else if base_is(perm, active, KeymapLayer::QwertyGaming) {
        PressAction::Key(kc::N9)
    } else {
        PressAction::Nothing
    }
}

fn right_row0_col3_on_press(perm: Option<KeymapLayer>, active: KeymapLayer) -> (r: PressAction)
    ensures
        r == lay::right_row0_col3_press(perm, active),
{
    if active == KeymapLayer::Raise {
        PressAction::Key(kc::F8)
    } else if active == KeymapLayer::LowerAnsi {
        PressAction::Temp(kc::N9, kc::LEFT_SHIFT, 0)
    } else if active == KeymapLayer::Lower || active == KeymapLayer::LowerSeMac {
        PressAction::Temp(kc::N8, kc::LEFT_SHIFT, 0)
    } else if base_is(perm, active, KeymapLayer::DvorakAnsi) {
        PressAction::Key(kc::C)
    } else if base_is(perm, active, KeymapLayer::DvorakSe) || base_is(perm, active, KeymapLayer::DvorakSeMac) {
        PressAction::Key(kc::C)
    } else if base_is(perm, active, KeymapLayer::QwertyGaming) {
        PressAction::Key(kc::N8)
    } else {
        PressAction::Nothing
    }
}

fn right_row0_col4_on_press(perm: Option<KeymapLayer>, active: KeymapLayer) -> (r: PressAction)
    ensures
        r == lay::right_row0_col4_press(perm, active),
{
    if active == KeymapLayer::Raise {
        PressAction::Key(kc::F7)
    } else if active == KeymapLayer::LowerAnsi {
        PressAction::Temp(kc::N7, kc::LEFT_SHIFT, 0)
    } else if active == KeymapLayer::Lower || active == KeymapLayer::LowerSeMac {
        PressAction::Temp(kc::N6, kc::LEFT_SHIFT, 0)
    } else if base_is(perm, active, KeymapLayer::DvorakAnsi) {
        PressAction::Key(kc::G)
    } else if base_is(perm, active, KeymapLayer::DvorakSe) || base_is(perm, active, KeymapLayer::DvorakSeMac) {
        PressAction::Key(kc::G)
    } else if base_is(perm, active, KeymapLayer::QwertyGaming) {
        PressAction::Key(kc::N7)
    } else {
        PressAction::Nothing
    }
}

fn right_row0_col5_on_press(perm: Option<KeymapLayer>, active: KeymapLayer) -> (r: PressAction)
    ensures
        r == lay::right_row0_col5_press(perm, active),
{
    if active == KeymapLayer::Raise {
        PressAction::Key(kc::F6)
    } else if active == KeymapLayer::LowerAnsi {
        PressAction::Temp(kc::N6, kc::LEFT_SHIFT, 0)
    } else if active == KeymapLayer::Lower {
        PressAction::Circumflex
    } else if active == KeymapLayer::LowerSeMac {
        PressAction::Circumflex
    } else if base_is(perm, active, KeymapLayer::DvorakAnsi) {
        PressAction::Key(kc::F)
    } else if base_is(perm, active, KeymapLayer::DvorakSe) || base_is(perm, active, KeymapLayer::DvorakSeMac) {
        PressAction::Key(kc::F)
    } else if base_is(perm, active, KeymapLayer::QwertyGaming) {
        PressAction::Key(kc::N6)
    } else {
        PressAction::Nothing
    }
}

fn right_row1_col0_on_press(perm: Option<KeymapLayer>, active: KeymapLayer) -> (r: PressAction)
    ensures
        r == lay::right_row1_col0_press(perm, active),
{
    PressAction::Key(kc::ENTER)
}

fn right_row1_col1_on_press(perm: Option<KeymapLayer>, active: KeymapLayer) -> (r: PressAction)
    ensures
        r == lay::right_row1_col1_press(perm, active),
{
    if active == KeymapLayer::Num {
        PressAction::Key(kc::N0)
    } else if active == KeymapLayer::Raise {
        PressAction::Key(kc::KC_DELF)
    } else if active == KeymapLayer::LowerAnsi {
        PressAction::Key(kc::DASH)
    } else if active == KeymapLayer::Lower || active == KeymapLayer::LowerSeMac {
        PressAction::Key(kc::SLASH)
    } else if base_is(perm, active, KeymapLayer::DvorakAnsi) {
        PressAction::Key(kc::S)
    } else if base_is(perm, active, KeymapLayer::DvorakSe) || base_is(perm, active, KeymapLayer::DvorakSeMac) {
        PressAction::Key(kc::S)
    } else if base_is(perm, active, KeymapLayer::QwertyGaming) {
        PressAction::Key(kc::SEMICOLON)
    } else {
        PressAction::Nothing
    }
}

fn right_row1_col2_on_press(perm: Option<KeymapLayer>, active: KeymapLayer) -> (r: PressAction)
    ensures
        r == lay::right_row1_col2_press(perm, active),
{
    if active == KeymapLayer::Num {
        PressAction::Key(kc::N9)
    } else if active == KeymapLayer::Raise {
        PressAction::Key(kc::HOME)
    } else if active == KeymapLayer::LowerAnsi {
        PressAction::Temp(kc::RIGHT_BRACKET, kc::RIGHT_ALT, 0)
    } else if active == KeymapLayer::Lower {
        PressAction::Temp(kc::N0, kc::RIGHT_ALT, 0)
    } else if active == KeymapLayer::LowerSeMac {
        PressAction::Temp(kc::N9, kc::LEFT_SHIFT, kc::LEFT_ALT)
    } else if base_is(perm, active, KeymapLayer::DvorakAnsi) {
        PressAction::Key(kc::N)
    } else if base_is(perm, active, KeymapLayer::DvorakSe) || base_is(perm, active, KeymapLayer::DvorakSeMac) {
        PressAction::Key(kc::N)
    } else if base_is(perm, active, KeymapLayer::QwertyGaming) {
        PressAction::Key(kc::L)
    } else {
        PressAction::Nothing
    }
}

fn right_row1_col3_on_press(perm: Option<KeymapLayer>, active: KeymapLayer) -> (r: PressAction)
    ensures
        r == lay::right_row1_col3_press(perm, active),
{
    if active == KeymapLayer::Num {
        PressAction::Key(kc::N8)
    } else if active == KeymapLayer::Raise {
        PressAction::Key(kc::PAGE_UP)
    } else if active == KeymapLayer::LowerAnsi {
        PressAction::Temp(kc::LEFT_BRACKET, kc::LEFT_SHIFT, 0)
    } else if active == KeymapLayer::Lower {
        PressAction::Temp(kc::N7, kc::RIGHT_ALT, 0)
    } else if active == KeymapLayer::LowerSeMac {
        PressAction::Temp(kc::N8, kc::LEFT_SHIFT, kc::LEFT_ALT)
    } else if base_is(perm, active, KeymapLayer::DvorakAnsi) {
        PressAction::Key(kc::T)
    } else if base_is(perm, active, KeymapLayer::DvorakSe) || base_is(perm, active, KeymapLayer::DvorakSeMac) {
        PressAction::Key(kc::T)
    } else if base_is(perm, active, KeymapLayer::QwertyGaming) {
        PressAction::Key(kc::K)
    } else {
        PressAction::Nothing
    }
}

fn right_row1_col4_on_press(perm: Option<KeymapLayer>, active: KeymapLayer) -> (r: PressAction)
    ensures
        r == lay::right_row1_col4_press(perm, active),
{
    if active == KeymapLayer::Num {
        PressAction::Key(kc::N7)
    } else if active == KeymapLayer::Raise {
        PressAction::Key(kc::PRINT_SCREEN)
    } else if active == KeymapLayer::LowerAnsi {
        PressAction::Key(kc::SLASH)
    } else if active == KeymapLayer::Lower || active == KeymapLayer::LowerSeMac {
        PressAction::Temp(kc::N7, kc::LEFT_SHIFT, 0)
    } else if base_is(perm, active, KeymapLayer::DvorakAnsi) {
        PressAction::Key(kc::H)
    } else if base_is(perm, active, KeymapLayer::DvorakSe) || base_is(perm, active, KeymapLayer::DvorakSeMac) {
        PressAction::Key(kc::H)
    } else if base_is(perm, active, KeymapLayer::QwertyGaming) {
        PressAction::Key(kc::J)
    } else {
        PressAction::Nothing
    }
}

fn right_row1_col5_on_press(perm: Option<KeymapLayer>, active: KeymapLayer) -> (r: PressAction)
    ensures
        r == lay::right_row1_col5_press(perm, active),
{
    if active == KeymapLayer::Num {
        PressAction::Key(kc::N6)
    } else if active == KeymapLayer::Raise {
        PressAction::Key(kc::F12)
    } else if active == KeymapLayer::LowerAnsi {
        PressAction::Key(kc::BACKSLASH)
    } else if active == KeymapLayer::Lower {
        PressAction::Temp(kc::DASH, kc::RIGHT_ALT, 0)
    } else if active == KeymapLayer::LowerSeMac {
        PressAction::Temp(kc::N7, kc::LEFT_SHIFT, kc::LEFT_ALT)
    } else if base_is(perm, active, KeymapLayer::DvorakAnsi) {
        PressAction::Key(kc::D)
    } else if base_is(perm, active, KeymapLayer::DvorakSe) || base_is(perm, active, KeymapLayer::DvorakSeMac) {
        PressAction::Key(kc::D)
    } else if base_is(perm, active, KeymapLayer::QwertyGaming) {
        PressAction::Key(kc::H)
    } else {
        PressAction::Nothing
    }
}

fn right_row2_col0_on_press(perm: Option<KeymapLayer>, active: KeymapLayer) -> (r: PressAction)
    ensures
        r == lay::right_row2_col0_press(perm, active),
{
    PressAction::Modifier(kc::LEFT_SHIFT)
}

fn right_row2_col1_on_press(perm: Option<KeymapLayer>, active: KeymapLayer) -> (r: PressAction)
    ensures
        r == lay::right_row2_col1_press(perm, active),
{
    if active == KeymapLayer::Raise {
        PressAction::Key(kc::INSERT)
    } else if active == KeymapLayer::Lower || active == KeymapLayer::LowerSeMac {
        PressAction::Key(kc::SEMICOLON)
    } else if base_is(perm, active, KeymapLayer::DvorakAnsi) {
        PressAction::Key(kc::Z)
    } else if base_is(perm, active, KeymapLayer::DvorakSe) || base_is(perm, active, KeymapLayer::DvorakSeMac) {
        PressAction::Key(kc::Z)
    } else if base_is(perm, active, KeymapLayer::QwertyGaming) {
        PressAction::Key(kc::QUOTE)
    } else {
        PressAction::Nothing
    }
}

fn right_row2_col2_on_press(perm: Option<KeymapLayer>, active: KeymapLayer) -> (r: PressAction)
    ensures
        r == lay::right_row2_col2_press(perm, active),
{
    if active == KeymapLayer::Settings {
        PressAction::PermLayer(KeymapLayer::DvorakAnsi)
    } else if active == KeymapLayer::Raise {
        PressAction::Key(kc::END)
    } else if active == KeymapLayer::Lower || active == KeymapLayer::LowerSeMac {
        PressAction::Key(kc::QUOTE)
    } else if base_is(perm, active, KeymapLayer::DvorakAnsi) {
        PressAction::Key(kc::V)
    } else if base_is(perm, active, KeymapLayer::DvorakSe) || base_is(perm, active, KeymapLayer::DvorakSeMac) {
        PressAction::Key(kc::V)
    } else if base_is(perm, active, KeymapLayer::QwertyGaming) {
        PressAction::Key(kc::DOT)
    } else {
        PressAction::Nothing
    }
}

fn right_row2_col3_on_press(perm: Option<KeymapLayer>, active: KeymapLayer) -> (r: PressAction)
    ensures
        r == lay::right_row2_col3_press(perm, active),
{
    if active == KeymapLayer::Settings {
        PressAction::PermLayer(KeymapLayer::DvorakSe)
    } else if active == KeymapLayer::Raise {
        PressAction::Key(kc::PAGE_DOWN)
    } else if active == KeymapLayer::Lower || active == KeymapLayer::LowerSeMac {
        PressAction::Key(kc::LEFT_BRACKET)
    } else if base_is(perm, active, KeymapLayer::DvorakAnsi) {
        PressAction::Key(kc::W)
    } else if base_is(perm, active, KeymapLayer::DvorakSe) || base_is(perm, active, KeymapLayer::DvorakSeMac) {
        PressAction::Key(kc::W)
    } else if base_is(perm, active, KeymapLayer::QwertyGaming) {
        PressAction::Key(kc::COMMA)
    } else {
        PressAction::Nothing
    }
}

fn right_row2_col4_on_press(perm: Option<KeymapLayer>, active: KeymapLayer) -> (r: PressAction)
    ensures
        r == lay::right_row2_col4_press(perm, active),
{
    if active == KeymapLayer::Settings {
        PressAction::PermLayer(KeymapLayer::QwertyGaming)
    } else if active == KeymapLayer::LowerAnsi {
        PressAction::Key(kc::PIPE)
    } else if active == KeymapLayer::Lower {
        PressAction::Temp(kc::NON_US_BACKSLASH, kc::RIGHT_ALT, 0)
    } else if active == KeymapLayer::LowerSeMac {
        PressAction::Temp(kc::N7, kc::LEFT_ALT, 0)
    } else if base_is(perm, active, KeymapLayer::DvorakAnsi) {
        PressAction::Key(kc::M)
    } else if base_is(perm, active, KeymapLayer::DvorakSe) || base_is(perm, active, KeymapLayer::DvorakSeMac) {
        PressAction::Key(kc::M)
    } else if base_is(perm, active, KeymapLayer::QwertyGaming) {
        PressAction::Key(kc::M)
    } else {
        PressAction::Nothing
    }
}

fn right_row2_col5_on_press(perm: Option<KeymapLayer>, active: KeymapLayer) -> (r: PressAction)
    ensures
        r == lay::right_row2_col5_press(perm, active),
{
    if active == KeymapLayer::Settings {
        PressAction::PermLayer(KeymapLayer::DvorakSeMac)
    } else if active == KeymapLayer::LowerAnsi {
        PressAction::Key(kc::GRAVE)
    } else if active == KeymapLayer::Lower {
        PressAction::EqualsTwice
    } else if active == KeymapLayer::LowerSeMac {
        PressAction::EqualsSpace
    } else if base_is(perm, active, KeymapLayer::DvorakAnsi) {
        PressAction::Key(kc::B)
    } else if base_is(perm, active, KeymapLayer::DvorakSe) || base_is(perm, active, KeymapLayer::DvorakSeMac) {
        PressAction::Key(kc::B)
    } else if base_is(perm, active, KeymapLayer::QwertyGaming) {
        PressAction::Key(kc::N)
    } else {
        PressAction::Nothing
    }
}

fn right_row3_col0_on_press(perm: Option<KeymapLayer>, active: KeymapLayer) -> (r: PressAction)
    ensures
        r == lay::right_row3_col0_press(perm, active),
{
    PressAction::Modifier(kc::LEFT_CONTROL)
}

fn right_row3_col1_on_press(perm: Option<KeymapLayer>, active: KeymapLayer) -> (r: PressAction)
    ensures
        r == lay::right_row3_col1_press(perm, active),
{
    if active == KeymapLayer::Settings {
        PressAction::Nothing
    } else if base_is(perm, active, KeymapLayer::DvorakSe) {
        PressAction::TempLayer(KeymapLayer::Settings)
    } else if base_is(perm, active, KeymapLayer::DvorakSeMac) {
        PressAction::TempLayer(KeymapLayer::Settings)
    } else if base_is(perm, active, KeymapLayer::DvorakAnsi) {
        PressAction::TempLayer(KeymapLayer::Settings)
    } else if base_is(perm, active, KeymapLayer::QwertyGaming) {
        PressAction::TempLayer(KeymapLayer::Settings)
    } else {
        PressAction::Nothing
    }
}

fn right_row3_col2_on_press(perm: Option<KeymapLayer>, active: KeymapLayer) -> (r: PressAction)
    ensures
        r == lay::right_row3_col2_press(perm, active),
{
    PressAction::Modifier(kc::RIGHT_ALT)
}

fn right_row3_col3_on_press(perm: Option<KeymapLayer>, active: KeymapLayer) -> (r: PressAction)
    ensures
        r == lay::right_row3_col3_press(perm, active),
{
    if active == KeymapLayer::Raise {
        PressAction::Nothing
    } else if base_is(perm, active, KeymapLayer::DvorakSe) {
        PressAction::TempLayer(KeymapLayer::Raise)
    } else if base_is(perm, active, KeymapLayer::DvorakSeMac) {
        PressAction::TempLayer(KeymapLayer::Raise)
    } else if base_is(perm, active, KeymapLayer::DvorakAnsi) {
        PressAction::TempLayer(KeymapLayer::Raise)
    } else if base_is(perm, active, KeymapLayer::QwertyGaming) {
        PressAction::TempLayer(KeymapLayer::Raise)
    } else {
        PressAction::Nothing
    }
}

fn right_row3_col4_on_press(perm: Option<KeymapLayer>, active: KeymapLayer) -> (r: PressAction)
    ensures
        r == lay::right_row3_col4_press(perm, active),
{
    if active == KeymapLayer::Num {
        PressAction::Nothing
    } else if base_is(perm, active, KeymapLayer::QwertyGaming) {
        PressAction::Key(kc::I)
    } else if base_is(perm, active, KeymapLayer::DvorakSe) {
        PressAction::TempLayer(KeymapLayer::Num)
    } else if base_is(perm, active, KeymapLayer::DvorakSeMac) {
        PressAction::TempLayer(KeymapLayer::Num)
    } else if base_is(perm, active, KeymapLayer::DvorakAnsi) {
        PressAction::TempLayer(KeymapLayer::Num)
    } else {
        PressAction::Nothing
    }
}

fn right_row3_col5_on_press(perm: Option<KeymapLayer>, active: KeymapLayer) -> (r: PressAction)
    ensures
        r == lay::right_row3_col5_press(perm, active),
{
    if base_is(perm, active, KeymapLayer::DvorakAnsi) {
        PressAction::Key(kc::SPACE)
    } else if base_is(perm, active, KeymapLayer::DvorakSe) || base_is(perm, active, KeymapLayer::DvorakSeMac) {
        PressAction::Key(kc::SPACE)
    } else if base_is(perm, active, KeymapLayer::QwertyGaming) {
        PressAction::Key(kc::G)
    } else {
        PressAction::Nothing
    }
}

fn right_row4_col1_on_press(perm: Option<KeymapLayer>, active: KeymapLayer) -> (r: PressAction)
    ensures
        r == lay::right_row4_col1_press(perm, active),
{
    PressAction::Nothing
}

fn right_row4_col2_on_press(perm: Option<KeymapLayer>, active: KeymapLayer) -> (r: PressAction)
    ensures
        r == lay::right_row4_col2_press(perm, active),
{
    PressAction::Key(kc::N2)
}

fn right_row4_col3_on_press(perm: Option<KeymapLayer>, active: KeymapLayer) -> (r: PressAction)
    ensures
        r == lay::right_row4_col3_press(perm, active),
{
    PressAction::Key(kc::N3)
}

fn right_row4_col4_on_press(perm: Option<KeymapLayer>, active: KeymapLayer) -> (r: PressAction)
    ensures
        r == lay::right_row4_col4_press(perm, active),
{
    PressAction::Key(kc::N4)
}

fn right_row4_col5_on_press(perm: Option<KeymapLayer>, active: KeymapLayer) -> (r: PressAction)
    ensures
        r == lay::right_row4_col5_press(perm, active),
{
    PressAction::Key(kc::N5)
}

fn exec_right_release_action(index: u8, perm: Option<KeymapLayer>, active: KeymapLayer) -> (r: ReleaseAction)
    ensures
        r == right_release_action(index, perm, active),
{
    match index {
        0 => right_row0_col0_on_release(perm, active),
        1 => right_row0_col1_on_release(perm, active),
        2 => right_row0_col2_on_release(perm, active),
        3 => right_row0_col3_on_release(perm, active),
        4 => right_row0_col4_on_release(perm, active),
        5 => right_row0_col5_on_release(perm, active),
        6 => right_row1_col0_on_release(perm, active),
        7 => right_row1_col1_on_release(perm, active),
        8 => right_row1_col2_on_release(perm, active),
        9 => right_row1_col3_on_release(perm, active),
        10 => right_row1_col4_on_release(perm, active),
        11 => right_row1_col5_on_release(perm, active),
        12 => right_row2_col0_on_release(perm, active),
        13 => right_row2_col1_on_release(perm, active),
        14 => right_row2_col2_on_release(perm, active),
        15 => right_row2_col3_on_release(perm, active),
        16 => right_row2_col4_on_release(perm, active),
        17 => right_row2_col5_on_release(perm, active),
        18 => right_row3_col0_on_release(perm, active),
        19 => right_row3_col1_on_release(perm, active),
        20 => right_row3_col2_on_release(perm, active),
        21 => right_row3_col3_on_release(perm, active),
        22 => right_row3_col4_on_release(perm, active),
        23 => right_row3_col5_on_release(perm, active),
        25 => right_row4_col1_on_release(perm, active),
        26 => right_row4_col2_on_release(perm, active),
        27 => right_row4_col3_on_release(perm, active),
        28 => right_row4_col4_on_release(perm, active),
        29 => right_row4_col5_on_release(perm, active),
        _ => ReleaseAction::Nothing,
    }
}

fn right_row0_col0_on_release(perm: Option<KeymapLayer>, active: KeymapLayer) -> (r: ReleaseAction)
    ensures
        r == lay::right_row0_col0_release(perm, active),
{
    ReleaseAction::Key(kc::BACKSPACE)
}

fn right_row0_col1_on_release(perm: Option<KeymapLayer>, active: KeymapLayer) -> (r: ReleaseAction)
    ensures
        r == lay::right_row0_col1_release(perm, active),
{
    if active == KeymapLayer::Raise {
        ReleaseAction::Key(kc::F10)
    } else if active == KeymapLayer::LowerAnsi || active == KeymapLayer::Lower || active == KeymapLayer::LowerSeMac {
        ReleaseAction::Restore
    } else if base_is(perm, active, KeymapLayer::DvorakAnsi) {
        ReleaseAction::Key(kc::L)
    } else if base_is(perm, active, KeymapLayer::DvorakSe) || base_is(perm, active, KeymapLayer::DvorakSeMac) {
        ReleaseAction::Key(kc::L)
    } else if base_is(perm, active, KeymapLayer::QwertyGaming) {
        ReleaseAction::Key(kc::N0)
    } else {
        ReleaseAction::Nothing
    }
}

fn right_row0_col2_on_release(perm: Option<KeymapLayer>, active: KeymapLayer) -> (r: ReleaseAction)
    ensures
        r == lay::right_row0_col2_release(perm, active),
{
    if active == KeymapLayer::Raise {
        ReleaseAction::Key(kc::F9)
    } else if active == KeymapLayer::LowerAnsi || active == KeymapLayer::Lower || active == KeymapLayer::LowerSeMac {
        ReleaseAction::Restore
    } else if base_is(perm, active, KeymapLayer::DvorakAnsi) {
        ReleaseAction::Key(kc::R)
    } else if base_is(perm, active, KeymapLayer::DvorakSe) || base_is(perm, active, KeymapLayer::DvorakSeMac) {
        ReleaseAction::Key(kc::R)
    } else if base_is(perm, active, KeymapLayer::QwertyGaming) {
        ReleaseAction::Key(kc::N9)
    } else {
        ReleaseAction::Nothing
    }
}

fn right_row0_col3_on_release(perm: Option<KeymapLayer>, active: KeymapLayer) -> (r: ReleaseAction)
    ensures
        r == lay::right_row0_col3_release(perm, active),
{
    if active == KeymapLayer::Raise {
        ReleaseAction::Key(kc::F8)
    } else if active == KeymapLayer::LowerAnsi || active == KeymapLayer::Lower || active == KeymapLayer::LowerSeMac {
        ReleaseAction::Restore
    } else if base_is(perm, active, KeymapLayer::DvorakAnsi) {
        ReleaseAction::Key(kc::C)
    } else if base_is(perm, active, KeymapLayer::DvorakSe) || base_is(perm, active, KeymapLayer::DvorakSeMac) {
        ReleaseAction::Key(kc::C)
    } else if base_is(perm, active, KeymapLayer::QwertyGaming) {
        ReleaseAction::Key(kc::N8)
    } else {
        ReleaseAction::Nothing
    }
}

fn right_row0_col4_on_release(perm: Option<KeymapLayer>, active: KeymapLayer) -> (r: ReleaseAction)
    ensures
        r == lay::right_row0_col4_release(perm, active),
{
    if active == KeymapLayer::Raise {
        ReleaseAction::Key(kc::F7)
    } else if active == KeymapLayer::LowerAnsi || active == KeymapLayer::Lower || active == KeymapLayer::LowerSeMac {
        ReleaseAction::Restore
    } else if base_is(perm, active, KeymapLayer::DvorakAnsi) {
        ReleaseAction::Key(kc::G)
    } else if base_is(perm, active, KeymapLayer::DvorakSe) || base_is(perm, active, KeymapLayer::DvorakSeMac) {
        ReleaseAction::Key(kc::G)
    } else if base_is(perm, active, KeymapLayer::QwertyGaming) {
        ReleaseAction::Key(kc::N7)
    } else {
        ReleaseAction::Nothing
    }
}

fn right_row0_col5_on_release(perm: Option<KeymapLayer>, active: KeymapLayer) -> (r: ReleaseAction)
    ensures
        r == lay::right_row0_col5_release(perm, active),
{
    if active == KeymapLayer::Raise {
        ReleaseAction::Key(kc::F6)
    } else if active == KeymapLayer::LowerAnsi || active == KeymapLayer::Lower || active == KeymapLayer::LowerSeMac {
        ReleaseAction::Restore
    } else if base_is(perm, active, KeymapLayer::DvorakAnsi) {
        ReleaseAction::Key(kc::F)
    } else if base_is(perm, active, KeymapLayer::DvorakSe) || base_is(perm, active, KeymapLayer::DvorakSeMac) {
        ReleaseAction::Key(kc::F)
    } else if base_is(perm, active, KeymapLayer::QwertyGaming) {
        ReleaseAction::Key(kc::N6)
    } else {
        ReleaseAction::Nothing
    }
}

fn right_row1_col0_on_release(perm: Option<KeymapLayer>, active: KeymapLayer) -> (r: ReleaseAction)
    ensures
        r == lay::right_row1_col0_release(perm, active),
{
    ReleaseAction::Key(kc::ENTER)
}

fn right_row1_col1_on_release(perm: Option<KeymapLayer>, active: KeymapLayer) -> (r: ReleaseAction)
    ensures
        r == lay::right_row1_col1_release(perm, active),
{
    if active == KeymapLayer::Num {
        ReleaseAction::Key(kc::N0)
    } else if active == KeymapLayer::Raise {
        ReleaseAction::Key(kc::KC_DELF)
    } else if active == KeymapLayer::LowerAnsi {
        ReleaseAction::Key(kc::DASH)
    } else if active == KeymapLayer::Lower || active == KeymapLayer::LowerSeMac {
        ReleaseAction::Key(kc::SLASH)
    } else if base_is(perm, active, KeymapLayer::DvorakAnsi) {
        ReleaseAction::Key(kc::S)
    } else if base_is(perm, active, KeymapLayer::DvorakSe) || base_is(perm, active, KeymapLayer::DvorakSeMac) {
        ReleaseAction::Key(kc::S)
    } else if base_is(perm, active, KeymapLayer::QwertyGaming) {
        ReleaseAction::Key(kc::SEMICOLON)
    } else {
        ReleaseAction::Nothing
    }
}

fn right_row1_col2_on_release(perm: Option<KeymapLayer>, active: KeymapLayer) -> (r: ReleaseAction)
    ensures
        r == lay::right_row1_col2_release(perm, active),
{
    if active == KeymapLayer::Num {
        ReleaseAction::Key(kc::N9)
    } else if active == KeymapLayer::Raise {
        ReleaseAction::Key(kc::HOME)
    } else if active == KeymapLayer::LowerAnsi || active == KeymapLayer::Lower || active == KeymapLayer::LowerSeMac {
        ReleaseAction::Restore
    } else if base_is(perm, active, KeymapLayer::DvorakAnsi) {
        ReleaseAction::Key(kc::N)
    } else if base_is(perm, active, KeymapLayer::DvorakSe) || base_is(perm, active, KeymapLayer::DvorakSeMac) {
        ReleaseAction::Key(kc::N)
    } else if base_is(perm, active, KeymapLayer::QwertyGaming) {
        ReleaseAction::Key(kc::L)
    } else {
        ReleaseAction::Nothing
    }
}

fn right_row1_col3_on_release(perm: Option<KeymapLayer>, active: KeymapLayer) -> (r: ReleaseAction)
    ensures
        r == lay::right_row1_col3_release(perm, active),
{
    if active == KeymapLayer::Num {
        ReleaseAction::Key(kc::N8)
    } else if active == KeymapLayer::Raise {
        ReleaseAction::Key(kc::PAGE_UP)
    } else if active == KeymapLayer::LowerAnsi || active == KeymapLayer::Lower || active == KeymapLayer::LowerSeMac {
        ReleaseAction::Restore
    } else if base_is(perm, active, KeymapLayer::DvorakAnsi) {
        ReleaseAction::Key(kc::T)
    } else if base_is(perm, active, KeymapLayer::DvorakSe) || base_is(perm, active, KeymapLayer::DvorakSeMac) {
        ReleaseAction::Key(kc::T)
    } else if base_is(perm, active, KeymapLayer::QwertyGaming) {
        ReleaseAction::Key(kc::K)
    } else {
        ReleaseAction::Nothing
    }
}

fn right_row1_col4_on_release(perm: Option<KeymapLayer>, active: KeymapLayer) -> (r: ReleaseAction)
    ensures
        r == lay::right_row1_col4_release(perm, active),
{
    if active == KeymapLayer::Lower || active == KeymapLayer::LowerSeMac {
        ReleaseAction::Restore
    } else if active == KeymapLayer::Num {
        ReleaseAction::Key(kc::N7)
    } else if active == KeymapLayer::Raise {
        ReleaseAction::Key(kc::PRINT_SCREEN)
    } else if active == KeymapLayer::LowerAnsi {
        ReleaseAction::Key(kc::SLASH)
    } else if base_is(perm, active, KeymapLayer::DvorakAnsi) {
        ReleaseAction::Key(kc::H)
    } else if base_is(perm, active, KeymapLayer::DvorakSe) || base_is(perm, active, KeymapLayer::DvorakSeMac) {
        ReleaseAction::Key(kc::H)
    } else if base_is(perm, active, KeymapLayer::QwertyGaming) {
        ReleaseAction::Key(kc::J)
    } else {
        ReleaseAction::Nothing
    }
}

fn right_row1_col5_on_release(perm: Option<KeymapLayer>, active: KeymapLayer) -> (r: ReleaseAction)
    ensures
        r == lay::right_row1_col5_release(perm, active),
{
    if active == KeymapLayer::Num {
        ReleaseAction::Key(kc::N6)
    } else if active == KeymapLayer::Raise {
        ReleaseAction::Key(kc::F12)
    } else if active == KeymapLayer::LowerAnsi {
        ReleaseAction::Key(kc::BACKSLASH)
    } else if active == KeymapLayer::Lower || active == KeymapLayer::LowerSeMac {
        ReleaseAction::Restore
    } else if base_is(perm, active, KeymapLayer::DvorakAnsi) {
        ReleaseAction::Key(kc::D)
    } else if base_is(perm, active, KeymapLayer::DvorakSe) || base_is(perm, active, KeymapLayer::DvorakSeMac) {
        ReleaseAction::Key(kc::D)
    } else if base_is(perm, active, KeymapLayer::QwertyGaming) {
        ReleaseAction::Key(kc::H)
    } else {
        ReleaseAction::Nothing
    }
}

fn right_row2_col0_on_release(perm: Option<KeymapLayer>, active: KeymapLayer) -> (r: ReleaseAction)
    ensures
        r == lay::right_row2_col0_release(perm, active),
{
    ReleaseAction::Modifier(kc::LEFT_SHIFT)
}

fn right_row2_col1_on_release(perm: Option<KeymapLayer>, active: KeymapLayer) -> (r: ReleaseAction)
    ensures
        r == lay::right_row2_col1_release(perm, active),
{
    if active == KeymapLayer::Raise {
        ReleaseAction::Key(kc::INSERT)
    } else if active == KeymapLayer::Lower || active == KeymapLayer::LowerSeMac {
        ReleaseAction::Key(kc::SEMICOLON)
    } else if base_is(perm, active, KeymapLayer::DvorakAnsi) {
        ReleaseAction::Key(kc::Z)
    } else if base_is(perm, active, KeymapLayer::DvorakSe) || base_is(perm, active, KeymapLayer::DvorakSeMac) {
        ReleaseAction::Key(kc::Z)
    } else if base_is(perm, active, KeymapLayer::QwertyGaming) {
        ReleaseAction::Key(kc::QUOTE)
    } else {
        ReleaseAction::Nothing
    }
}

fn right_row2_col2_on_release(perm: Option<KeymapLayer>, active: KeymapLayer) -> (r: ReleaseAction)
    ensures
        r == lay::right_row2_col2_release(perm, active),
{
    if active == KeymapLayer::Raise {
        ReleaseAction::Key(kc::END)
    } else if active == KeymapLayer::Lower || active == KeymapLayer::LowerSeMac {
        ReleaseAction::Key(kc::QUOTE)
    } else if base_is(perm, active, KeymapLayer::DvorakAnsi) {
        ReleaseAction::Key(kc::V)
    } else if base_is(perm, active, KeymapLayer::DvorakSe) || base_is(perm, active, KeymapLayer::DvorakSeMac) {
        ReleaseAction::Key(kc::V)
    } else if base_is(perm, active, KeymapLayer::QwertyGaming) {
        ReleaseAction::Key(kc::DOT)
    } else {
        ReleaseAction::Nothing
    }
}

fn right_row2_col3_on_release(perm: Option<KeymapLayer>, active: KeymapLayer) -> (r: ReleaseAction)
    ensures
        r == lay::right_row2_col3_release(perm, active),
{
    if active == KeymapLayer::Raise {
        ReleaseAction::Key(kc::PAGE_DOWN)
    } else if active == KeymapLayer::Lower || active == KeymapLayer::LowerSeMac {
        ReleaseAction::Key(kc::LEFT_BRACKET)
    } else if base_is(perm, active, KeymapLayer::DvorakAnsi) {
        ReleaseAction::Key(kc::W)
    } else if base_is(perm, active, KeymapLayer::DvorakSe) || base_is(perm, active, KeymapLayer::DvorakSeMac) {
        ReleaseAction::Key(kc::W)
    } else if base_is(perm, active, KeymapLayer::QwertyGaming) {
        ReleaseAction::Key(kc::COMMA)
    } else {
        ReleaseAction::Nothing
    }
}

fn right_row2_col4_on_release(perm: Option<KeymapLayer>, active: KeymapLayer) -> (r: ReleaseAction)
    ensures
        r == lay::right_row2_col4_release(perm, active),
{
    if active == KeymapLayer::LowerAnsi {
        ReleaseAction::Key(kc::PIPE)
    } else if active == KeymapLayer::Lower || active == KeymapLayer::LowerSeMac {
        ReleaseAction::Restore
    } else if base_is(perm, active, KeymapLayer::DvorakAnsi) {
        ReleaseAction::Key(kc::M)
    } else if base_is(perm, active, KeymapLayer::DvorakSe) || base_is(perm, active, KeymapLayer::DvorakSeMac) {
        ReleaseAction::Key(kc::M)
    } else if base_is(perm, active, KeymapLayer::QwertyGaming) {
        ReleaseAction::Key(kc::M)
    } else {
        ReleaseAction::Nothing
    }
}

fn right_row2_col5_on_release(perm: Option<KeymapLayer>, active: KeymapLayer) -> (r: ReleaseAction)
    ensures
        r == lay::right_row2_col5_release(perm, active),
{
    if active == KeymapLayer::LowerAnsi {
        ReleaseAction::Key(kc::GRAVE)
    } else if active == KeymapLayer::Lower || active == KeymapLayer::LowerSeMac {
        ReleaseAction::Restore
    } else if base_is(perm, active, KeymapLayer::DvorakAnsi) {
        ReleaseAction::Key(kc::B)
    } else if base_is(perm, active, KeymapLayer::DvorakSe) || base_is(perm, active, KeymapLayer::DvorakSeMac) {
        ReleaseAction::Key(kc::B)
    } else if base_is(perm, active, KeymapLayer::QwertyGaming) {
        ReleaseAction::Key(kc::N)
    } else {
        ReleaseAction::Nothing
    }
}

fn right_row3_col0_on_release(perm: Option<KeymapLayer>, active: KeymapLayer) -> (r: ReleaseAction)
    ensures
        r == lay::right_row3_col0_release(perm, active),
{
    ReleaseAction::Modifier(kc::LEFT_CONTROL)
}

fn right_row3_col1_on_release(perm: Option<KeymapLayer>, active: KeymapLayer) -> (r: ReleaseAction)
    ensures
        r == lay::right_row3_col1_release(perm, active),
{
    if active == KeymapLayer::Settings {
        ReleaseAction::TempLayer(KeymapLayer::Settings)
    } else if base_is(perm, active, KeymapLayer::DvorakSe) || base_is(perm, active, KeymapLayer::DvorakSeMac) {
        ReleaseAction::Nothing
    } else if base_is(perm, active, KeymapLayer::DvorakAnsi) {
        ReleaseAction::Nothing
    } else if base_is(perm, active, KeymapLayer::QwertyGaming) {
        ReleaseAction::Nothing
    } else {
        ReleaseAction::Nothing
    }
}

fn right_row3_col2_on_release(perm: Option<KeymapLayer>, active: KeymapLayer) -> (r: ReleaseAction)
    ensures
        r == lay::right_row3_col2_release(perm, active),
{
    ReleaseAction::Modifier(kc::RIGHT_ALT)
}

fn right_row3_col3_on_release(perm: Option<KeymapLayer>, active: KeymapLayer) -> (r: ReleaseAction)
    ensures
        r == lay::right_row3_col3_release(perm, active),
{
    if active == KeymapLayer::Raise {
        ReleaseAction::TempLayer(KeymapLayer::Raise)
    } else if base_is(perm, active, KeymapLayer::DvorakSe) {
        ReleaseAction::Nothing
    } else if base_is(perm, active, KeymapLayer::DvorakAnsi) {
        ReleaseAction::Nothing
    } else if base_is(perm, active, KeymapLayer::QwertyGaming) {
        ReleaseAction::Nothing
    } else {
        ReleaseAction::Nothing
    }
}

fn right_row3_col4_on_release(perm: Option<KeymapLayer>, active: KeymapLayer) -> (r: ReleaseAction)
    ensures
        r == lay::right_row3_col4_release(perm, active),
{
    if active == KeymapLayer::Num {
        ReleaseAction::TempLayer(KeymapLayer::Num)
    } else if base_is(perm, active, KeymapLayer::QwertyGaming) {
        ReleaseAction::PressKey(kc::I)
    } else if base_is(perm, active, KeymapLayer::DvorakSe) || base_is(perm, active, KeymapLayer::DvorakSeMac) {
        ReleaseAction::Nothing
    } else if base_is(perm, active, KeymapLayer::DvorakAnsi) {
        ReleaseAction::Nothing
    } else {
        ReleaseAction::Nothing
    }
}

fn right_row3_col5_on_release(perm: Option<KeymapLayer>, active: KeymapLayer) -> (r: ReleaseAction)
    ensures
        r == lay::right_row3_col5_release(perm, active),
{
    if base_is(perm, active, KeymapLayer::DvorakAnsi) {
        ReleaseAction::Key(kc::SPACE)
    } else if base_is(perm, active, KeymapLayer::DvorakSe) || base_is(perm, active, KeymapLayer::DvorakSeMac) {
        ReleaseAction::Key(kc::SPACE)
    } else if base_is(perm, active, KeymapLayer::QwertyGaming) {
        ReleaseAction::Key(kc::G)
    } else {
        ReleaseAction::Nothing
    }
}

fn right_row4_col1_on_release(perm: Option<KeymapLayer>, active: KeymapLayer) -> (r: ReleaseAction)
    ensures
        r == lay::right_row4_col1_release(perm, active),
{
    ReleaseAction::Nothing
}

fn right_row4_col2_on_release(perm: Option<KeymapLayer>, active: KeymapLayer) -> (r: ReleaseAction)
    ensures
        r == lay::right_row4_col2_release(perm, active),
{
    ReleaseAction::Key(kc::N2)
}

fn right_row4_col3_on_release(perm: Option<KeymapLayer>, active: KeymapLayer) -> (r: ReleaseAction)
    ensures
        r == lay::right_row4_col3_release(perm, active),
{
    ReleaseAction::Key(kc::N3)
}

fn right_row4_col4_on_release(perm: Option<KeymapLayer>, active: KeymapLayer) -> (r: ReleaseAction)
    ensures
        r == lay::right_row4_col4_release(perm, active),
{
    ReleaseAction::Key(kc::N4)
}

fn right_row4_col5_on_release(perm: Option<KeymapLayer>, active: KeymapLayer) -> (r: ReleaseAction)
    ensures
        r == lay::right_row4_col5_release(perm, active),
{
    ReleaseAction::Key(kc::N5)
}

} // verus!
