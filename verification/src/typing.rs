//! What the keyboard types, stated as the layouts its layers are named
//! after and read across both halves as one keyboard: the Dvorak letter
//! block, the gaming layer's digits and letters, the number and raise
//! layers, the symbols of the lower layers as US and Swedish hosts type
//! them, the shift-dependent Swedish symbols, the settings layer's choice
//! of base layer, and how each release takes back its press.
use vstd::prelude::*;
use crate::keycodes as kc;
use crate::keycodes::Modifier;
use crate::keymap::{
    KeymapLayer, LastPressState, ReportStateView, key_position, lemma_push_then_pop_key, lemma_with_key_then_without,
    packed, slot_for, with_key,
};
use crate::mapping::{
    KeyNotice, PressAction, ReleaseAction, Side, apply_press, apply_release, on_base, press_action, press_effect,
    release_action,
};

verus! {

/// The layers a key switches to for as long as it is held.
pub open spec fn is_temp_layer(l: KeymapLayer) -> bool {
    ||| l == KeymapLayer::Lower
    ||| l == KeymapLayer::LowerSeMac
    ||| l == KeymapLayer::LowerAnsi
    ||| l == KeymapLayer::Raise
    ||| l == KeymapLayer::Num
    ||| l == KeymapLayer::Settings
}

/// The three Dvorak base layers.
pub open spec fn is_dvorak(l: KeymapLayer) -> bool {
    ||| l == KeymapLayer::DvorakAnsi
    ||| l == KeymapLayer::DvorakSe
    ||| l == KeymapLayer::DvorakSeMac
}

/// The layers in force type on the base layer `l`: no temporary layer is
/// held.
pub open spec fn typing_on(perm: Option<KeymapLayer>, active: KeymapLayer, l: KeymapLayer) -> bool {
    !is_temp_layer(active) && on_base(perm, active, l)
}

/// The column, counted from the left edge of the whole keyboard, of the
/// key in column `col` (1 to 5) of `side`; the halves count their columns
/// from their outer edges.
pub open spec fn block_column(side: Side, col: int) -> int {
    match side {
        Side::Left => col - 1,
        Side::Right => 10 - col,
    }
}

/// The Dvorak block of ten columns, top row first.
pub open spec fn dvorak_block() -> Seq<Seq<char>> {
    seq![
        seq!['\'', ',', '.', 'p', 'y', 'f', 'g', 'c', 'r', 'l'],
        seq!['a', 'o', 'e', 'u', 'i', 'd', 'h', 't', 'n', 's'],
        seq![';', 'q', 'j', 'k', 'x', 'b', 'm', 'w', 'v', 'z'],
    ]
}

/// The digits in keyboard order.
pub open spec fn digit_row() -> Seq<char> {
    seq!['1', '2', '3', '4', '5', '6', '7', '8', '9', '0']
}

/// The gaming layer's block of ten columns, top row first: the digit row,
/// then the letters shifted one column right on the left half.
pub open spec fn gaming_block() -> Seq<Seq<char>> {
    seq![
        digit_row(),
        seq!['t', 'q', 'w', 'e', 'r', 'h', 'j', 'k', 'l', ';'],
        seq!['y', 'a', 's', 'd', 'f', 'n', 'm', ',', '.', '\''],
        seq!['z', 'x', 'c', 'v', 'b', 'g', ' ', ' ', ' ', ' '],
    ]
}

/// The HID usage of a letter or a digit: letters from 0x04 in alphabetical
/// order, digits from 0x1e for `1` to 0x27 for `0`.
pub open spec fn usage_of(c: char) -> Option<u8> {
    if 'a' <= c && c <= 'z' {
        Some((c as int - 'a' as int + 4) as u8)
    } else if '1' <= c && c <= '9' {
        Some((c as int - '1' as int + 0x1e) as u8)
    } else if c == '0' {
        Some(0x27u8)
    } else {
        None
    }
}

/// On each Dvorak base layer every letter key of the three letter rows
/// types the letter of the Dvorak layout at its place, and its release lets
/// the same letter go.
pub proof fn lemma_dvorak_letters(
    l: KeymapLayer,
    perm: Option<KeymapLayer>,
    active: KeymapLayer,
    side: Side,
    row: int,
    col: int,
    generation: usize,
)
    requires
        is_dvorak(l),
        typing_on(perm, active, l),
        0 <= row < 3,
        1 <= col <= 5,
        usage_of(dvorak_block()[row][block_column(side, col)]) is Some,
    ensures
        ({
            let u = usage_of(dvorak_block()[row][block_column(side, col)])->0;
            let index = (row * 6 + col) as u8;
            &&& press_action(side, index, perm, active) == PressAction::Key(u)
            &&& release_action(side, index, LastPressState { generation, layer: active, last_perm_layer: perm })
                == ReleaseAction::Key(u)
        }),
{
    assert(row == 0 || row == 1 || row == 2);
    assert(col == 1 || col == 2 || col == 3 || col == 4 || col == 5);
    assert(side == Side::Left || side == Side::Right);
}

/// On the gaming layer every digit and letter key of its block types the
/// digit or letter at its place, and its release lets it go.
pub proof fn lemma_gaming_keys(
    perm: Option<KeymapLayer>,
    active: KeymapLayer,
    side: Side,
    row: int,
    col: int,
    generation: usize,
)
    requires
        typing_on(perm, active, KeymapLayer::QwertyGaming),
        0 <= row < 4,
        1 <= col <= 5,
        usage_of(gaming_block()[row][block_column(side, col)]) is Some,
    ensures
        ({
            let u = usage_of(gaming_block()[row][block_column(side, col)])->0;
            let index = (row * 6 + col) as u8;
            &&& press_action(side, index, perm, active) == PressAction::Key(u)
            &&& release_action(side, index, LastPressState { generation, layer: active, last_perm_layer: perm })
                == ReleaseAction::Key(u)
        }),
{
    assert(row == 0 || row == 1 || row == 2 || row == 3);
    assert(col == 1 || col == 2 || col == 3 || col == 4 || col == 5);
    assert(side == Side::Left || side == Side::Right);
}

proof fn lemma_slot_from(keys: Seq<u8>, k: u8, i: int)
    requires
        0 <= i <= 6,
    ensures
        i <= slot_for(keys, k, i) <= 6,
        slot_for(keys, k, i) < 6 ==> keys[slot_for(keys, k, i)] == 0 || keys[slot_for(keys, k, i)] == k,
    decreases 6 - i,
{
    if i < 6 && !(keys[i] == 0 || keys[i] == k) {
        lemma_slot_from(keys, k, i + 1);
    }
}

/// A key that goes down is in the six key slots afterwards.
pub proof fn lemma_key_goes_in(keys: Seq<u8>, k: u8)
    requires
        keys.len() == 6,
    ensures
        with_key(keys, k).len() == 6,
        with_key(keys, k).contains(k),
{
    lemma_slot_from(keys, k, 0);
    let i = slot_for(keys, k, 0);
    if i < 6 {
        assert(with_key(keys, k)[i] == k);
    } else {
        assert(with_key(keys, k)[5] == k);
    }
}

/// The `>` / `.` key of the Swedish layouts, `AngleOrDot(k)`: with left
/// shift held by the user it sends `k` (the `>` key) with shift kept;
/// otherwise a dot. Either way it marks which of the two its release takes
/// back.
pub proof fn lemma_angle_or_dot(m: ReportStateView, k: u8)
    requires
        m.report.keycodes.len() == 6,
        m.user_keys.len() == 6,
    ensures
        ({
            let r = apply_press(PressAction::AngleOrDot(k), m).0;
            &&& r.report.modifier == m.report.modifier
            &&& m.has_user_modifier(kc::LEFT_SHIFT) ==> r.report.keycodes.contains(k) && r.user_keys.contains(k)
                && r.jank.pressing_right_bracket && r.jank.pressing_dot == m.jank.pressing_dot
            &&& !m.has_user_modifier(kc::LEFT_SHIFT) ==> r.report.keycodes.contains(kc::DOT)
                && r.user_keys.contains(kc::DOT) && r.jank.pressing_dot
                && r.jank.pressing_right_bracket == m.jank.pressing_right_bracket
        }),
{
    lemma_key_goes_in(m.report.keycodes, k);
    lemma_key_goes_in(m.user_keys, k);
    lemma_key_goes_in(m.report.keycodes, kc::DOT);
    lemma_key_goes_in(m.user_keys, kc::DOT);
}

/// The `<` / `,` key of the Swedish layouts, `AngleOrComma(k)`: with left
/// shift held by the user it sends `k` (the `<` key) with left shift taken
/// out of the report for this key only; otherwise a comma.
pub proof fn lemma_angle_or_comma(m: ReportStateView, k: u8)
    requires
        m.report.keycodes.len() == 6,
        m.user_keys.len() == 6,
    ensures
        ({
            let r = apply_press(PressAction::AngleOrComma(k), m).0;
            &&& m.has_user_modifier(kc::LEFT_SHIFT) ==> r.report.keycodes.contains(k)
                && r.report.modifier & kc::LEFT_SHIFT == 0 && r.user_keys == m.user_keys
                && r.user_mods == m.user_mods && r.jank.pressing_left_bracket
            &&& !m.has_user_modifier(kc::LEFT_SHIFT) ==> r.report.keycodes.contains(kc::COMMA)
                && r.user_keys.contains(kc::COMMA) && r.report.modifier == m.report.modifier
                && r.jank.pressing_comma
        }),
{
    reveal_with_fuel(ReportStateView::temp_remove_modifiers, 2);
    lemma_key_goes_in(m.report.keycodes, k);
    lemma_key_goes_in(m.report.keycodes, kc::COMMA);
    lemma_key_goes_in(m.user_keys, kc::COMMA);
    let x = m.report.modifier;
    assert((x & !2u8) & 2u8 == 0) by (bit_vector);
}

/// The `:` / `;` key of the Swedish layouts: with left shift held by the
/// user it sends shifted dot (`:`), otherwise shifted comma (`;`); the
/// report has left shift for this key either way, and nothing is added to
/// what the user holds.
pub proof fn lemma_colon_or_semicolon(m: ReportStateView)
    requires
        m.report.keycodes.len() == 6,
        m.user_keys.len() == 6,
    ensures
        ({
            let r = apply_press(PressAction::ColonOrSemicolon, m).0;
            &&& r.report.modifier & kc::LEFT_SHIFT != 0
            &&& r.user_keys == m.user_keys
            &&& m.has_user_modifier(kc::LEFT_SHIFT) ==> r.report.keycodes.contains(kc::DOT)
                && r.jank.pressing_reg_colon
            &&& !m.has_user_modifier(kc::LEFT_SHIFT) ==> r.report.keycodes.contains(kc::COMMA)
                && r.jank.pressing_semicolon
        }),
{
    reveal_with_fuel(ReportStateView::push_temp_modifiers, 2);
    lemma_key_goes_in(m.report.keycodes, kc::DOT);
    lemma_key_goes_in(m.report.keycodes, kc::COMMA);
    let x = m.report.modifier;
    assert((x | 2u8) & 2u8 != 0) by (bit_vector);
}

/// The quote key of the Swedish layouts: with either shift held by the
/// user it sends shifted `2` (`"`), otherwise the `'` key.
pub proof fn lemma_shifted_quote(m: ReportStateView)
    requires
        m.report.keycodes.len() == 6,
        m.user_keys.len() == 6,
    ensures
        ({
            let r = apply_press(PressAction::ShiftedQuote, m).0;
            &&& r.report.modifier == m.report.modifier
            &&& m.has_user_modifier(kc::ANY_SHIFT) ==> r.report.keycodes.contains(kc::N2)
                && r.user_keys.contains(kc::N2) && r.jank.pressing_double_quote
            &&& !m.has_user_modifier(kc::ANY_SHIFT) ==> r.report.keycodes.contains(kc::BACKSLASH)
                && r.user_keys.contains(kc::BACKSLASH) && r.jank.pressing_single_quote
        }),
{
    lemma_key_goes_in(m.report.keycodes, kc::N2);
    lemma_key_goes_in(m.user_keys, kc::N2);
    lemma_key_goes_in(m.report.keycodes, kc::BACKSLASH);
    lemma_key_goes_in(m.user_keys, kc::BACKSLASH);
}

/// Which key of each Swedish layout is the `>` / `.` key and which the
/// `<` / `,` key, and that the US Dvorak layer types plain `,` and `.`
/// there.
pub proof fn lemma_angle_keys(perm: Option<KeymapLayer>, active: KeymapLayer)
    ensures
        typing_on(perm, active, KeymapLayer::DvorakSe) ==> press_action(Side::Left, 3, perm, active)
            == PressAction::AngleOrDot(kc::NON_US_BACKSLASH) && press_action(Side::Left, 2, perm, active)
            == PressAction::AngleOrComma(kc::NON_US_BACKSLASH),
        typing_on(perm, active, KeymapLayer::DvorakSeMac) ==> press_action(Side::Left, 3, perm, active)
            == PressAction::AngleOrDot(kc::GRAVE) && press_action(Side::Left, 2, perm, active)
            == PressAction::AngleOrComma(kc::GRAVE),
        typing_on(perm, active, KeymapLayer::DvorakAnsi) ==> press_action(Side::Left, 3, perm, active)
            == PressAction::Key(kc::DOT),
{
}

/// The base layer that each layer-select key of the settings layer makes
/// permanent.
pub open spec fn selects(index: u8, l: KeymapLayer) -> bool {
    ||| index == 14 && l == KeymapLayer::DvorakAnsi
    ||| index == 15 && l == KeymapLayer::DvorakSe
    ||| index == 16 && l == KeymapLayer::QwertyGaming
    ||| index == 17 && l == KeymapLayer::DvorakSeMac
}

/// On the settings layer, the layer-select keys of the right half's third
/// row each make their own base layer the permanent one and announce it:
/// the layer in force afterwards is that base layer, with no temporary
/// layer to fall back from, and nothing else of the report state changes.
pub proof fn lemma_settings_selects_base_layer(m: ReportStateView, index: u8, l: KeymapLayer)
    requires
        m.active_layer == KeymapLayer::Settings,
        selects(index, l),
    ensures
        ({
            let (n, notice) = press_effect(Side::Right, index, m);
            &&& notice == Some(KeyNotice::LayerChange(l))
            &&& n == (ReportStateView { active_layer: l, last_perm_layer: None, ..m })
            &&& !is_temp_layer(n.active_layer)
        }),
{
    reveal(press_effect);
}

/// Each base layer is chosen by exactly one of the layer-select keys.
pub proof fn lemma_settings_keys_distinct(i: u8, j: u8, l: KeymapLayer)
    requires
        selects(i, l),
        selects(j, l),
    ensures
        i == j,
{
}

/// The layers in force after a key whose action is `a` goes down: a
/// temporary layer falls back to the base layer, a permanent one replaces
/// the layer in force.
pub open spec fn layers_after(a: PressAction, perm: Option<KeymapLayer>, active: KeymapLayer) -> (
    Option<KeymapLayer>,
    KeymapLayer,
) {
    match a {
        PressAction::TempLayer(t) => (
            Some(
                match perm {
                    Some(p) => p,
                    None => active,
                },
            ),
            t,
        ),
        PressAction::PermLayer(p) => if p != active {
            (None, p)
        } else {
            (perm, active)
        },
        _ => (perm, active),
    }
}

/// Whether the release action `r` takes back what the press action `a`
/// did: a key or a modifier is let go, a temporary layer is left, a
/// shift-dependent symbol is undone, and a key sent with modifiers of its
/// own gives the report back to what the user holds.
pub open spec fn undoes(r: ReleaseAction, a: PressAction) -> bool {
    match a {
        PressAction::Nothing => r == ReleaseAction::Nothing,
        PressAction::Reboot => r == ReleaseAction::Nothing,
        PressAction::PermLayer(_) => r == ReleaseAction::Nothing,
        PressAction::Key(k) => r == ReleaseAction::Key(k),
        PressAction::Modifier(x) => r == ReleaseAction::Modifier(x),
        PressAction::TempLayer(l) => r == ReleaseAction::TempLayer(l),
        PressAction::ShiftedQuote => r == ReleaseAction::Quote,
        PressAction::AngleOrComma(_) => r == ReleaseAction::AngleOrComma,
        PressAction::AngleOrDot(k) => r == ReleaseAction::AngleOrDot(k),
        PressAction::ColonOrSemicolon => r == ReleaseAction::ColonOrSemicolon,
        _ => r == ReleaseAction::Restore,
    }
}

proof fn lemma_temp_modifiers_keep_layers(m: ReportStateView, mods: Seq<Modifier>)
    ensures
        m.push_temp_modifiers(mods).active_layer == m.active_layer,
        m.push_temp_modifiers(mods).last_perm_layer == m.last_perm_layer,
        m.temp_remove_modifiers(mods).active_layer == m.active_layer,
        m.temp_remove_modifiers(mods).last_perm_layer == m.last_perm_layer,
    decreases mods.len(),
{
    if mods.len() > 0 {
        let x = mods[0].0;
        let up = if m.report.modifier & x == 0 {
            m.with_report_mods(m.report.modifier | x).emit()
        } else {
            m
        };
        let down = if m.report.modifier & x != 0 {
            m.with_report_mods(m.report.modifier & !x).emit()
        } else {
            m
        };
        lemma_temp_modifiers_keep_layers(up, mods.drop_first());
        lemma_temp_modifiers_keep_layers(down, mods.drop_first());
    }
}

proof fn lemma_temp_modify_keeps_layers(m: ReportStateView, k: u8, add: Seq<Modifier>, remove: Seq<Modifier>)
    ensures
        m.temp_modify(k, add, remove).active_layer == m.active_layer,
        m.temp_modify(k, add, remove).last_perm_layer == m.last_perm_layer,
{
    lemma_temp_modifiers_keep_layers(m, add);
    lemma_temp_modifiers_keep_layers(m.push_temp_modifiers(add), remove);
}

/// The layers that a press leaves in force are those `layers_after` names.
pub proof fn lemma_press_layers(a: PressAction, m: ReportStateView)
    ensures
        (apply_press(a, m).0.last_perm_layer, apply_press(a, m).0.active_layer) == layers_after(
            a,
            m.last_perm_layer,
            m.active_layer,
        ),
{
    match a {
        PressAction::Temp(k, first, second) => {
            lemma_temp_modify_keeps_layers(m, k, crate::mapping::temp_mods(first, second), seq![]);
        },
        PressAction::AngleOrComma(k) => {
            lemma_temp_modify_keeps_layers(m, k, seq![], seq![Modifier(kc::LEFT_SHIFT)]);
        },
        PressAction::ColonOrSemicolon => {
            lemma_temp_modify_keeps_layers(m, kc::DOT, seq![Modifier(kc::LEFT_SHIFT)], seq![]);
            lemma_temp_modify_keeps_layers(m, kc::COMMA, seq![Modifier(kc::LEFT_SHIFT)], seq![]);
        },
        PressAction::TildeTwice => {
            let m1 = m.temp_modify(kc::RIGHT_BRACKET, seq![Modifier(kc::RIGHT_ALT)], seq![]);
            lemma_temp_modify_keeps_layers(m, kc::RIGHT_BRACKET, seq![Modifier(kc::RIGHT_ALT)], seq![]);
            lemma_temp_modify_keeps_layers(
                m1.pop_temp_key(kc::RIGHT_BRACKET),
                kc::RIGHT_BRACKET,
                seq![Modifier(kc::RIGHT_ALT)],
                seq![],
            );
        },
        PressAction::TildeSpace => {
            let m1 = m.temp_modify(kc::RIGHT_BRACKET, seq![Modifier(kc::LEFT_ALT)], seq![]);
            lemma_temp_modify_keeps_layers(m, kc::RIGHT_BRACKET, seq![Modifier(kc::LEFT_ALT)], seq![]);
            lemma_temp_modify_keeps_layers(
                m1.pop_temp_key(kc::RIGHT_BRACKET),
                kc::SPACE,
                seq![],
                seq![Modifier(kc::LEFT_ALT)],
            );
        },
        PressAction::Circumflex => {
            let m1 = m.temp_modify(kc::RIGHT_BRACKET, seq![Modifier(kc::LEFT_SHIFT)], seq![]);
            lemma_temp_modify_keeps_layers(m, kc::RIGHT_BRACKET, seq![Modifier(kc::LEFT_SHIFT)], seq![]);
            lemma_temp_modify_keeps_layers(
                m1.push_temp_key(kc::RIGHT_BRACKET),
                kc::SPACE,
                seq![],
                seq![Modifier(kc::LEFT_SHIFT)],
            );
        },
        PressAction::EqualsTwice => {
            lemma_temp_modify_keeps_layers(m, kc::EQUALS, seq![Modifier(kc::LEFT_SHIFT)], seq![]);
        },
        PressAction::EqualsSpace => {
            lemma_temp_modify_keeps_layers(m, kc::EQUALS, seq![Modifier(kc::LEFT_SHIFT)], seq![]);
        },
        _ => {},
    }
}

/// Whether the release of key `index` of `side` takes back what its press
/// did, when it went down with the layers `perm` and `active` in force.
pub open spec fn release_takes_back(
    side: Side,
    index: u8,
    perm: Option<KeymapLayer>,
    active: KeymapLayer,
    generation: usize,
) -> bool {
    let a = press_action(side, index, perm, active);
    let after = layers_after(a, perm, active);
    undoes(
        release_action(side, index, LastPressState { generation, layer: after.1, last_perm_layer: after.0 }),
        a,
    )
}

/// On a base layer with no temporary layer held, the release of every key
/// takes back what its press did, read by the layers the press left in
/// force. The gaming layer's `i` key (right half, slot 22) is the one
/// exception: its release presses `i` once more.
pub proof fn lemma_release_undoes_press(side: Side, index: u8, l: KeymapLayer, generation: usize)
    requires
        index < 30,
        index != 24,
        !is_temp_layer(l),
        !(side == Side::Right && index == 22 && l == KeymapLayer::QwertyGaming),
    ensures
        release_takes_back(side, index, None, l, generation),
{
    assert(index == 0 || index == 1 || index == 2 || index == 3 || index == 4 || index == 5
        || index == 6 || index == 7 || index == 8 || index == 9 || index == 10 || index == 11
        || index == 12 || index == 13 || index == 14 || index == 15 || index == 16 || index == 17
        || index == 18 || index == 19 || index == 20 || index == 21 || index == 22 || index == 23
        || index == 25 || index == 26 || index == 27 || index == 28 || index == 29);
    assert(l == KeymapLayer::DvorakSe || l == KeymapLayer::DvorakAnsi || l == KeymapLayer::DvorakSeMac
        || l == KeymapLayer::QwertyGaming);
    assert(side == Side::Left || side == Side::Right);
}

/// With a temporary layer held over a base layer, the release of every key
/// whose press did something other than choose a permanent layer takes
/// back what the press did, read by the layers the press left in force.
/// Slot 22 over the gaming layer is left out where it does not hold: on the
/// right half the release of its `i` presses `i` once more, and on the
/// left half its `v` comes up as the key that leaves a lower layer, which
/// the gaming layer has no key to enter.
#[verifier::rlimit(100)]
#[verifier::spinoff_prover]
pub proof fn lemma_release_undoes_press_on_temp_layer(
    side: Side,
    index: u8,
    base: KeymapLayer,
    temp: KeymapLayer,
    generation: usize,
)
    requires
        index < 30,
        index != 24,
        !is_temp_layer(base),
        is_temp_layer(temp),
        !(index == 22 && base == KeymapLayer::QwertyGaming && (side == Side::Right || temp
            == KeymapLayer::Lower || temp == KeymapLayer::LowerSeMac || temp == KeymapLayer::LowerAnsi)),
        press_action(side, index, Some(base), temp) != PressAction::Nothing,
        !(press_action(side, index, Some(base), temp) is PermLayer),
    ensures
        release_takes_back(side, index, Some(base), temp, generation),
{
    assert(index == 0 || index == 1 || index == 2 || index == 3 || index == 4 || index == 5
        || index == 6 || index == 7 || index == 8 || index == 9 || index == 10 || index == 11
        || index == 12 || index == 13 || index == 14 || index == 15 || index == 16 || index == 17
        || index == 18 || index == 19 || index == 20 || index == 21 || index == 22 || index == 23
        || index == 25 || index == 26 || index == 27 || index == 28 || index == 29);
    assert(base == KeymapLayer::DvorakSe || base == KeymapLayer::DvorakAnsi || base == KeymapLayer::DvorakSeMac
        || base == KeymapLayer::QwertyGaming);
    assert(side == Side::Left || side == Side::Right);
}

/// On the number layer the home row types the digits in keyboard order,
/// `1` to `5` on the left half and `6` to `0` on the right, and each
/// release lets its digit go, whatever base layer the number layer was
/// entered from.
pub proof fn lemma_num_layer_digits(perm: Option<KeymapLayer>, side: Side, col: int, generation: usize)
    requires
        1 <= col <= 5,
    ensures
        ({
            let u = usage_of(digit_row()[block_column(side, col)])->0;
            let index = (6 + col) as u8;
            &&& usage_of(digit_row()[block_column(side, col)]) is Some
            &&& press_action(side, index, perm, KeymapLayer::Num) == PressAction::Key(u)
            &&& release_action(
                side,
                index,
                LastPressState { generation, layer: KeymapLayer::Num, last_perm_layer: perm },
            ) == ReleaseAction::Key(u)
        }),
{
    assert(col == 1 || col == 2 || col == 3 || col == 4 || col == 5);
    assert(side == Side::Left || side == Side::Right);
}

/// The raise layer's three top rows, across both halves: the function keys
/// (the left half's last top key repeats `F4`, and `F5` has no key); the
/// arrows left, right, up and down, `F11`, `F12`, print screen, page up,
/// home and delete; and page down, end and insert at the right end of the
/// third row. A zero is a key the raise layer leaves to the base layer.
pub open spec fn raise_block() -> Seq<Seq<u8>> {
    seq![
        seq![kc::F1, kc::F2, kc::F3, kc::F4, kc::F4, kc::F6, kc::F7, kc::F8, kc::F9, kc::F10],
        seq![
            kc::LEFT_ARROW,
            kc::RIGHT_ARROW,
            kc::UP_ARROW,
            kc::DOWN_ARROW,
            kc::F11,
            kc::F12,
            kc::PRINT_SCREEN,
            kc::PAGE_UP,
            kc::HOME,
            kc::KC_DELF,
        ],
        seq![0, 0, 0, 0, 0, 0, 0, kc::PAGE_DOWN, kc::END, kc::INSERT],
    ]
}

/// On the raise layer each key of `raise_block` types the key at its
/// place, and its release lets it go, whatever base layer the raise layer
/// was entered from.
pub proof fn lemma_raise_layer_keys(perm: Option<KeymapLayer>, side: Side, row: int, col: int, generation: usize)
    requires
        0 <= row < 3,
        1 <= col <= 5,
        raise_block()[row][block_column(side, col)] != 0,
    ensures
        ({
            let u = raise_block()[row][block_column(side, col)];
            let index = (row * 6 + col) as u8;
            &&& press_action(side, index, perm, KeymapLayer::Raise) == PressAction::Key(u)
            &&& release_action(
                side,
                index,
                LastPressState { generation, layer: KeymapLayer::Raise, last_perm_layer: perm },
            ) == ReleaseAction::Key(u)
        }),
{
    assert(row == 0 || row == 1 || row == 2);
    assert(col == 1 || col == 2 || col == 3 || col == 4 || col == 5);
    assert(side == Side::Left || side == Side::Right);
}

/// The outer column of each half, top row first: tab, escape, shift and
/// control on the left; backspace, enter, shift and control on the right.
pub open spec fn outer_key(side: Side, row: int) -> PressAction {
    match side {
        Side::Left => seq![
            PressAction::Key(kc::TAB),
            PressAction::Key(kc::ESCAPE),
            PressAction::Modifier(kc::LEFT_SHIFT),
            PressAction::Modifier(kc::LEFT_CONTROL),
        ][row],
        Side::Right => seq![
            PressAction::Key(kc::BACKSPACE),
            PressAction::Key(kc::ENTER),
            PressAction::Modifier(kc::LEFT_SHIFT),
            PressAction::Modifier(kc::LEFT_CONTROL),
        ][row],
    }
}

/// The outer column does the same on every layer, held or not, and so do
/// the left thumb key that reboots into the bootloader and the right
/// thumb keys below, which type the digits `2` to `5` from the inside out.
pub proof fn lemma_outer_column(side: Side, row: int, perm: Option<KeymapLayer>, active: KeymapLayer)
    requires
        0 <= row < 4,
    ensures
        press_action(side, (row * 6) as u8, perm, active) == outer_key(side, row),
        press_action(Side::Left, 25, perm, active) == PressAction::Reboot,
        forall|c: int|
            2 <= c <= 5 ==> press_action(Side::Right, (24 + c) as u8, perm, active) == PressAction::Key(
                usage_of(#[trigger] digit_row()[c - 1])->0,
            ),
{
    assert forall|c: int| 2 <= c <= 5 implies press_action(Side::Right, (24 + c) as u8, perm, active)
        == PressAction::Key(usage_of(#[trigger] digit_row()[c - 1])->0) by {
        assert(c == 2 || c == 3 || c == 4 || c == 5);
    }
    assert(row == 0 || row == 1 || row == 2 || row == 3);
    assert(side == Side::Left || side == Side::Right);
}

/// What each plain press action does to what the host receives: a key
/// goes into the report and into what the user holds, a modifier is set
/// in both, a key with modifiers of its own goes into the report with
/// those modifiers set and what the user holds unchanged, a temporary
/// layer is entered over the base layer and announces it, and a reboot
/// is announced with nothing else changed.
pub proof fn lemma_plain_press_actions(a: PressAction, m: ReportStateView)
    requires
        m.report.keycodes.len() == 6,
        m.user_keys.len() == 6,
    ensures
        ({
            let (r, notice) = apply_press(a, m);
            match a {
                PressAction::Key(k) => r.report.keycodes.contains(k) && r.user_keys.contains(k)
                    && r.report.modifier == m.report.modifier && r.user_mods == m.user_mods && notice is None,
                PressAction::Modifier(x) => (x != 0 ==> r.report.modifier & x != 0 && r.user_mods & x != 0)
                    && r.user_keys == m.user_keys && r.report.keycodes == m.report.keycodes && notice is None,
                PressAction::Temp(k, first, second) => r.report.keycodes.contains(k) && (first != 0
                    ==> r.report.modifier & first != 0) && (second != 0 ==> r.report.modifier & second != 0)
                    && r.user_keys == m.user_keys && r.user_mods == m.user_mods && notice is None,
                PressAction::TempLayer(l) => r.active_layer == l && r.last_perm_layer == Some(m.base_layer())
                    && r.report == m.report && r.user_keys == m.user_keys && notice == Some(
                    KeyNotice::LayerChange(m.base_layer()),
                ),
                PressAction::Reboot => r == m && notice == Some(KeyNotice::Reboot),
                PressAction::Nothing => r == m && notice is None,
                _ => true,
            }
        }),
{
    match a {
        PressAction::Key(k) => {
            lemma_key_goes_in(m.report.keycodes, k);
            lemma_key_goes_in(m.user_keys, k);
        },
        PressAction::Modifier(x) => {
            let u = m.user_mods;
            let v = m.report.modifier;
            assert(x != 0 ==> (u | x) & x != 0 && (v | x) & x != 0) by (bit_vector);
        },
        PressAction::Temp(k, first, second) => {
            reveal_with_fuel(ReportStateView::push_temp_modifiers, 3);
            let v = m.report.modifier;
            let m1 = if v & first == 0 {
                m.with_report_mods(v | first).emit()
            } else {
                m
            };
            let v1 = m1.report.modifier;
            assert(first != 0 ==> (v | first) & first != 0) by (bit_vector);
            assert(v1 & first != 0 ==> (v1 | second) & first != 0) by (bit_vector);
            assert(second != 0 ==> (v1 | second) & second != 0) by (bit_vector);
            lemma_key_goes_in(m.report.keycodes, k);
        },
        _ => {},
    }
}

/// How a US host types a symbol: the key and the modifiers held with it
/// (none for an unshifted key; `+` from the keypad).
pub open spec fn us_symbol(c: char) -> Option<(u8, u8, u8)> {
    if c == '!' {
        Some((kc::N1, kc::LEFT_SHIFT, 0))
    } else if c == '@' {
        Some((kc::N2, kc::LEFT_SHIFT, 0))
    } else if c == '#' {
        Some((kc::N3, kc::LEFT_SHIFT, 0))
    } else if c == '$' {
        Some((kc::N4, kc::LEFT_SHIFT, 0))
    } else if c == '%' {
        Some((kc::N5, kc::LEFT_SHIFT, 0))
    } else if c == '^' {
        Some((kc::N6, kc::LEFT_SHIFT, 0))
    } else if c == '&' {
        Some((kc::N7, kc::LEFT_SHIFT, 0))
    } else if c == '*' {
        Some((kc::N8, kc::LEFT_SHIFT, 0))
    } else if c == '(' {
        Some((kc::N9, kc::LEFT_SHIFT, 0))
    } else if c == ')' {
        Some((kc::N0, kc::LEFT_SHIFT, 0))
    } else if c == '|' {
        Some((kc::BACKSLASH, kc::LEFT_SHIFT, 0))
    } else if c == '+' {
        Some((kc::KP_PLUS, 0, 0))
    } else if c == '=' {
        Some((kc::EQUALS, 0, 0))
    } else if c == '[' {
        Some((kc::LEFT_BRACKET, 0, 0))
    } else if c == ']' {
        Some((kc::RIGHT_BRACKET, 0, 0))
    } else if c == '{' {
        Some((kc::LEFT_BRACKET, kc::LEFT_SHIFT, 0))
    } else if c == '?' {
        Some((kc::SLASH, kc::LEFT_SHIFT, 0))
    } else if c == '\\' {
        Some((kc::BACKSLASH, 0, 0))
    } else if c == '/' {
        Some((kc::SLASH, 0, 0))
    } else if c == '-' {
        Some((kc::DASH, 0, 0))
    } else {
        None
    }
}

/// How a Swedish host types a symbol: the key and the modifiers held with
/// it (none for an unshifted key; right alt is AltGr), the three Swedish
/// letters (a with ring, a and o with diaeresis) included. `mac` is the
/// Mac variant, where either alt is Option.
pub open spec fn se_symbol(c: char, mac: bool) -> Option<(u8, u8, u8)> {
    if c == '!' {
        Some((kc::N1, kc::LEFT_SHIFT, 0))
    } else if c == '@' {
        if mac { Some((kc::N2, kc::LEFT_ALT, 0)) } else { Some((kc::N2, kc::RIGHT_ALT, 0)) }
    } else if c == '#' {
        Some((kc::N3, kc::LEFT_SHIFT, 0))
    } else if c == '$' {
        Some((kc::N4, kc::RIGHT_ALT, 0))
    } else if c == '%' {
        Some((kc::N5, kc::LEFT_SHIFT, 0))
    } else if c == '&' {
        Some((kc::N6, kc::LEFT_SHIFT, 0))
    } else if c == '/' {
        Some((kc::N7, kc::LEFT_SHIFT, 0))
    } else if c == '(' {
        Some((kc::N8, kc::LEFT_SHIFT, 0))
    } else if c == ')' {
        Some((kc::N9, kc::LEFT_SHIFT, 0))
    } else if c == '=' {
        Some((kc::N0, kc::LEFT_SHIFT, 0))
    } else if c == '*' {
        Some((kc::BACKSLASH, kc::LEFT_SHIFT, 0))
    } else if c == '+' {
        Some((kc::DASH, 0, 0))
    } else if c == '?' {
        Some((kc::DASH, kc::LEFT_SHIFT, 0))
    } else if c == '\\' {
        if mac { Some((kc::N7, kc::LEFT_SHIFT, kc::LEFT_ALT)) } else { Some((kc::DASH, kc::RIGHT_ALT, 0)) }
    } else if c == '-' {
        Some((kc::SLASH, 0, 0))
    } else if c == '_' {
        Some((kc::SLASH, kc::LEFT_SHIFT, 0))
    } else if c == '{' {
        if mac { Some((kc::N8, kc::LEFT_SHIFT, kc::LEFT_ALT)) } else { Some((kc::N7, kc::RIGHT_ALT, 0)) }
    } else if c == '}' {
        if mac { Some((kc::N9, kc::LEFT_SHIFT, kc::LEFT_ALT)) } else { Some((kc::N0, kc::RIGHT_ALT, 0)) }
    } else if c == '[' {
        Some((kc::N8, kc::RIGHT_ALT, 0))
    } else if c == ']' {
        Some((kc::N9, kc::RIGHT_ALT, 0))
    } else if c == '|' {
        if mac { Some((kc::N7, kc::LEFT_ALT, 0)) } else { Some((kc::NON_US_BACKSLASH, kc::RIGHT_ALT, 0)) }
    } else if c == '\u{e5}' {
        Some((kc::LEFT_BRACKET, 0, 0))
    } else if c == '\u{e4}' {
        Some((kc::QUOTE, 0, 0))
    } else if c == '\u{f6}' {
        Some((kc::SEMICOLON, 0, 0))
    } else {
        None
    }
}

/// How the host a lower layer is made for types a symbol.
pub open spec fn host_symbol(l: KeymapLayer, c: char) -> Option<(u8, u8, u8)> {
    if l == KeymapLayer::LowerAnsi {
        us_symbol(c)
    } else {
        se_symbol(c, l == KeymapLayer::LowerSeMac)
    }
}

/// The three lower layers: US, Swedish, Swedish for Mac.
pub open spec fn is_lower_layer(l: KeymapLayer) -> bool {
    ||| l == KeymapLayer::LowerAnsi
    ||| l == KeymapLayer::Lower
    ||| l == KeymapLayer::LowerSeMac
}

/// The symbols of a lower layer's rows across both halves, top row first;
/// a blank is a key that sends no symbol of the host's own (a chord or an
/// accent typed in two strokes).
pub open spec fn lower_block(l: KeymapLayer) -> Seq<Seq<char>> {
    if l == KeymapLayer::LowerAnsi {
        seq![
            seq!['!', '@', '#', '$', '%', '^', '&', '(', '*', '|'],
            seq!['+', '=', '[', ']', '?', '\\', '/', '{', ' ', '-'],
        ]
    } else {
        seq![
            seq!['!', '@', '#', '$', '%', '^', '&', '(', ')', '*'],
            seq!['+', '=', '[', ']', '?', '\\', '/', '{', '}', '-'],
            seq![' ', ' ', ' ', ' ', ' ', ' ', '|', '\u{e5}', '\u{e4}', '\u{f6}'],
        ]
    }
}

/// Whether the press action `a` sends the key and modifiers `enc`: a
/// plain key when there is no modifier, else the key with those modifiers
/// for it alone.
pub open spec fn sends(a: PressAction, enc: (u8, u8, u8)) -> bool {
    if enc.1 == 0 {
        a == PressAction::Key(enc.0)
    } else {
        a == PressAction::Temp(enc.0, enc.1, enc.2)
    }
}

/// On each lower layer, whatever base layer it was entered from, every
/// key of its symbol rows sends the symbol at its place the way the host
/// that layer is made for types it. The Swedish `^`, which takes a space
/// after it, is sent by a key of its own.
pub proof fn lemma_lower_layer_symbols(l: KeymapLayer, perm: Option<KeymapLayer>, side: Side, row: int, col: int)
    requires
        is_lower_layer(l),
        0 <= row < lower_block(l).len(),
        1 <= col <= 5,
        host_symbol(l, lower_block(l)[row][block_column(side, col)]) is Some,
    ensures
        sends(
            press_action(side, (row * 6 + col) as u8, perm, l),
            host_symbol(l, lower_block(l)[row][block_column(side, col)])->0,
        ),
{
    assert(row == 0 || row == 1 || row == 2);
    assert(col == 1 || col == 2 || col == 3 || col == 4 || col == 5);
    assert(side == Side::Left || side == Side::Right);
}

/// The Swedish lower layers send `^` with the key that takes a space
/// after it, and every lower layer puts copy, cut and paste (control with
/// `c`, `x` and `v`) under the left hand's bottom row.
pub proof fn lemma_lower_layer_chords(l: KeymapLayer, perm: Option<KeymapLayer>)
    requires
        is_lower_layer(l),
    ensures
        l != KeymapLayer::LowerAnsi ==> press_action(Side::Right, 5, perm, l) == PressAction::Circumflex,
        press_action(Side::Left, 14, perm, l) == PressAction::Temp(kc::C, kc::LEFT_CONTROL, 0),
        press_action(Side::Left, 15, perm, l) == PressAction::Temp(kc::X, kc::LEFT_CONTROL, 0),
        press_action(Side::Left, 16, perm, l) == PressAction::Temp(kc::V, kc::LEFT_CONTROL, 0),
{
}

/// The lower layer made for the same host as a Dvorak base layer.
pub open spec fn lower_for(l: KeymapLayer) -> KeymapLayer {
    if l == KeymapLayer::DvorakAnsi {
        KeymapLayer::LowerAnsi
    } else if l == KeymapLayer::DvorakSeMac {
        KeymapLayer::LowerSeMac
    } else {
        KeymapLayer::Lower
    }
}

/// The thumb rows of the Dvorak base layers: GUI and left alt, the key to
/// the lower layer made for the same host, and space on the left; the
/// settings layer, right alt, the raise layer, the number layer and space
/// on the right. On the Swedish layers the left thumb key below sends `_`.
pub proof fn lemma_dvorak_thumb_rows(l: KeymapLayer, perm: Option<KeymapLayer>, active: KeymapLayer)
    requires
        is_dvorak(l),
        typing_on(perm, active, l),
    ensures
        press_action(Side::Left, 19, perm, active) == PressAction::Modifier(kc::LEFT_GUI),
        press_action(Side::Left, 20, perm, active) == PressAction::Modifier(kc::LEFT_ALT),
        press_action(Side::Left, 22, perm, active) == PressAction::TempLayer(lower_for(l)),
        is_lower_layer(lower_for(l)),
        press_action(Side::Left, 23, perm, active) == PressAction::Key(kc::SPACE),
        press_action(Side::Right, 19, perm, active) == PressAction::TempLayer(KeymapLayer::Settings),
        press_action(Side::Right, 20, perm, active) == PressAction::Modifier(kc::RIGHT_ALT),
        press_action(Side::Right, 21, perm, active) == PressAction::TempLayer(KeymapLayer::Raise),
        press_action(Side::Right, 22, perm, active) == PressAction::TempLayer(KeymapLayer::Num),
        press_action(Side::Right, 23, perm, active) == PressAction::Key(kc::SPACE),
        l != KeymapLayer::DvorakAnsi ==> sends(press_action(Side::Left, 28, perm, active), se_symbol('_', false)->0),
{
}

/// The gaming layer keeps the settings and raise layers on the right
/// thumb row, and puts GUI and space on the left thumb keys below.
pub proof fn lemma_gaming_thumb_keys(perm: Option<KeymapLayer>, active: KeymapLayer)
    requires
        typing_on(perm, active, KeymapLayer::QwertyGaming),
    ensures
        press_action(Side::Right, 19, perm, active) == PressAction::TempLayer(KeymapLayer::Settings),
        press_action(Side::Right, 21, perm, active) == PressAction::TempLayer(KeymapLayer::Raise),
        press_action(Side::Left, 26, perm, active) == PressAction::Modifier(kc::LEFT_GUI),
        press_action(Side::Left, 28, perm, active) == PressAction::Key(kc::SPACE),
{
}

/// Pressing the `>` / `.` key and letting it go gives back the keys the
/// user held before, whether shift made it `>` or not, and clears what the
/// press marked, when neither symbol was already held and a key slot was
/// free.
pub proof fn lemma_angle_or_dot_round_trip(m: ReportStateView, k: u8, prev: LastPressState)
    requires
        packed(m.user_keys),
        m.user_keys[5] == 0,
        k != 0,
        k != kc::DOT,
        key_position(m.user_keys, k, 0) is None,
        key_position(m.user_keys, kc::DOT, 0) is None,
        !m.jank.pressing_right_bracket,
        !m.jank.pressing_dot,
    ensures
        ({
            let pressed = apply_press(PressAction::AngleOrDot(k), m).0;
            let released = apply_release(ReleaseAction::AngleOrDot(k), prev, pressed).0;
            &&& released.user_keys == m.user_keys
            &&& released.report.keycodes == m.user_keys
            &&& released.jank == m.jank
        }),
{
    lemma_push_then_pop_key(m, k);
    lemma_push_then_pop_key(m, kc::DOT);
    lemma_with_key_then_without(m.user_keys, k);
    lemma_with_key_then_without(m.user_keys, kc::DOT);
}

} // verus!
