use rp2040_kbd::keymap::KeymapLayer;
use rp2040_kbd::oled::{draw_unit_string, layer_to_string, DrawOp, OledRender};

fn describe(ops: &[DrawOp]) -> Vec<(char, i32, String)> {
    ops.iter()
        .map(|op| match op {
            DrawOp::ClearLine(l) => ('c', *l, String::new()),
            DrawOp::Header(l, s) => ('h', *l, s.as_str().to_string()),
            DrawOp::Underscore(l) => ('u', *l, String::new()),
        })
        .collect()
}

fn op(kind: char, row: i32, text: &str) -> (char, i32, String) {
    (kind, row, text.to_string())
}

fn small_layout() -> OledRender {
    OledRender::new(&vec![vec!["LEFT"], vec!["PERF", "S ..."]])
}

#[test]
fn layer_names() {
    assert_eq!(layer_to_string(KeymapLayer::DvorakSe).as_str(), "DV-SE");
    assert_eq!(layer_to_string(KeymapLayer::DvorakAnsi).as_str(), "DV-AN");
    assert_eq!(layer_to_string(KeymapLayer::QwertyGaming).as_str(), "QW-GM");
    assert_eq!(layer_to_string(KeymapLayer::Lower).as_str(), "LO");
    assert_eq!(layer_to_string(KeymapLayer::LowerAnsi).as_str(), "LO-AN");
    assert_eq!(layer_to_string(KeymapLayer::Raise).as_str(), "RA");
    assert_eq!(layer_to_string(KeymapLayer::Num).as_str(), "NUM");
    assert_eq!(layer_to_string(KeymapLayer::Settings).as_str(), "SET");
}

#[test]
fn draw_unit_string_fits_eight_bytes() {
    assert_eq!(draw_unit_string("LEFT").as_str(), "LEFT");
    assert_eq!(draw_unit_string("12345678").as_str(), "12345678");
    assert_eq!(draw_unit_string("123456789").as_str(), "");
}

#[test]
fn first_render_draws_everything_then_nothing() {
    let mut r = small_layout();
    let first = describe(&r.render());
    assert_eq!(
        first,
        vec![
            op('c', 0, ""),
            op('h', 0, "LEFT"),
            op('u', 8, ""),
            op('c', 12, ""),
            op('h', 12, "PERF"),
            op('c', 20, ""),
            op('h', 20, "S ..."),
            op('u', 28, ""),
        ]
    );
    assert!(r.render().is_empty());
}

#[test]
fn changed_line_is_redrawn_once() {
    let mut r = small_layout();
    r.render();
    r.set_section(1, 1, draw_unit_string("S 1.5"));
    assert_eq!(describe(&r.render()), vec![op('c', 20, ""), op('h', 20, "S 1.5")]);
    r.set_section(1, 1, draw_unit_string("S 1.5"));
    assert!(r.render().is_empty());
    r.set_section(5, 0, draw_unit_string("X"));
    r.set_section(0, 3, draw_unit_string("X"));
    assert!(r.render().is_empty());
}

#[test]
fn hidden_display_draws_nothing_until_shown() {
    let mut r = small_layout();
    r.render();
    r.hide_display();
    r.set_section(0, 0, draw_unit_string("RIGHT"));
    assert!(r.render().is_empty());
    r.show();
    let all = describe(&r.render());
    assert_eq!(all.len(), 8);
    assert_eq!(all[1], op('h', 0, "RIGHT"));
    assert_eq!(all[7], op('u', 28, ""));
    r.show();
    assert!(r.render().is_empty());
}

#[test]
fn layout_keeps_five_sections_of_four_lines() {
    let row = vec!["A", "B", "C", "D", "E"];
    let mut r = OledRender::new(&vec![row; 6]);
    let ops = describe(&r.render());
    assert_eq!(ops.len(), 5 * (4 * 2 + 1));
    assert_eq!(ops[7], op('h', 24, "D"));
    assert_eq!(ops[8], op('u', 32, ""));
    assert_eq!(ops[9], op('c', 36, ""));
    assert_eq!(ops[44], op('u', 176, ""));
    r.set_section(0, 4, draw_unit_string("X"));
    r.set_section(5, 0, draw_unit_string("X"));
    assert!(r.render().is_empty());
}
