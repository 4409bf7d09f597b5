//! What the OLED shows: labelled sections of short lines, each drawn again
//! only when it changed.
use vstd::prelude::*;
use crate::keymap::KeymapLayer;
use vstd::string::StringSliceAdditionalSpecFns;

verus! {

#[verifier::external_type_specification]
#[verifier::external_body]
pub struct ExHeaplessString<const N: usize>(heapless::String<N>);

/// One line of the display: at most eight bytes.
pub type OledLineString = heapless::String<8>;

/// The bytes that a line holds.
pub uninterp spec fn line_bytes(line: heapless::String<8>) -> Seq<u8>;

/// Calls `heapless::String::new`, which makes an empty string.
#[verifier::external_body]
fn line_new() -> (r: heapless::String<8>)
    ensures
        line_bytes(r) == Seq::<u8>::empty(),
{
    heapless::String::new()
}

/// Calls `heapless::String::push_str`: the bytes of `text` are appended when
/// they fit in the eight, and otherwise the string is left as it was and an
/// error comes back.
#[verifier::external_body]
fn line_push_str(line: &mut heapless::String<8>, text: &str) -> (ok: bool)
    ensures
        ok == (line_bytes(*old(line)).len() + text.spec_bytes().len() <= 8),
        line_bytes(*final(line)) == (if ok {
            line_bytes(*old(line)) + text.spec_bytes()
        } else {
            line_bytes(*old(line))
        }),
{
    line.push_str(text).is_ok()
}

/// Calls `PartialEq::eq` of `heapless::String`, which compares the bytes.
#[verifier::external_body]
fn line_eq(a: &heapless::String<8>, b: &heapless::String<8>) -> (r: bool)
    ensures
        r == (line_bytes(*a) == line_bytes(*b)),
{
    a == b
}

/// Calls `Clone::clone` of `heapless::String`, which copies the bytes.
#[verifier::external_body]
fn line_clone(a: &heapless::String<8>) -> (r: heapless::String<8>)
    ensures
        line_bytes(r) == line_bytes(*a),
{
    a.clone()
}

/// The bytes of `text` where they fit on a line, else none.
pub open spec fn fitted(text: Seq<u8>) -> Seq<u8> {
    if text.len() <= 8 {
        text
    } else {
        Seq::empty()
    }
}

/// A line holding `text`, or an empty line where `text` is too long.
pub fn draw_unit_string(text: &str) -> (r: OledLineString)
    ensures
        line_bytes(r) == fitted(text.spec_bytes()),
{
    let mut s = line_new();
    let _ = line_push_str(&mut s, text);
    assert(Seq::<u8>::empty() + text.spec_bytes() =~= text.spec_bytes());
    s
}

/// The short name of a layer shown on the display.
pub open spec fn layer_label(layer: KeymapLayer) -> &'static str {
    match layer {
        KeymapLayer::DvorakSe => "DV-SE",
        KeymapLayer::DvorakAnsi => "DV-AN",
        KeymapLayer::DvorakSeMac => "DV-MAC",
        KeymapLayer::QwertyGaming => "QW-GM",
        KeymapLayer::Lower => "LO",
        KeymapLayer::LowerSeMac => "LO-MAC",
        KeymapLayer::LowerAnsi => "LO-AN",
        KeymapLayer::Raise => "RA",
        KeymapLayer::Num => "NUM",
        KeymapLayer::Settings => "SET",
    }
}

/// The line that names a layer.
pub fn layer_to_string(keymap_layer: KeymapLayer) -> (r: OledLineString)
    ensures
        line_bytes(r) == layer_label(keymap_layer).spec_bytes(),
{
    broadcast use vstd::string::is_ascii_spec_bytes;

    let text: &str = match keymap_layer {
        KeymapLayer::DvorakSe => "DV-SE",
        KeymapLayer::DvorakAnsi => "DV-AN",
        KeymapLayer::DvorakSeMac => "DV-MAC",
        KeymapLayer::QwertyGaming => "QW-GM",
        KeymapLayer::Lower => "LO",
        KeymapLayer::LowerSeMac => "LO-MAC",
        KeymapLayer::LowerAnsi => "LO-AN",
        KeymapLayer::Raise => "RA",
        KeymapLayer::Num => "NUM",
        KeymapLayer::Settings => "SET",
    };
    proof {
        reveal_strlit("DV-SE");
        reveal_strlit("DV-AN");
        reveal_strlit("DV-MAC");
        reveal_strlit("QW-GM");
        reveal_strlit("LO");
        reveal_strlit("LO-MAC");
        reveal_strlit("LO-AN");
        reveal_strlit("RA");
        reveal_strlit("NUM");
        reveal_strlit("SET");
        assert(vstd::string::is_ascii(text));
        assert(text.spec_bytes().len() <= 8);
    }
    let mut s = line_new();
    let _ = line_push_str(&mut s, text);
    assert(Seq::<u8>::empty() + text.spec_bytes() =~= text.spec_bytes());
    s
}

/// A line of a section, and whether it must be drawn again.
pub struct DrawUnit {
    pub content: OledLineString,
    pub needs_redraw: bool,
}

/// A line as bytes, and whether it must be drawn again.
pub struct UnitView {
    pub content: Seq<u8>,
    pub dirty: bool,
}

pub open spec fn unit_view(u: DrawUnit) -> UnitView {
    UnitView { content: line_bytes(u.content), dirty: u.needs_redraw }
}

impl DrawUnit {
    pub fn new(content: OledLineString, needs_redraw: bool) -> (r: Self)
        ensures
            unit_view(r) == (UnitView { content: line_bytes(content), dirty: needs_redraw }),
    {
        DrawUnit { content, needs_redraw }
    }
}

/// Pixel rows per line.
pub const OLED_LINE_HEIGHT: u32 = 8;

/// Pixel rows below each section, where its underline goes.
pub const SECTION_GAP: u32 = 4;

/// What to draw on the display, at a pixel row.
pub enum DrawOp {
    /// Blank a line.
    ClearLine(i32),
    /// Write a line's text.
    Header(i32, OledLineString),
    /// Draw a section's underline.
    Underscore(i32),
}

pub enum DrawOpView {
    ClearLine(int),
    Header(int, Seq<u8>),
    Underscore(int),
}

pub open spec fn op_view(op: DrawOp) -> DrawOpView {
    match op {
        DrawOp::ClearLine(l) => DrawOpView::ClearLine(l as int),
        DrawOp::Header(l, s) => DrawOpView::Header(l as int, line_bytes(s)),
        DrawOp::Underscore(l) => DrawOpView::Underscore(l as int),
    }
}

pub open spec fn ops_view(ops: Seq<DrawOp>) -> Seq<DrawOpView> {
    ops.map_values(|op: DrawOp| op_view(op))
}

/// The pixel row where section `k` starts: each line before it takes
/// [`OLED_LINE_HEIGHT`] rows and each section's gap [`SECTION_GAP`].
pub open spec fn section_start(lens: Seq<nat>, k: int) -> int
    decreases k,
{
    if k <= 0 || k > lens.len() {
        0
    } else {
        section_start(lens, k - 1) + 8 * lens[k - 1] + 4
    }
}

/// What drawing the first `j` lines of a section that starts at row `base`
/// takes: a blank and the text for each line that must be drawn again.
pub open spec fn unit_ops(units: Seq<UnitView>, base: int, j: int) -> Seq<DrawOpView>
    decreases j,
{
    if j <= 0 || j > units.len() {
        Seq::empty()
    } else {
        let row = base + 8 * (j - 1);
        unit_ops(units, base, j - 1) + if units[j - 1].dirty {
            seq![DrawOpView::ClearLine(row), DrawOpView::Header(row, units[j - 1].content)]
        } else {
            Seq::empty()
        }
    }
}

pub open spec fn lens_of(sections: Seq<Seq<UnitView>>) -> Seq<nat> {
    sections.map_values(|s: Seq<UnitView>| s.len())
}

/// What drawing the first `k` sections takes: their lines, and their
/// underlines where those must be drawn again.
pub open spec fn section_ops(sections: Seq<Seq<UnitView>>, underscores: bool, k: int) -> Seq<DrawOpView>
    decreases k,
{
    if k <= 0 || k > sections.len() {
        Seq::empty()
    } else {
        let base = section_start(lens_of(sections), k - 1);
        let units = sections[k - 1];
        section_ops(sections, underscores, k - 1) + unit_ops(units, base, units.len() as int) + if underscores {
            seq![DrawOpView::Underscore(base + 8 * units.len())]
        } else {
            Seq::empty()
        }
    }
}

pub struct RenderView {
    pub hidden: bool,
    pub sections: Seq<Seq<UnitView>>,
    pub underscores: bool,
}

/// What a render draws: nothing while hidden.
pub open spec fn render_ops(v: RenderView) -> Seq<DrawOpView> {
    if v.hidden {
        Seq::empty()
    } else {
        section_ops(v.sections, v.underscores, v.sections.len() as int)
    }
}

/// Every line marked as drawn, or as to be drawn again.
pub open spec fn all_marked(sections: Seq<Seq<UnitView>>, dirty: bool) -> Seq<Seq<UnitView>> {
    sections.map_values(
        |s: Seq<UnitView>| s.map_values(|u: UnitView| UnitView { dirty: dirty, ..u }),
    )
}

/// The sections with one line replaced.
pub open spec fn with_unit(sections: Seq<Seq<UnitView>>, sect: int, part: int, u: UnitView) -> Seq<Seq<UnitView>> {
    sections.update(sect, sections[sect].update(part, u))
}

#[verifier::external_type_specification]
#[verifier::external_body]
#[verifier::reject_recursive_types(T)]
pub struct ExHeaplessVec<T, const N: usize>(heapless::Vec<T, N>);

/// Lines a section holds at most.
pub const SECTION_LINES: usize = 4;

/// Sections a layout holds at most.
pub const SECTIONS: usize = 5;

/// The lines of one section.
pub struct OledSection {
    draw_units: heapless::Vec<DrawUnit, 4>,
}

/// The lines that a section's vector holds, in order.
pub uninterp spec fn section_units(v: heapless::Vec<DrawUnit, 4>) -> Seq<DrawUnit>;

/// The sections that a layout's vector holds, in order.
pub uninterp spec fn layout_sections(v: heapless::Vec<OledSection, 5>) -> Seq<OledSection>;

/// Calls `heapless::Vec::new` for a section's lines: an empty vector.
#[verifier::external_body]
fn units_new() -> (r: heapless::Vec<DrawUnit, 4>)
    ensures
        section_units(r) == Seq::<DrawUnit>::empty(),
{
    heapless::Vec::new()
}

/// Calls `heapless::Vec::push` on a section's lines: the line goes to the
/// back while fewer than four are held; a full vector is left as it was and
/// hands the line back in its error, which is dropped here.
#[verifier::external_body]
fn units_push(v: &mut heapless::Vec<DrawUnit, 4>, u: DrawUnit) -> (ok: bool)
    ensures
        ok == (section_units(*old(v)).len() < 4),
        section_units(*final(v)) == (if ok {
            section_units(*old(v)).push(u)
        } else {
            section_units(*old(v))
        }),
{
    v.push(u).is_ok()
}

/// Calls `heapless::Vec::len` on a section's lines, which never exceeds the
/// capacity of four.
#[verifier::external_body]
fn units_len(v: &heapless::Vec<DrawUnit, 4>) -> (r: usize)
    ensures
        r == section_units(*v).len(),
        r <= 4,
{
    v.len()
}

/// Indexes a section's lines mutably (`IndexMut` of the slice that the
/// vector dereferences to): the line at `i`, whose changes land in the
/// vector.
#[verifier::external_body]
fn units_get_mut(v: &mut heapless::Vec<DrawUnit, 4>, i: usize) -> (r: &mut DrawUnit)
    requires
        i < section_units(*old(v)).len(),
    ensures
        *r == section_units(*old(v))[i as int],
        section_units(*final(v)) == section_units(*old(v)).update(i as int, *final(r)),
{
    &mut v[i]
}

/// Indexes a section's lines (`Index` of the slice that the vector
/// dereferences to): the line at `i`.
#[verifier::external_body]
fn units_get(v: &heapless::Vec<DrawUnit, 4>, i: usize) -> (r: &DrawUnit)
    requires
        i < section_units(*v).len(),
    ensures
        *r == section_units(*v)[i as int],
{
    &v[i]
}

/// Calls `heapless::Vec::new` for a layout's sections: an empty vector.
#[verifier::external_body]
fn sections_new() -> (r: heapless::Vec<OledSection, 5>)
    ensures
        layout_sections(r) == Seq::<OledSection>::empty(),
{
    heapless::Vec::new()
}

/// Calls `heapless::Vec::push` on a layout's sections: the section goes to
/// the back while fewer than five are held; a full vector is left as it was
/// and hands the section back in its error, which is dropped here.
#[verifier::external_body]
fn sections_push(v: &mut heapless::Vec<OledSection, 5>, s: OledSection) -> (ok: bool)
    ensures
        ok == (layout_sections(*old(v)).len() < 5),
        layout_sections(*final(v)) == (if ok {
            layout_sections(*old(v)).push(s)
        } else {
            layout_sections(*old(v))
        }),
{
    v.push(s).is_ok()
}

/// Calls `heapless::Vec::len` on a layout's sections, which never exceeds
/// the capacity of five.
#[verifier::external_body]
fn sections_len(v: &heapless::Vec<OledSection, 5>) -> (r: usize)
    ensures
        r == layout_sections(*v).len(),
        r <= 5,
{
    v.len()
}

/// Indexes a layout's sections mutably (`IndexMut` of the slice that the
/// vector dereferences to): the section at `i`, whose changes land in the
/// vector.
#[verifier::external_body]
fn sections_get_mut(v: &mut heapless::Vec<OledSection, 5>, i: usize) -> (r: &mut OledSection)
    requires
        i < layout_sections(*old(v)).len(),
    ensures
        *r == layout_sections(*old(v))[i as int],
        layout_sections(*final(v)) == layout_sections(*old(v)).update(i as int, *final(r)),
{
    &mut v[i]
}

/// Indexes a layout's sections (`Index` of the slice that the vector
/// dereferences to): the section at `i`.
#[verifier::external_body]
fn sections_get(v: &heapless::Vec<OledSection, 5>, i: usize) -> (r: &OledSection)
    requires
        i < layout_sections(*v).len(),
    ensures
        *r == layout_sections(*v)[i as int],
{
    &v[i]
}

spec fn section_view(s: OledSection) -> Seq<UnitView> {
    section_units(s.draw_units).map_values(|u: DrawUnit| unit_view(u))
}

spec fn sections_view(secs: Seq<OledSection>) -> Seq<Seq<UnitView>> {
    secs.map_values(|s: OledSection| section_view(s))
}

/// The layout of the display and which of its parts must be drawn again.
pub struct OledRender {
    hidden: bool,
    sections: heapless::Vec<OledSection, 5>,
    underscores_need_redraw: bool,
}

/// Whether the rows of all sections fit in an `i32`.
pub open spec fn fits_rows(lens: Seq<nat>) -> bool {
    section_start(lens, lens.len() as int) <= i32::MAX
}

impl View for OledRender {
    type V = RenderView;

    open spec fn view(&self) -> RenderView {
        self.render_view()
    }
}

pub proof fn lemma_section_start_nonneg(lens: Seq<nat>, a: int)
    ensures
        0 <= section_start(lens, a),
    decreases a,
{
    if a > 0 && a <= lens.len() {
        lemma_section_start_nonneg(lens, a - 1);
    }
}

pub proof fn lemma_section_start_grows(lens: Seq<nat>, a: int, b: int)
    requires
        0 <= a <= b <= lens.len(),
    ensures
        section_start(lens, a) + 8 * (if a < b { lens[a] as int } else { 0 }) <= section_start(lens, b),
    decreases b - a,
{
    if a < b {
        lemma_section_start_grows(lens, a + 1, b);
    }
}

/// A layout of at most five sections of at most four lines spans at most
/// 36 rows per section.
proof fn lemma_small_layout_fits(lens: Seq<nat>, k: int)
    requires
        0 <= k <= lens.len(),
        forall|a: int| 0 <= a < lens.len() ==> #[trigger] lens[a] <= 4,
    ensures
        section_start(lens, k) <= 36 * k,
    decreases k,
{
    if k > 0 {
        lemma_small_layout_fits(lens, k - 1);
    }
}

/// A list of headers as the lines of a section: the first four, each to
/// be drawn.
pub open spec fn header_row(h: Seq<&str>) -> Seq<UnitView> {
    Seq::new(
        if h.len() <= 4 { h.len() } else { 4 },
        |j: int| UnitView { content: fitted(h[j].spec_bytes()), dirty: true },
    )
}

/// The sections that `new` lays out: the first five lists of headers.
pub open spec fn header_units(headers: Seq<Vec<&str>>) -> Seq<Seq<UnitView>> {
    Seq::new(if headers.len() <= 5 { headers.len() } else { 5 }, |i: int| header_row(headers[i]@))
}

/// The lines before line `j` of section `i` marked; the rest as they were.
spec fn mark_upto(s: Seq<Seq<UnitView>>, i: int, j: int, dirty: bool) -> Seq<Seq<UnitView>> {
    Seq::new(
        s.len(),
        |a: int|
            Seq::new(
                s[a].len(),
                |b: int|
                    if a < i || (a == i && b < j) {
                        UnitView { dirty: dirty, ..s[a][b] }
                    } else {
                        s[a][b]
                    },
            ),
    )
}

/// Marking line `j` of section `i` moves the marked part one line on.
proof fn lemma_mark_step(
    old_secs: Seq<OledSection>,
    new_secs: Seq<OledSection>,
    orig: Seq<Seq<UnitView>>,
    i: int,
    j: int,
    dirty: bool,
)
    requires
        sections_view(old_secs) =~~= mark_upto(orig, i, j, dirty),
        0 <= i < orig.len(),
        0 <= j < orig[i].len(),
        old_secs.len() == orig.len(),
        new_secs.len() == old_secs.len(),
        forall|a: int| 0 <= a < old_secs.len() && a != i ==> new_secs[a] == old_secs[a],
        section_units(new_secs[i].draw_units) == section_units(old_secs[i].draw_units).update(
            j,
            DrawUnit { needs_redraw: dirty, ..section_units(old_secs[i].draw_units)[j] },
        ),
    ensures
        sections_view(new_secs) =~~= mark_upto(orig, i, j + 1, dirty),
{
    let before = sections_view(old_secs);
    let target = mark_upto(orig, i, j + 1, dirty);
    let row = sections_view(new_secs)[i];
    assert(before[i].len() == section_units(old_secs[i].draw_units).len());
    assert(row.len() == target[i].len());
    assert forall|b: int| 0 <= b < row.len() implies row[b] == target[i][b] by {
        assert(before[i][b] == unit_view(section_units(old_secs[i].draw_units)[b]));
    }
    assert(row =~= target[i]);
    assert forall|a: int| 0 <= a < orig.len() implies sections_view(new_secs)[a] =~= target[a] by {
        if a != i {
            assert(sections_view(new_secs)[a] == before[a]);
        }
    }
    assert(sections_view(new_secs) =~= target);
}

impl OledRender {
    pub closed spec fn render_view(&self) -> RenderView {
        RenderView {
            hidden: self.hidden,
            sections: sections_view(layout_sections(self.sections)),
            underscores: self.underscores_need_redraw,
        }
    }

    /// At most five sections of at most four lines each.
    pub closed spec fn wf(&self) -> bool {
        let v = sections_view(layout_sections(self.sections));
        &&& v.len() <= 5
        &&& forall|a: int| 0 <= a < v.len() ==> #[trigger] v[a].len() <= 4
    }

    proof fn lemma_wf_fits(&self)
        requires
            self.wf(),
        ensures
            fits_rows(lens_of(self@.sections)),
    {
        let lens = lens_of(self@.sections);
        assert forall|a: int| 0 <= a < lens.len() implies #[trigger] lens[a] <= 4 by {
            assert(self@.sections[a].len() <= 4);
        }
        lemma_small_layout_fits(lens, lens.len() as int);
    }

    /// A shown layout whose every line and underline is yet to be drawn:
    /// the first five lists of headers, of each the first four headers, each
    /// cut to nothing where it does not fit on a line.
    pub fn new(headers: &Vec<Vec<&str>>) -> (r: Self)
        ensures
            r.wf(),
            r@ == (RenderView { hidden: false, sections: header_units(headers@), underscores: true }),
    {
        let mut sections = sections_new();
        let mut i: usize = 0;
        while i < headers.len()
            invariant
                i <= headers@.len(),
                sections_view(layout_sections(sections)) =~~= header_units(headers@.take(i as int)),
            decreases headers@.len() - i,
        {
            let row = &headers[i];
            let mut units = units_new();
            let mut j: usize = 0;
            while j < row.len()
                invariant
                    j <= row@.len(),
                    section_units(units).map_values(|u: DrawUnit| unit_view(u)) =~= header_row(
                        row@.take(j as int),
                    ),
                decreases row@.len() - j,
            {
                let text: &str = row[j];
                let ghost before = section_units(units);
                let unit = DrawUnit::new(draw_unit_string(text), true);
                let ok = units_push(&mut units, unit);
                proof {
                    let next = header_row(row@.take(j + 1));
                    if ok {
                        assert(section_units(units).map_values(|u: DrawUnit| unit_view(u)) =~= before.map_values(
                            |u: DrawUnit| unit_view(u),
                        ).push(unit_view(unit)));
                        assert(next =~= header_row(row@.take(j as int)).push(unit_view(unit)));
                    } else {
                        assert(next =~= header_row(row@.take(j as int)));
                    }
                }
                j = j + 1;
            }
            assert(row@.take(row@.len() as int) =~= row@);
            let ghost secs_before = layout_sections(sections);
            let section = OledSection { draw_units: units };
            let ok = sections_push(&mut sections, section);
            proof {
                let next = header_units(headers@.take(i + 1));
                assert(headers@.take(i + 1)[i as int] == headers@[i as int]);
                if ok {
                    assert(sections_view(layout_sections(sections)) =~= sections_view(secs_before).push(
                        section_view(section),
                    ));
                    assert forall|a: int| 0 <= a < next.len() implies next[a] =~= sections_view(
                        layout_sections(sections),
                    )[a] by {
                        if a < i {
                            assert(headers@.take(i + 1)[a] == headers@.take(i as int)[a]);
                        }
                    }
                } else {
                    assert(sections_view(secs_before).len() == header_units(headers@.take(i as int)).len());
                    assert(i >= 5);
                    assert forall|a: int| 0 <= a < next.len() implies next[a] =~= sections_view(
                        layout_sections(sections),
                    )[a] by {
                        assert(headers@.take(i + 1)[a] == headers@.take(i as int)[a]);
                    }
                }
            }
            i = i + 1;
        }
        assert(headers@.take(headers@.len() as int) =~= headers@);
        OledRender { hidden: false, sections, underscores_need_redraw: true }
    }

    /// Stops drawing; the caller blanks the display.
    pub fn hide_display(&mut self)
        requires
            old(self).wf(),
        ensures
            final(self).wf(),
            final(self)@ == (RenderView { hidden: true, ..old(self)@ }),
    {
        self.hidden = true;
    }

    /// Puts `val` on line `part` of section `sect`, to be drawn again where
    /// it differs from what the line held; a place outside the layout is
    /// ignored.
    pub fn set_section(&mut self, sect: usize, part: usize, val: OledLineString)
        requires
            old(self).wf(),
        ensures
            final(self).wf(),
            final(self)@ == (if sect < old(self)@.sections.len() && part < old(self)@.sections[sect as int].len()
                && old(self)@.sections[sect as int][part as int].content != line_bytes(val) {
                RenderView {
                    sections: with_unit(
                        old(self)@.sections,
                        sect as int,
                        part as int,
                        UnitView { content: line_bytes(val), dirty: true },
                    ),
                    ..old(self)@
                }
            } else {
                old(self)@
            }),
    {
        if sect >= sections_len(&self.sections) {
            return;
        }
        let ghost secs = layout_sections(self.sections);
        let section = sections_get(&self.sections, sect);
        if part >= units_len(&section.draw_units) {
            return;
        }
        if line_eq(&units_get(&section.draw_units, part).content, &val) {
            return;
        }
        let section = sections_get_mut(&mut self.sections, sect);
        let unit = units_get_mut(&mut section.draw_units, part);
        *unit = DrawUnit { content: val, needs_redraw: true };
        proof {
            let target = with_unit(
                sections_view(secs),
                sect as int,
                part as int,
                UnitView { content: line_bytes(val), dirty: true },
            );
            let now = layout_sections(self.sections);
            assert(section_view(now[sect as int]) =~= target[sect as int]);
            assert forall|a: int| 0 <= a < now.len() implies sections_view(now)[a] =~= target[a] by {
                if a != sect {
                    assert(now[a] == secs[a]);
                }
            }
            assert(sections_view(now) =~= target);
        }
    }

    /// Shows the display again after it was hidden: everything is to be
    /// drawn again. A shown display is left as it is.
    pub fn show(&mut self)
        requires
            old(self).wf(),
        ensures
            final(self).wf(),
            final(self)@ == (if old(self)@.hidden {
                RenderView {
                    hidden: false,
                    sections: all_marked(old(self)@.sections, true),
                    underscores: true,
                }
            } else {
                old(self)@
            }),
    {
        if !self.hidden {
            return;
        }
        let ghost orig = sections_view(layout_sections(self.sections));
        let n = sections_len(&self.sections);
        let mut i: usize = 0;
        while i < n
            invariant
                n == layout_sections(self.sections).len(),
                orig.len() == n,
                i <= n,
                self.hidden,
                sections_view(layout_sections(self.sections)) =~~= mark_upto(orig, i as int, 0, true),
            decreases n - i,
        {
            let m = units_len(&sections_get(&self.sections, i).draw_units);
            assert(sections_view(layout_sections(self.sections))[i as int].len() == m);
            assert(mark_upto(orig, i as int, 0, true)[i as int].len() == orig[i as int].len());
            assert(m == orig[i as int].len());
            let mut j: usize = 0;
            while j < m
                invariant
                    n == layout_sections(self.sections).len(),
                    orig.len() == n,
                    i < n,
                    j <= m,
                    m == orig[i as int].len(),
                    self.hidden,
                    sections_view(layout_sections(self.sections)) =~~= mark_upto(orig, i as int, j as int, true),
                decreases m - j,
            {
                let ghost old_secs = layout_sections(self.sections);
                assert(sections_view(old_secs)[i as int].len() == section_units(old_secs[i as int].draw_units).len());
                assert(mark_upto(orig, i as int, j as int, true)[i as int].len() == orig[i as int].len());
                assert(section_units(old_secs[i as int].draw_units).len() == m);
                let section = sections_get_mut(&mut self.sections, i);
                let unit = units_get_mut(&mut section.draw_units, j);
                unit.needs_redraw = true;
                proof {
                    lemma_mark_step(old_secs, layout_sections(self.sections), orig, i as int, j as int, true);
                }
                j = j + 1;
            }
            assert(mark_upto(orig, i as int, m as int, true) =~~= mark_upto(orig, i + 1, 0, true));
            i = i + 1;
        }
        self.hidden = false;
        self.underscores_need_redraw = true;
        assert(sections_view(layout_sections(self.sections)) =~~= all_marked(orig, true));
    }

    /// What to draw now: each line to be drawn again, blanked and written
    /// at its row, and each section's underline when those are to be drawn
    /// again. Afterwards all of it counts as drawn. Nothing while hidden.
    pub fn render(&mut self) -> (ops: Vec<DrawOp>)
        requires
            old(self).wf(),
        ensures
            final(self).wf(),
            ops_view(ops@) == render_ops(old(self)@),
            final(self)@ == (if old(self)@.hidden {
                old(self)@
            } else {
                RenderView {
                    hidden: false,
                    sections: all_marked(old(self)@.sections, false),
                    underscores: false,
                }
            }),
    {
        let mut ops: Vec<DrawOp> = Vec::new();
        if self.hidden {
            assert(ops_view(ops@) =~= render_ops(old(self)@));
            return ops;
        }
        proof {
            self.lemma_wf_fits();
        }
        let ghost orig = sections_view(layout_sections(self.sections));
        let ghost lens = lens_of(orig);
        let underscores = self.underscores_need_redraw;
        let n = sections_len(&self.sections);
        let mut offset: i32 = 0;
        let mut i: usize = 0;
        proof {
            lemma_section_start_nonneg(lens, n as int);
        }
        while i < n
            invariant
                n == layout_sections(self.sections).len(),
                orig.len() == n,
                lens == lens_of(orig),
                fits_rows(lens),
                i <= n,
                !self.hidden,
                underscores == self.underscores_need_redraw,
                underscores == old(self)@.underscores,
                sections_view(layout_sections(self.sections)) =~~= mark_upto(orig, i as int, 0, false),
                offset == section_start(lens, i as int),
                ops_view(ops@) =~= section_ops(orig, underscores, i as int),
            decreases n - i,
        {
            let m = units_len(&sections_get(&self.sections, i).draw_units);
            assert(sections_view(layout_sections(self.sections))[i as int].len() == m);
            assert(mark_upto(orig, i as int, 0, false)[i as int].len() == orig[i as int].len());
            proof {
                lemma_section_start_grows(lens, i as int, n as int);
                lemma_section_start_grows(lens, i + 1, n as int);
                lemma_section_start_nonneg(lens, i as int);
            }
            let ghost base = offset as int;
            let mut j: usize = 0;
            while j < m
                invariant
                    n == layout_sections(self.sections).len(),
                    orig.len() == n,
                    lens == lens_of(orig),
                    i < n,
                    j <= m,
                    m == orig[i as int].len(),
                    !self.hidden,
                    underscores == self.underscores_need_redraw,
                    sections_view(layout_sections(self.sections)) =~~= mark_upto(orig, i as int, j as int, false),
                    base == section_start(lens, i as int),
                    0 <= base,
                    base + 8 * m <= i32::MAX,
                    offset == base + 8 * j,
                    ops_view(ops@) =~= section_ops(orig, underscores, i as int) + unit_ops(
                        orig[i as int],
                        base,
                        j as int,
                    ),
                decreases m - j,
            {
                let ghost before_ops = ops_view(ops@);
                let ghost old_secs = layout_sections(self.sections);
                assert(sections_view(old_secs)[i as int].len() == section_units(old_secs[i as int].draw_units).len());
                assert(mark_upto(orig, i as int, j as int, false)[i as int].len() == orig[i as int].len());
                assert(sections_view(old_secs)[i as int][j as int] == unit_view(
                    section_units(old_secs[i as int].draw_units)[j as int],
                ));
                let unit = units_get(&sections_get(&self.sections, i).draw_units, j);
                if unit.needs_redraw {
                    let text = line_clone(&unit.content);
                    ops.push(DrawOp::ClearLine(offset));
                    ops.push(DrawOp::Header(offset, text));
                    let section = sections_get_mut(&mut self.sections, i);
                    let unit = units_get_mut(&mut section.draw_units, j);
                    unit.needs_redraw = false;
                    proof {
                        lemma_mark_step(old_secs, layout_sections(self.sections), orig, i as int, j as int, false);
                        assert(ops_view(ops@) =~= before_ops + seq![
                            DrawOpView::ClearLine(base + 8 * j),
                            DrawOpView::Header(base + 8 * j, orig[i as int][j as int].content),
                        ]);
                    }
                } else {
                    proof {
                        let target = mark_upto(orig, i as int, j + 1, false);
                        assert forall|a: int| 0 <= a < n implies sections_view(
                            layout_sections(self.sections),
                        )[a] =~= target[a] by {}
                        assert(sections_view(layout_sections(self.sections)) =~~= target);
                        assert(ops_view(ops@) =~= before_ops + Seq::<DrawOpView>::empty());
                    }
                }
                offset = offset + 8;
                j = j + 1;
            }
            let ghost before_ops = ops_view(ops@);
            if underscores {
                ops.push(DrawOp::Underscore(offset));
                assert(ops_view(ops@) =~= before_ops + seq![DrawOpView::Underscore(base + 8 * m)]);
            } else {
                assert(ops_view(ops@) =~= before_ops + Seq::<DrawOpView>::empty());
            }
            assert(mark_upto(orig, i as int, m as int, false) =~~= mark_upto(orig, i + 1, 0, false));
            offset = offset + 4;
            i = i + 1;
        }
        self.underscores_need_redraw = false;
        assert(sections_view(layout_sections(self.sections)) =~~= all_marked(orig, false));
        ops
    }
}

proof fn lemma_clean_units_draw_nothing(units: Seq<UnitView>, base: int, j: int)
    requires
        forall|b: int| 0 <= b < units.len() ==> !(#[trigger] units[b]).dirty,
    ensures
        unit_ops(units, base, j) == Seq::<DrawOpView>::empty(),
    decreases j,
{
    if j > 0 && j <= units.len() {
        lemma_clean_units_draw_nothing(units, base, j - 1);
        assert(unit_ops(units, base, j) =~= Seq::<DrawOpView>::empty());
    }
}

proof fn lemma_clean_sections_draw_nothing(sections: Seq<Seq<UnitView>>, k: int)
    requires
        forall|a: int, b: int|
            0 <= a < sections.len() && 0 <= b < sections[a].len() ==> !(#[trigger] sections[a][b]).dirty,
    ensures
        section_ops(sections, false, k) == Seq::<DrawOpView>::empty(),
    decreases k,
{
    if k > 0 && k <= sections.len() {
        lemma_clean_sections_draw_nothing(sections, k - 1);
        let units = sections[k - 1];
        assert forall|b: int| 0 <= b < units.len() implies !(#[trigger] units[b]).dirty by {
            assert(!sections[k - 1][b].dirty);
        }
        lemma_clean_units_draw_nothing(units, section_start(lens_of(sections), k - 1), units.len() as int);
        assert(section_ops(sections, false, k) =~= Seq::<DrawOpView>::empty());
    }
}

/// Once rendered, a display that nothing changed draws nothing more: what
/// a render leaves behind renders to nothing.
pub proof fn lemma_render_settles(v: RenderView)
    ensures
        render_ops(RenderView { hidden: false, sections: all_marked(v.sections, false), underscores: false })
            == Seq::<DrawOpView>::empty(),
{
    let s = all_marked(v.sections, false);
    assert forall|a: int, b: int| 0 <= a < s.len() && 0 <= b < s[a].len() implies !(#[trigger] s[a][b]).dirty by {}
    lemma_clean_sections_draw_nothing(s, s.len() as int);
}

} // verus!
