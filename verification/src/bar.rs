//! The status bar: an ordered sequence of sections plus layout
//! configuration, with a render operation that writes the sections into a
//! character-cell grid.
//!
//! [`StatusBar::render_ref`] is specified by the relation
//! [`StatusBar::renders_to`]: a cell inside a section's slot receives the
//! corresponding character of that section's text, truncated to the slot and
//! carrying the section's attributes, and every other cell keeps its
//! previous content.  The proof functions at
//! the end of the module derive from that relation that rendering is
//! deterministic and idempotent and that an empty region is never written.

use vstd::prelude::*;
use vstd::math::min;
use crate::error::StatusBarError;
use crate::grid::{Cell, Grid};
use crate::style::Style;
use crate::layout::{compute_layout, lemma_off_bounds, lemma_slots_disjoint, off_of, slot_width, Flex, Rect};
use crate::section::StatusBarSection;

verus! {

/// A customizable status bar that can contain multiple sections.
#[derive(Debug)]
pub struct StatusBar {
    pub sections: Vec<StatusBarSection>,
    pub flex: Flex,
    pub spacing: u16,
}

impl StatusBar {
    /// The widths the sections ask the layout for.
    pub open spec fn widths(self) -> Seq<u16> {
        Seq::new(self.sections@.len(), |i: int| self.sections@[i].requested_width() as u16)
    }

    /// The left edge of section `i`'s slot inside `area`.
    pub open spec fn sec_left(self, area: Rect, i: int) -> int {
        area.x + off_of(area.width as int, self.widths(), self.flex, self.spacing as int, i)
    }

    /// The width of section `i`'s slot inside `area`.
    pub open spec fn sec_slot(self, area: Rect, i: int) -> int {
        slot_width(area.width as int, self.widths(), self.flex, self.spacing as int, i)
    }

    /// The number of cells section `i` writes: its text truncated to its slot.
    pub open spec fn write_len(self, area: Rect, i: int) -> int {
        min(self.sections@[i].text().len() as int, self.sec_slot(area, i))
    }

    /// The cell rendering writes at column `x` of section `i`'s slot: the
    /// corresponding character of the section's text, carrying the
    /// section's attributes.
    pub open spec fn sec_cell(self, area: Rect, i: int, x: int) -> Cell {
        Cell {
            ch: self.sections@[i].text()[x - self.sec_left(area, i)],
            style: self.sections@[i].effective_style(),
        }
    }

    /// Whether rendering into `area` of a `gw` by `gh` grid writes the cell
    /// at column `x` of row `y` with a character of section `i`.
    pub open spec fn sec_covers(self, area: Rect, gw: int, gh: int, i: int, x: int, y: int) -> bool {
        &&& !area.spec_is_empty()
        &&& 0 <= i < self.sections@.len()
        &&& y == area.y as int
        &&& y < gh
        &&& x < gw
        &&& self.sec_left(area, i) <= x < self.sec_left(area, i) + self.write_len(area, i)
    }

    /// Whether rendering writes the cell at column `x` of row `y` at all.
    pub open spec fn covered(self, area: Rect, gw: int, gh: int, x: int, y: int) -> bool {
        exists|i: int| self.sec_covers(area, gw, gh, i, x, y)
    }

    /// Whether rendering writes the cell with a character of one of the
    /// first `n` sections.
    pub open spec fn covered_upto(self, area: Rect, gw: int, gh: int, n: int, x: int, y: int) -> bool {
        exists|k: int| 0 <= k < n && self.sec_covers(area, gw, gh, k, x, y)
    }

    /// How a render of this bar into `area` transforms the cells of a `gw`
    /// by `gh` grid: each cell inside a section's slot receives the
    /// corresponding character of that section's text, truncated to the
    /// slot, and every other cell keeps its previous content.
    pub open spec fn renders_to(
        self,
        area: Rect,
        gw: int,
        gh: int,
        g0: Seq<Seq<Cell>>,
        g1: Seq<Seq<Cell>>,
    ) -> bool {
        &&& g1.len() == g0.len()
        &&& (forall|y: int| 0 <= y < g0.len() ==> (#[trigger] g1[y]).len() == g0[y].len())
        &&& (forall|x: int, y: int|
            0 <= y < g0.len() && 0 <= x < g0[y].len() && !self.covered(area, gw, gh, x, y)
                ==> #[trigger] g1[y][x] == #[trigger] g0[y][x])
        &&& (forall|i: int, x: int|
            #[trigger] self.sec_covers(area, gw, gh, i, x, area.y as int) ==> g1[area.y as int][x]
                == self.sec_cell(area, i, x))
    }

    /// Initializes a new status bar with a specified number of sections,
    /// all set to default.
    pub fn new(nsections: usize) -> (r: Self)
        ensures
            r.sections@.len() == nsections,
            forall|k: int| 0 <= k < nsections ==> (#[trigger] r.sections@[k]).is_blank(),
            r.flex == Flex::Start,
            r.spacing == 1,
    {
        let mut sections: Vec<StatusBarSection> = Vec::new();
        let mut i: usize = 0;
        while i < nsections
            invariant
                i <= nsections,
                sections@.len() == i,
                forall|k: int| 0 <= k < i ==> (#[trigger] sections@[k]).is_blank(),
            decreases nsections - i,
        {
            sections.push(StatusBarSection::default());
            i += 1;
        }
        StatusBar { sections, flex: Flex::default(), spacing: 1 }
    }

    /// Configures the flex layout mode of the sections in the status bar.
    pub fn flex(self, flex: Flex) -> (r: Self)
        ensures
            r.flex == flex,
            r.sections == self.sections,
            r.spacing == self.spacing,
    {
        StatusBar { sections: self.sections, flex, spacing: self.spacing }
    }

    /// Sets the spacing between status bar sections.
    pub fn spacing(self, spacing: u16) -> (r: Self)
        ensures
            r.spacing == spacing,
            r.sections == self.sections,
            r.flex == self.flex,
    {
        StatusBar { sections: self.sections, flex: self.flex, spacing }
    }

    /// Replaces a specific section, chosen by its index, in builder style.
    ///
    /// Returns an error if and only if the index is out of bounds; the bar
    /// is handed back unchanged but for the requested section.
    pub fn section(self, index: usize, section: StatusBarSection) -> (r: Result<
        Self,
        StatusBarError,
    >)
        ensures
            (index < self.sections@.len()) <==> (r matches Ok(_)),
            r matches Ok(b) ==> b.sections@ == self.sections@.update(index as int, section)
                && b.flex == self.flex && b.spacing == self.spacing,
            r matches Err(e) ==> e == StatusBarError::IndexOutOfBounds(index),
    {
        if index < self.sections.len() {
            let mut this = self;
            this.sections[index] = section;
            Ok(this)
        } else {
            Err(StatusBarError::IndexOutOfBounds(index))
        }
    }

    /// Replaces a specific section, chosen by its index, in place.
    ///
    /// Reports an error if and only if the index is out of bounds, and then
    /// leaves the status bar unchanged.
    pub fn set_section(&mut self, index: usize, section: StatusBarSection) -> (r: Result<
        (),
        StatusBarError,
    >)
        ensures
            (index < old(self).sections@.len()) <==> (r matches Ok(_)),
            r matches Ok(_) ==> final(self).sections@ == old(self).sections@.update(
                index as int,
                section,
            ) && final(self).flex == old(self).flex && final(self).spacing == old(self).spacing,
            r matches Err(e) ==> e == StatusBarError::IndexOutOfBounds(index) && *final(self)
                == *old(self),
    {
        if index < self.sections.len() {
            self.sections[index] = section;
            Ok(())
        } else {
            Err(StatusBarError::IndexOutOfBounds(index))
        }
    }

    /// Sets the visual attributes of a specific section, chosen by its
    /// index, in place.
    ///
    /// Reports an error if and only if the index is out of bounds, and then
    /// leaves the status bar unchanged.
    pub fn set_style(&mut self, index: usize, style: Style) -> (r: Result<
        (),
        StatusBarError,
    >)
        ensures
            (index < old(self).sections@.len()) <==> (r matches Ok(_)),
            r matches Ok(_) ==> final(self).sections@ == old(self).sections@.update(
                index as int,
                (StatusBarSection {
                    pre_separator: old(self).sections@[index as int].pre_separator,
                    content: old(self).sections@[index as int].content,
                    post_separator: old(self).sections@[index as int].post_separator,
                    style: Some(style),
                }),
            ) && final(self).flex == old(self).flex && final(self).spacing == old(self).spacing,
            r matches Err(e) ==> e == StatusBarError::IndexOutOfBounds(index) && *final(self)
                == *old(self),
    {
        if index < self.sections.len() {
            let s = &mut self.sections[index];
            s.style = Some(style);
            Ok(())
        } else {
            Err(StatusBarError::IndexOutOfBounds(index))
        }
    }

    /// Renders the status bar into `area` of the grid, consuming the bar.
    pub fn render(self, area: Rect, buf: &mut Grid)
        requires
            old(buf).wf(),
            area.wf(),
        ensures
            final(buf).wf(),
            final(buf).width == old(buf).width,
            final(buf).height == old(buf).height,
            self.renders_to(
                area,
                old(buf).width as int,
                old(buf).height as int,
                old(buf).cells(),
                final(buf).cells(),
            ),
    {
        self.render_ref(area, buf);
    }

    /// Renders the status bar into `area` of the grid.
    ///
    /// An empty region yields no writes; a section whose text exceeds its
    /// slot is truncated; a section pushed past the right edge receives an
    /// empty slot and is omitted.
    #[verifier::loop_isolation(false)]
    pub fn render_ref(&self, area: Rect, buf: &mut Grid)
        requires
            old(buf).wf(),
            area.wf(),
        ensures
            final(buf).wf(),
            final(buf).width == old(buf).width,
            final(buf).height == old(buf).height,
            self.renders_to(
                area,
                old(buf).width as int,
                old(buf).height as int,
                old(buf).cells(),
                final(buf).cells(),
            ),
    {
        let ghost gw = old(buf).width as int;
        let ghost gh = old(buf).height as int;
        let ghost g0 = old(buf).cells();
        if area.is_empty() {
            return;
        }
        let n = self.sections.len();
        let mut widths: Vec<u16> = Vec::new();
        let mut texts: Vec<Vec<char>> = Vec::new();
        let mut i: usize = 0;
        while i < n
            invariant
                i <= n,
                widths@.len() == i,
                texts@.len() == i,
                forall|k: int|
                    0 <= k < i ==> (#[trigger] widths@[k]) as int
                        == self.sections@[k].requested_width(),
                forall|k: int| 0 <= k < i ==> (#[trigger] texts@[k])@ == self.sections@[k].text(),
            decreases n - i,
        {
            let s = &self.sections[i];
            widths.push(s.width16());
            texts.push(s.text_chars());
            i += 1;
        }
        proof {
            assert(widths@ =~= self.widths());
        }
        let rects = compute_layout(area, &widths, self.flex, self.spacing);
        let ghost w = area.width as int;
        let ghost ws = self.widths();
        let ghost sp = self.spacing as int;
        let mut i: usize = 0;
        while i < n
            invariant
                i <= n,
                buf.wf(),
                buf.width == old(buf).width,
                buf.height == old(buf).height,
                forall|x: int, y: int|
                    0 <= y < g0.len() && 0 <= x < g0[y].len() && !self.covered_upto(
                        area,
                        gw,
                        gh,
                        i as int,
                        x,
                        y,
                    ) ==> #[trigger] buf.cells()[y][x] == g0[y][x],
                forall|k: int, x: int|
                    0 <= k < i && #[trigger] self.sec_covers(area, gw, gh, k, x, area.y as int)
                        ==> buf.cells()[area.y as int][x] == self.sec_cell(area, k, x),
            decreases n - i,
        {
            let r = rects[i];
            let st = self.sections[i].effective();
            let t = &texts[i];
            let tl = t.len();
            let kw = r.width as usize;
            let kmax = if tl <= kw {
                tl
            } else {
                kw
            };
            proof {
                lemma_off_bounds(w, ws, self.flex, sp, i as int);
                assert(kmax as int == self.write_len(area, i as int));
            }
            let mut j: usize = 0;
            while j < kmax
                invariant
                    j <= kmax,
                    buf.wf(),
                    buf.width == old(buf).width,
                    buf.height == old(buf).height,
                    forall|x: int, y: int|
                        0 <= y < g0.len() && 0 <= x < g0[y].len() && !self.covered_upto(
                            area,
                            gw,
                            gh,
                            i as int,
                            x,
                            y,
                        ) && !(self.sec_covers(area, gw, gh, i as int, x, y) && x < self.sec_left(
                            area,
                            i as int,
                        ) + j) ==> #[trigger] buf.cells()[y][x] == g0[y][x],
                    forall|k: int, x: int|
                        0 <= k < i && #[trigger] self.sec_covers(area, gw, gh, k, x, area.y as int)
                            ==> buf.cells()[area.y as int][x] == self.sec_cell(area, k, x),
                    forall|x: int|
                        #[trigger] self.sec_covers(area, gw, gh, i as int, x, area.y as int) && x
                            < self.sec_left(area, i as int) + j ==> buf.cells()[area.y as int][x]
                            == self.sec_cell(area, i as int, x),
                decreases kmax - j,
            {
                let x = r.x + (j as u16);
                let c = Cell { ch: t[j], style: st };
                if x < buf.width && r.y < buf.height {
                    proof {
                        assert(self.sec_covers(area, gw, gh, i as int, x as int, area.y as int));
                    }
                    let ghost prev = buf.cells();
                    buf.set(x, r.y, c);
                    proof {
                        assert forall|k: int, xx: int|
                            0 <= k < i && #[trigger] self.sec_covers(
                                area,
                                gw,
                                gh,
                                k,
                                xx,
                                area.y as int,
                            ) implies buf.cells()[area.y as int][xx] == self.sec_cell(
                            area,
                            k,
                            xx,
                        ) by {
                            lemma_off_bounds(w, ws, self.flex, sp, k);
                            lemma_slots_disjoint(w, ws, self.flex, sp, k, i as int);
                            assert(!self.sec_covers(area, gw, gh, k, x as int, area.y as int));
                            assert(xx != x as int);
                            assert(prev[area.y as int][xx] == self.sec_cell(area, k, xx));
                        }
                        assert forall|xx: int|
                            #[trigger] self.sec_covers(area, gw, gh, i as int, xx, area.y as int)
                                && xx < self.sec_left(area, i as int) + j + 1 implies buf.cells()[area.y as int][xx]
                            == self.sec_cell(area, i as int, xx) by {
                            lemma_off_bounds(w, ws, self.flex, sp, i as int);
                            if xx == x as int {
                            } else {
                                assert(prev[area.y as int][xx] == self.sec_cell(area, i as int, xx));
                            }
                        }
                    }
                }
                j += 1;
            }
            i += 1;
        }
        proof {
            assert forall|i2: int, x: int|
                #[trigger] self.sec_covers(area, gw, gh, i2, x, area.y as int) implies buf.cells()[area.y as int][x]
                == self.sec_cell(area, i2, x) by {}
            assert(self.renders_to(area, gw, gh, g0, buf.cells()));
        }
    }
}

impl Default for StatusBar {
    /// A bar with no sections, left-packed, without spacing.
    fn default() -> (r: Self)
        ensures
            r.sections@.len() == 0,
            r.flex == Flex::Start,
            r.spacing == 0,
    {
        StatusBar { sections: Vec::new(), flex: Flex::default(), spacing: 0 }
    }
}

/// Rendering into an empty region changes nothing: every cell of the grid
/// keeps its previous content.
pub proof fn lemma_render_empty_region(
    bar: StatusBar,
    area: Rect,
    gw: int,
    gh: int,
    g0: Seq<Seq<Cell>>,
    g1: Seq<Seq<Cell>>,
)
    requires
        bar.renders_to(area, gw, gh, g0, g1),
        area.spec_is_empty(),
    ensures
        g1 =~~= g0,
{
}

/// Rendering is deterministic: two renders of the same bar into the same
/// region of the same grid contents yield the same grid contents.
pub proof fn lemma_render_deterministic(
    bar: StatusBar,
    area: Rect,
    gw: int,
    gh: int,
    g0: Seq<Seq<Cell>>,
    g1: Seq<Seq<Cell>>,
    g2: Seq<Seq<Cell>>,
)
    requires
        bar.renders_to(area, gw, gh, g0, g1),
        bar.renders_to(area, gw, gh, g0, g2),
    ensures
        g2 =~~= g1,
{
    assert forall|y: int, x: int| 0 <= y < g1.len() && 0 <= x < g1[y].len() implies g2[y][x]
        == g1[y][x] by {
        if bar.covered(area, gw, gh, x, y) {
            let i = choose|i: int| bar.sec_covers(area, gw, gh, i, x, y);
            assert(bar.sec_covers(area, gw, gh, i, x, area.y as int));
            assert(g1[area.y as int][x] == bar.sec_cell(area, i, x));
            assert(g2[area.y as int][x] == bar.sec_cell(area, i, x));
            assert(y == area.y as int);
        } else {
            assert(g1.len() == g0.len());
            assert(g1[y].len() == g0[y].len());
            assert(g1[y][x] == g0[y][x]);
            assert(g2[y][x] == g0[y][x]);
        }
    }
}

/// Rendering is idempotent: rendering a second time over the result of a
/// first render leaves the grid contents as they were.
pub proof fn lemma_render_idempotent(
    bar: StatusBar,
    area: Rect,
    gw: int,
    gh: int,
    g0: Seq<Seq<Cell>>,
    g1: Seq<Seq<Cell>>,
    g2: Seq<Seq<Cell>>,
)
    requires
        bar.renders_to(area, gw, gh, g0, g1),
        bar.renders_to(area, gw, gh, g1, g2),
    ensures
        g2 =~~= g1,
{
    assert forall|y: int, x: int| 0 <= y < g1.len() && 0 <= x < g1[y].len() implies g2[y][x]
        == g1[y][x] by {
        if bar.covered(area, gw, gh, x, y) {
            let i = choose|i: int| bar.sec_covers(area, gw, gh, i, x, y);
            assert(bar.sec_covers(area, gw, gh, i, x, area.y as int));
        }
    }
}

/// Replacing section `index` and rendering places that section's (possibly
/// truncated) text inside that section's slot, and nowhere else: every cell
/// outside all slots keeps its previous content.
pub proof fn lemma_set_section_render(
    bar0: StatusBar,
    bar: StatusBar,
    index: int,
    section: StatusBarSection,
    area: Rect,
    gw: int,
    gh: int,
    g0: Seq<Seq<Cell>>,
    g1: Seq<Seq<Cell>>,
)
    requires
        0 <= index < bar0.sections@.len(),
        bar.sections@ == bar0.sections@.update(index, section),
        bar.flex == bar0.flex,
        bar.spacing == bar0.spacing,
        bar.renders_to(area, gw, gh, g0, g1),
    ensures
        bar.write_len(area, index) <= bar.sec_slot(area, index),
        forall|x: int|
            #[trigger] bar.sec_covers(area, gw, gh, index, x, area.y as int) ==> g1[area.y as int][x]
                == (Cell {
                    ch: section.text()[x - bar.sec_left(area, index)],
                    style: section.effective_style(),
                }),
        forall|x: int, y: int|
            0 <= y < g0.len() && 0 <= x < g0[y].len() && !bar.covered(area, gw, gh, x, y)
                ==> g1[y][x] == g0[y][x],
{
}

} // verus!
