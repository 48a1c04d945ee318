//! The horizontal partition algorithm.
//!
//! [`compute_layout`] maps `N` section widths and a bounding rectangle to `N`
//! disjoint, left-to-right ordered sub-rectangles, honouring a distribution
//! strategy ([`Flex`]) and an inter-section spacing.  The partition is defined
//! by the spec functions [`lead_of`], [`gap_of`], [`eff_width`] and [`off_of`],
//! and [`lemma_slots_disjoint`] proves that the sub-rectangles never overlap
//! and are monotonically increasing in their left edge.

use vstd::prelude::*;
use vstd::math::{min, max};

verus! {

/// The strategy used to distribute sections over the width of the region.
#[derive(Clone, Copy, Debug, PartialEq, Eq, Structural)]
pub enum Flex {
    /// Pack sections at the left edge, separated by the configured spacing.
    Start,
    /// Pack sections against the right edge, separated by the configured spacing.
    End,
    /// Center the packed block of sections, the odd spare column going to the right.
    Center,
    /// First section flush left, last flush right, free space split evenly
    /// between the interior boundaries (the earliest gaps take the remainder).
    SpaceBetween,
    /// Free space split into `N + 1` equal gaps, remainder columns on the
    /// outer gaps first.
    SpaceAround,
    /// The region divided into `N` equal columns regardless of content width
    /// and of spacing; the `W % N` remainder columns widen the earliest
    /// columns, the trailing ones keeping width `W / N`.
    RatioEqual,
}

impl Default for Flex {
    /// The default strategy packs sections from the left.
    fn default() -> (r: Self)
        ensures
            r == Flex::Start,
    {
        Flex::Start
    }
}

/// A rectangular region of a character-cell grid, in cell coordinates.
#[derive(Clone, Copy, Debug, PartialEq, Eq, Structural)]
pub struct Rect {
    pub x: u16,
    pub y: u16,
    pub width: u16,
    pub height: u16,
}

impl Rect {
    /// The rectangle stays within the addressable coordinate space.
    pub open spec fn wf(self) -> bool {
        self.x + self.width <= u16::MAX && self.y + self.height <= u16::MAX
    }

    /// True when the rectangle covers no cell at all.
    pub open spec fn spec_is_empty(self) -> bool {
        self.width == 0 || self.height == 0
    }

    /// Builds a rectangle, clamping width and height so that the right and
    /// bottom edges stay within the addressable coordinate space.
    pub fn new(x: u16, y: u16, width: u16, height: u16) -> (r: Rect)
        ensures
            r.wf(),
            r.x == x,
            r.y == y,
            r.width as int == min(width as int, u16::MAX - x),
            r.height as int == min(height as int, u16::MAX - y),
    {
        let w = if width <= u16::MAX - x { width } else { u16::MAX - x };
        let h = if height <= u16::MAX - y { height } else { u16::MAX - y };
        Rect { x, y, width: w, height: h }
    }

    /// True when the rectangle covers no cell at all.
    pub fn is_empty(&self) -> (r: bool)
        ensures
            r == self.spec_is_empty(),
    {
        self.width == 0 || self.height == 0
    }
}

/// The total width of the sections with `sp` spacing columns between
/// neighbours, saturated at one more than the largest possible region width:
/// the partition never distinguishes totals beyond that point.
pub open spec fn sat_total(ws: Seq<u16>, sp: int) -> int
    decreases ws.len(),
{
    if ws.len() == 0 {
        0
    } else if ws.len() == 1 {
        ws[0] as int
    } else {
        min(sat_total(ws.drop_last(), sp) + sp + ws.last() as int, 65536)
    }
}

/// The free columns left over once every section's width is used, ignoring
/// spacing (the strategies that use this quantity define their own gaps).
pub open spec fn free_space(w: int, ws: Seq<u16>) -> int {
    max(w - sat_total(ws, 0), 0)
}

/// The blank columns before the first section.
pub open spec fn lead_of(w: int, ws: Seq<u16>, flex: Flex, sp: int) -> int {
    match flex {
        Flex::Start => 0,
        Flex::End => if sat_total(ws, sp) <= w {
            w - sat_total(ws, sp)
        } else {
            0
        },
        Flex::Center => if sat_total(ws, sp) <= w {
            (w - sat_total(ws, sp)) / 2
        } else {
            0
        },
        Flex::SpaceBetween => 0,
        Flex::SpaceAround => {
            let free = free_space(w, ws);
            let n1 = ws.len() as int + 1;
            free / n1 + (free % n1 + 1) / 2
        },
        Flex::RatioEqual => 0,
    }
}

/// The blank columns between section `i` and section `i + 1`.
pub open spec fn gap_of(w: int, ws: Seq<u16>, flex: Flex, sp: int, i: int) -> int {
    match flex {
        Flex::Start => sp,
        Flex::End => sp,
        Flex::Center => sp,
        Flex::SpaceBetween => if ws.len() >= 2 {
            let free = free_space(w, ws);
            let m = ws.len() - 1;
            free / m + if i < free % m {
                1int
            } else {
                0int
            }
        } else {
            0
        },
        Flex::SpaceAround => free_space(w, ws) / (ws.len() as int + 1),
        Flex::RatioEqual => 0,
    }
}

/// The width that the strategy grants section `i` before clamping to the
/// space that remains: the section's own width, except that `RatioEqual`
/// grants every section an equal column of the region.
pub open spec fn eff_width(w: int, ws: Seq<u16>, flex: Flex, i: int) -> int {
    match flex {
        Flex::RatioEqual => {
            let n = ws.len() as int;
            w / n + if i < w % n {
                1int
            } else {
                0int
            }
        },
        _ => ws[i] as int,
    }
}

/// The offset of section `i`'s left edge from the region's left edge,
/// clamped to the region width: sections that no longer fit are pushed to
/// the right edge where they receive an empty slot.
pub open spec fn off_of(w: int, ws: Seq<u16>, flex: Flex, sp: int, i: int) -> int
    decreases i,
{
    if i <= 0 {
        min(lead_of(w, ws, flex, sp), w)
    } else {
        min(
            off_of(w, ws, flex, sp, i - 1) + eff_width(w, ws, flex, i - 1)
                + gap_of(w, ws, flex, sp, i - 1),
            w,
        )
    }
}

/// The width of section `i`'s slot: the granted width, clamped to the
/// columns that remain between the slot's left edge and the region's right
/// edge.
pub open spec fn slot_width(w: int, ws: Seq<u16>, flex: Flex, sp: int, i: int) -> int {
    min(eff_width(w, ws, flex, i), w - off_of(w, ws, flex, sp, i))
}

/// The saturated total is never negative and never exceeds its cap.
pub proof fn lemma_sat_total_bounds(ws: Seq<u16>, sp: int)
    requires
        sp >= 0,
    ensures
        0 <= sat_total(ws, sp) <= 65536,
    decreases ws.len(),
{
    if ws.len() > 1 {
        lemma_sat_total_bounds(ws.drop_last(), sp);
    }
}

/// Every gap the strategies insert is non-negative.
pub proof fn lemma_gap_nonneg(w: int, ws: Seq<u16>, flex: Flex, sp: int, i: int)
    requires
        w >= 0,
        sp >= 0,
    ensures
        gap_of(w, ws, flex, sp, i) >= 0,
{
    lemma_sat_total_bounds(ws, 0);
    match flex {
        Flex::SpaceBetween => {
            if ws.len() >= 2 {
                lemma_div_le_self(free_space(w, ws), ws.len() - 1);
            }
        },
        Flex::SpaceAround => {
            lemma_div_le_self(free_space(w, ws), ws.len() as int + 1);
        },
        _ => {},
    }
}

/// Every granted width is non-negative.
pub proof fn lemma_eff_nonneg(w: int, ws: Seq<u16>, flex: Flex, i: int)
    requires
        w >= 0,
        0 <= i < ws.len(),
    ensures
        eff_width(w, ws, flex, i) >= 0,
{
    match flex {
        Flex::RatioEqual => {
            let n = ws.len() as int;
            assert(w / n >= 0) by (nonlinear_arith)
                requires w >= 0 && n >= 1;
        },
        _ => {},
    }
}

/// The leading blank run fits inside the region.
pub proof fn lemma_lead_bounds(w: int, ws: Seq<u16>, flex: Flex, sp: int)
    requires
        w >= 0,
        sp >= 0,
    ensures
        0 <= lead_of(w, ws, flex, sp) <= w,
{
    lemma_sat_total_bounds(ws, sp);
    lemma_sat_total_bounds(ws, 0);
    match flex {
        Flex::Center => {
            if sat_total(ws, sp) <= w {
                lemma_div_le_self(w - sat_total(ws, sp), 2);
            }
        },
        Flex::SpaceAround => {
            let free = free_space(w, ws);
            let n1 = ws.len() as int + 1;
            lemma_div_le_self(free, n1);
            let b = free % n1;
            lemma_div_le_self(b + 1, 2);
            assert(b >= 1 ==> (b + 1) / 2 <= b) by (nonlinear_arith)
                requires b >= 0;
            assert(b == 0 ==> (b + 1) / 2 == 0);
            assert(free <= w);
        },
        _ => {},
    }
}

/// Offsets stay inside the region and never move left as the index grows.
pub proof fn lemma_off_bounds(w: int, ws: Seq<u16>, flex: Flex, sp: int, i: int)
    requires
        w >= 0,
        sp >= 0,
        0 <= i < ws.len(),
    ensures
        0 <= off_of(w, ws, flex, sp, i) <= w,
        i > 0 ==> off_of(w, ws, flex, sp, i - 1) + eff_width(w, ws, flex, i - 1)
            <= off_of(w, ws, flex, sp, i) || off_of(w, ws, flex, sp, i) == w,
        i > 0 ==> off_of(w, ws, flex, sp, i - 1) <= off_of(w, ws, flex, sp, i),
    decreases i,
{
    if i == 0 {
        lemma_lead_bounds(w, ws, flex, sp);
    } else {
        lemma_off_bounds(w, ws, flex, sp, i - 1);
        lemma_eff_nonneg(w, ws, flex, i - 1);
        lemma_gap_nonneg(w, ws, flex, sp, i - 1);
    }
}

/// The slot of section `i` ends at or before the slot of section `j` begins,
/// for every strategy and every combination of widths: the sub-rectangles are
/// pairwise non-overlapping and ordered by their left edge.
pub proof fn lemma_slots_disjoint(w: int, ws: Seq<u16>, flex: Flex, sp: int, i: int, j: int)
    requires
        w >= 0,
        sp >= 0,
        0 <= i < j < ws.len(),
    ensures
        off_of(w, ws, flex, sp, i) + slot_width(w, ws, flex, sp, i) <= off_of(w, ws, flex, sp, j),
        off_of(w, ws, flex, sp, i) <= off_of(w, ws, flex, sp, j),
        0 <= slot_width(w, ws, flex, sp, i),
        off_of(w, ws, flex, sp, j) + slot_width(w, ws, flex, sp, j) <= w,
    decreases j - i,
{
    lemma_off_bounds(w, ws, flex, sp, i);
    lemma_off_bounds(w, ws, flex, sp, j);
    lemma_eff_nonneg(w, ws, flex, i);
    lemma_eff_nonneg(w, ws, flex, j);
    lemma_gap_nonneg(w, ws, flex, sp, i);
    if j == i + 1 {
    } else {
        lemma_slots_disjoint(w, ws, flex, sp, i + 1, j);
        lemma_slots_disjoint(w, ws, flex, sp, i, i + 1);
    }
}

/// Euclidean division of a non-negative number never grows it.
proof fn lemma_div_le_self(x: int, d: int)
    requires
        0 <= x,
        1 <= d,
    ensures
        0 <= x / d <= x,
        0 <= x % d <= x,
        x / d + x % d <= x,
        x % d >= 1 ==> x / d + 1 <= x,
{
    vstd::arithmetic::div_mod::lemma_fundamental_div_mod(x, d);
    vstd::arithmetic::div_mod::lemma_div_pos_is_pos(x, d);
    vstd::arithmetic::div_mod::lemma_mod_bound(x, d);
    let q = x / d;
    assert(q <= d * q) by (nonlinear_arith)
        requires 0 <= q, 1 <= d;
}

/// Computes the saturated total width of the sections with `sp` spacing
/// columns between neighbours.
fn sat_total_exec(ws: &Vec<u16>, sp: u16) -> (t: u32)
    ensures
        t as int == sat_total(ws@, sp as int),
{
    let n = ws.len();
    if n == 0 {
        return 0;
    }
    let mut t: u32 = ws[0] as u32;
    let mut i: usize = 1;
    while i < n
        invariant
            1 <= i <= n,
            n == ws@.len(),
            t as int == sat_total(ws@.subrange(0, i as int), sp as int),
        decreases n - i,
    {
        proof {
            lemma_sat_total_bounds(ws@.subrange(0, i as int), sp as int);
        }
        let mut nt: u32 = t + sp as u32 + ws[i] as u32;
        if nt > 65536 {
            nt = 65536;
        }
        proof {
            assert(ws@.subrange(0, i as int + 1).drop_last() =~= ws@.subrange(0, i as int));
            assert(ws@.subrange(0, i as int + 1).last() == ws@[i as int]);
        }
        t = nt;
        i += 1;
    }
    proof {
        assert(ws@.subrange(0, n as int) =~= ws@);
    }
    t
}

/// Divides the free columns by the number of gaps, returning quotient and
/// remainder; the divisor is `gaps + 1` to spare the caller an overflowing
/// increment.
fn div_free(free: u32, gaps_minus_one: usize) -> (qr: (u32, u32))
    requires
        free <= 65535,
    ensures
        qr.0 as int == free as int / (gaps_minus_one as int + 1),
        qr.1 as int == free as int % (gaps_minus_one as int + 1),
        qr.0 <= free,
        qr.1 <= free,
{
    proof {
        let dd = gaps_minus_one as int + 1;
        assert(free as int / dd <= free as int && free as int % dd <= free as int && free as int
            / dd >= 0 && free as int % dd >= 0) by (nonlinear_arith)
            requires free as int >= 0 && dd >= 1;
    }
    if gaps_minus_one >= 65536 {
        proof {
            vstd::arithmetic::div_mod::lemma_basic_div(free as int, gaps_minus_one as int + 1);
            vstd::arithmetic::div_mod::lemma_small_mod(free as nat, (gaps_minus_one + 1) as nat);
        }
        (0, free)
    } else {
        let d: u32 = gaps_minus_one as u32 + 1;
        (free / d, free % d)
    }
}

/// Computes the free columns once every section's width is used.
fn free_exec(w: u16, ws: &Vec<u16>) -> (free: u16)
    ensures
        free as int == free_space(w as int, ws@),
{
    let t = sat_total_exec(ws, 0);
    if (w as u32) > t {
        w - (t as u16)
    } else {
        0
    }
}

/// Computes the blank columns before the first section.
fn lead_exec(w: u16, ws: &Vec<u16>, flex: Flex, sp: u16) -> (l: u16)
    ensures
        l as int == lead_of(w as int, ws@, flex, sp as int),
{
    match flex {
        Flex::Start => 0,
        Flex::SpaceBetween => 0,
        Flex::RatioEqual => 0,
        Flex::End => {
            let t = sat_total_exec(ws, sp);
            if t <= w as u32 {
                w - (t as u16)
            } else {
                0
            }
        },
        Flex::Center => {
            let t = sat_total_exec(ws, sp);
            if t <= w as u32 {
                (w - (t as u16)) / 2
            } else {
                0
            }
        },
        Flex::SpaceAround => {
            let free = free_exec(w, ws);
            let (q, r) = div_free(free as u32, ws.len());
            let l: u32 = q + (r + 1) / 2;
            proof {
                lemma_lead_bounds(w as int, ws@, flex, sp as int);
            }
            l as u16
        },
    }
}

/// Computes the blank columns between section `i` and section `i + 1`.
fn gap_exec(w: u16, ws: &Vec<u16>, flex: Flex, sp: u16, i: usize) -> (g: u16)
    ensures
        g as int == gap_of(w as int, ws@, flex, sp as int, i as int),
{
    match flex {
        Flex::Start => sp,
        Flex::End => sp,
        Flex::Center => sp,
        Flex::RatioEqual => 0,
        Flex::SpaceBetween => {
            if ws.len() >= 2 {
                let free = free_exec(w, ws);
                let (q, r) = div_free(free as u32, ws.len() - 2);
                if (i as u64) < (r as u64) {
                    proof {
                        lemma_div_le_self(free as int, ws@.len() - 1);
                    }
                    (q + 1) as u16
                } else {
                    q as u16
                }
            } else {
                0
            }
        },
        Flex::SpaceAround => {
            let free = free_exec(w, ws);
            let (q, _) = div_free(free as u32, ws.len());
            proof {
                lemma_div_le_self(free as int, ws@.len() as int + 1);
            }
            q as u16
        },
    }
}

/// Computes the width the strategy grants section `i` before clamping.
fn eff_exec(w: u16, ws: &Vec<u16>, flex: Flex, i: usize) -> (e: u16)
    requires
        i < ws@.len(),
    ensures
        e as int == eff_width(w as int, ws@, flex, i as int),
{
    match flex {
        Flex::RatioEqual => {
            let (q, r) = div_free(w as u32, ws.len() - 1);
            if (i as u64) < (r as u64) {
                proof {
                    lemma_div_le_self(w as int, ws@.len() as int);
                    assert(r as int >= 1);
                }
                (q + 1) as u16
            } else {
                q as u16
            }
        },
        _ => ws[i],
    }
}

/// Maps `N` section widths and a bounding rectangle to `N` sub-rectangles,
/// one per section, ordered left to right: section `i` receives the slot
/// whose left edge and width [`off_of`] and [`slot_width`] give.  A section
/// that no longer fits is pushed to the right edge with an empty slot, so
/// that it is omitted from rendering rather than partially drawn over a
/// neighbour.
pub fn compute_layout(area: Rect, widths: &Vec<u16>, flex: Flex, spacing: u16) -> (rects: Vec<
    Rect,
>)
    requires
        area.wf(),
    ensures
        rects@.len() == widths@.len(),
        forall|i: int|
            0 <= i < widths@.len() ==> {
                &&& (#[trigger] rects@[i]).x as int == area.x + off_of(
                    area.width as int,
                    widths@,
                    flex,
                    spacing as int,
                    i,
                )
                &&& rects@[i].y == area.y
                &&& rects@[i].width as int == slot_width(
                    area.width as int,
                    widths@,
                    flex,
                    spacing as int,
                    i,
                )
                &&& rects@[i].height == 1
            },
{
    let n = widths.len();
    let w = area.width;
    let lead = lead_exec(w, widths, flex, spacing);
    let mut off: u16 = if lead <= w {
        lead
    } else {
        w
    };
    let mut rects: Vec<Rect> = Vec::new();
    let mut i: usize = 0;
    while i < n
        invariant
            i <= n,
            n == widths@.len(),
            area.wf(),
            w == area.width,
            off as int == off_of(w as int, widths@, flex, spacing as int, i as int),
            off <= w,
            rects@.len() == i,
            forall|k: int|
                0 <= k < i ==> {
                    &&& (#[trigger] rects@[k]).x as int == area.x + off_of(
                        w as int,
                        widths@,
                        flex,
                        spacing as int,
                        k,
                    )
                    &&& rects@[k].y == area.y
                    &&& rects@[k].width as int == slot_width(
                        w as int,
                        widths@,
                        flex,
                        spacing as int,
                        k,
                    )
                    &&& rects@[k].height == 1
                },
        decreases n - i,
    {
        let eff = eff_exec(w, widths, flex, i);
        let slot: u16 = if eff <= w - off {
            eff
        } else {
            w - off
        };
        rects.push(Rect { x: area.x + off, y: area.y, width: slot, height: 1 });
        let g = gap_exec(w, widths, flex, spacing, i);
        let nxt: u32 = off as u32 + eff as u32 + g as u32;
        off = if nxt <= w as u32 {
            nxt as u16
        } else {
            w
        };
        i += 1;
    }
    rects
}

} // verus!
