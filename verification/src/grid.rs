//! A character-cell grid that a status bar renders into.
//!
//! Each cell holds one character together with its visual attributes, and
//! the grid is addressed by column and row.  The grid stands in for the
//! host's drawing surface: the host copies its cells into whatever terminal
//! buffer it drives.

use vstd::prelude::*;
use crate::style::{plain, Style};

verus! {

/// One character cell: a symbol and its visual attributes.
#[derive(Clone, Copy, Debug, PartialEq, Eq)]
pub struct Cell {
    pub ch: char,
    pub style: Style,
}

/// The content of a fresh cell: a blank symbol with no attributes.
pub open spec fn blank_cell() -> Cell {
    Cell { ch: ' ', style: plain() }
}

/// A rectangular grid of character cells, row-major.
#[derive(Debug)]
pub struct Grid {
    pub width: u16,
    pub height: u16,
    pub rows: Vec<Vec<Cell>>,
}

impl Grid {
    /// Each of the `height` rows holds exactly `width` cells.
    pub open spec fn wf(self) -> bool {
        &&& self.rows@.len() == self.height as int
        &&& forall|y: int| 0 <= y < self.rows@.len() ==> (#[trigger] self.rows@[y])@.len()
            == self.width as int
    }

    /// The cells of the grid, row by row.
    pub open spec fn cells(self) -> Seq<Seq<Cell>> {
        Seq::new(self.rows@.len(), |y: int| self.rows@[y]@)
    }

    /// The characters of row `y`, left to right.
    pub open spec fn row_text(self, y: int) -> Seq<char> {
        Seq::new(self.rows@[y]@.len(), |x: int| self.rows@[y]@[x].ch)
    }

    /// Builds a grid of the given size with every cell blank.
    pub fn new(width: u16, height: u16) -> (g: Grid)
        ensures
            g.wf(),
            g.width == width,
            g.height == height,
            g.cells().len() == height as int,
            forall|y: int, x: int|
                0 <= y < height as int && 0 <= x < width as int ==> #[trigger] g.cells()[y][x]
                    == blank_cell(),
    {
        let mut rows: Vec<Vec<Cell>> = Vec::new();
        let mut y: u16 = 0;
        while y < height
            invariant
                y <= height,
                rows@.len() == y as int,
                forall|yy: int| 0 <= yy < y as int ==> (#[trigger] rows@[yy])@.len()
                    == width as int,
                forall|yy: int, x: int|
                    0 <= yy < y as int && 0 <= x < width as int ==> #[trigger] rows@[yy]@[x]
                        == blank_cell(),
            decreases height - y,
        {
            let mut row: Vec<Cell> = Vec::new();
            let mut x: u16 = 0;
            while x < width
                invariant
                    x <= width,
                    row@.len() == x as int,
                    forall|xx: int| 0 <= xx < x as int ==> row@[xx] == blank_cell(),
                decreases width - x,
            {
                row.push(Cell { ch: ' ', style: Style { fg: None, bg: None, bold: false } });
                x += 1;
            }
            rows.push(row);
            y += 1;
        }
        Grid { width, height, rows }
    }

    /// Reads the cell at column `x` of row `y`.
    pub fn get(&self, x: u16, y: u16) -> (c: Cell)
        requires
            self.wf(),
            x < self.width,
            y < self.height,
        ensures
            c == self.cells()[y as int][x as int],
    {
        self.rows[y as usize][x as usize]
    }

    /// Writes cell content `c` at column `x` of row `y`; every other cell
    /// keeps its content.
    pub fn set(&mut self, x: u16, y: u16, c: Cell)
        requires
            old(self).wf(),
            x < old(self).width,
            y < old(self).height,
        ensures
            final(self).wf(),
            final(self).width == old(self).width,
            final(self).height == old(self).height,
            final(self).cells()[y as int] == old(self).cells()[y as int].update(x as int, c),
            forall|yy: int|
                0 <= yy < final(self).cells().len() && yy != y as int
                    ==> #[trigger] final(self).cells()[yy] == old(self).cells()[yy],
            final(self).cells().len() == old(self).cells().len(),
    {
        let row: &mut Vec<Cell> = &mut self.rows[y as usize];
        row[x as usize] = c;
        proof {
            assert(self.cells()[y as int] =~= old(self).cells()[y as int].update(x as int, c));
            assert forall|yy: int|
                0 <= yy < self.cells().len() && yy != y as int implies #[trigger] self.cells()[yy]
                == old(self).cells()[yy] by {
                assert(self.rows@[yy] == old(self).rows@[yy]);
            }
        }
    }

    /// Returns the characters of row `y`, left to right.
    pub fn row_chars(&self, y: u16) -> (r: Vec<char>)
        requires
            self.wf(),
            y < self.height,
        ensures
            r@ == self.row_text(y as int),
    {
        let mut r: Vec<char> = Vec::new();
        let mut x: u16 = 0;
        while x < self.width
            invariant
                self.wf(),
                y < self.height,
                x <= self.width,
                r@.len() == x as int,
                forall|xx: int| 0 <= xx < x as int ==> r@[xx] == self.cells()[y as int][xx].ch,
            decreases self.width - x,
        {
            let c = self.get(x, y);
            r.push(c.ch);
            x += 1;
        }
        proof {
            assert(r@ =~= self.row_text(y as int));
        }
        r
    }
}

} // verus!
