use vstd::prelude::*;
use crate::error::GameError;
use crate::tile::Tile;

verus! {

/// The contents of a grid of `w` columns and `h` rows whose every cell is `t`.
pub open spec fn filled(w: nat, h: nat, t: Tile) -> Seq<Seq<Tile>> {
    Seq::new(h, |r: int| Seq::new(w, |c: int| t))
}

/// The contents `g` with the cell in column `col` of row `row` replaced by `t`.
pub open spec fn stamp(g: Seq<Seq<Tile>>, col: int, row: int, t: Tile) -> Seq<Seq<Tile>>
    recommends
        0 <= row < g.len(),
        0 <= col < g[row].len(),
{
    g.update(row, g[row].update(col, t))
}

/// A rectangle of tiles, stored row by row. Its dimensions are fixed when it
/// is made and every cell always holds a tile.
#[derive(Clone, Debug, PartialEq, Eq)]
pub struct Grid {
    width: usize,
    height: usize,
    cells: Vec<Vec<Tile>>,
}

impl View for Grid {
    type V = Seq<Seq<Tile>>;

    /// The rows from top to bottom, each from left to right.
    closed spec fn view(&self) -> Seq<Seq<Tile>> {
        Seq::new(self.cells.len() as nat, |r: int| self.cells[r]@)
    }
}

impl Grid {
    /// The number of columns.
    pub closed spec fn spec_width(&self) -> nat {
        self.width as nat
    }

    /// The number of rows.
    pub closed spec fn spec_height(&self) -> nat {
        self.height as nat
    }

    /// The grid is a non-empty rectangle.
    pub open spec fn wf(&self) -> bool {
        &&& self.spec_width() > 0
        &&& self.spec_height() > 0
        &&& self@.len() == self.spec_height()
        &&& forall|r: int| 0 <= r < self@.len() ==> (#[trigger] self@[r]).len() == self.spec_width()
    }

    /// What well-formedness says of the stored rows.
    proof fn lemma_rows(&self)
        requires
            self.wf(),
        ensures
            self.cells.len() == self.height,
            forall|i: int| 0 <= i < self.height ==> (#[trigger] self.cells[i]).len() == self.width,
            forall|i: int| 0 <= i < self.height ==> (#[trigger] self.cells[i])@ == self@[i],
    {
        assert forall|i: int| 0 <= i < self.height implies (#[trigger] self.cells[i]).len()
            == self.width && self.cells[i]@ == self@[i] by {
            assert(self@[i].len() == self.spec_width());
        }
    }

    /// Whether column `col` of row `row` is a cell of the grid.
    pub open spec fn contains(&self, col: int, row: int) -> bool {
        0 <= col < self.spec_width() && 0 <= row < self.spec_height()
    }

    /// A grid of `tiles_x` columns and `tiles_y` rows, every cell `default_tile`.
    ///
    /// Fails with `InvalidDimension` exactly when either count is zero.
    pub fn new(tiles_x: usize, tiles_y: usize, default_tile: Tile) -> (res: Result<Grid, GameError>)
        ensures
            (tiles_x == 0 || tiles_y == 0) <==> res is Err,
            res matches Err(e) ==> e == GameError::InvalidDimension,
            res matches Ok(g) ==> {
                &&& g.wf()
                &&& g.spec_width() == tiles_x
                &&& g.spec_height() == tiles_y
                &&& g@ == filled(tiles_x as nat, tiles_y as nat, default_tile)
            },
    {
        if tiles_x == 0 || tiles_y == 0 {
            return Err(GameError::InvalidDimension);
        }
        let mut cells: Vec<Vec<Tile>> = Vec::new();
        let mut r: usize = 0;
        while r < tiles_y
            invariant
                r <= tiles_y,
                cells.len() == r,
                forall|i: int| 0 <= i < r ==> (#[trigger] cells[i]).len() == tiles_x,
                forall|i: int, j: int|
                    0 <= i < r && 0 <= j < tiles_x ==> (#[trigger] cells[i][j]) == default_tile,
            decreases tiles_y - r,
        {
            let mut row: Vec<Tile> = Vec::new();
            let mut c: usize = 0;
            while c < tiles_x
                invariant
                    c <= tiles_x,
                    row.len() == c,
                    forall|j: int| 0 <= j < c ==> (#[trigger] row[j]) == default_tile,
                decreases tiles_x - c,
            {
                row.push(default_tile);
                c += 1;
            }
            cells.push(row);
            r += 1;
        }
        let g = Grid { width: tiles_x, height: tiles_y, cells };
        assert(g@ =~~= filled(tiles_x as nat, tiles_y as nat, default_tile));
        Ok(g)
    }

    /// The number of columns.
    pub fn width(&self) -> (res: usize)
        ensures
            res == self.spec_width(),
    {
        self.width
    }

    /// The number of rows.
    pub fn height(&self) -> (res: usize)
        ensures
            res == self.spec_height(),
    {
        self.height
    }

    /// Overwrites every cell with `default_tile`, whatever it held before.
    pub fn reset(&mut self, default_tile: Tile)
        requires
            old(self).wf(),
        ensures
            final(self).wf(),
            final(self).spec_width() == old(self).spec_width(),
            final(self).spec_height() == old(self).spec_height(),
            final(self)@ == filled(old(self).spec_width(), old(self).spec_height(), default_tile),
    {
        let ghost w = self.width;
        let ghost h = self.height;
        proof {
            self.lemma_rows();
        }
        let mut r: usize = 0;
        while r < self.height
            invariant
                self.width == w,
                self.height == h,
                r <= h,
                self.cells.len() == h,
                forall|i: int| 0 <= i < h ==> (#[trigger] self.cells[i]).len() == w,
                forall|i: int, j: int|
                    0 <= i < r && 0 <= j < w ==> (#[trigger] self.cells[i][j]) == default_tile,
            decreases h - r,
        {
            let mut c: usize = 0;
            while c < self.width
                invariant
                    self.width == w,
                    self.height == h,
                    r < h,
                    c <= w,
                    self.cells.len() == h,
                    forall|i: int| 0 <= i < h ==> (#[trigger] self.cells[i]).len() == w,
                    forall|i: int, j: int|
                        0 <= i < r && 0 <= j < w ==> (#[trigger] self.cells[i][j]) == default_tile,
                    forall|j: int| 0 <= j < c ==> (#[trigger] self.cells[r as int][j]) == default_tile,
                decreases w - c,
            {
                self.cells[r][c] = default_tile;
                c += 1;
            }
            r += 1;
        }
        assert(self@ =~~= filled(w as nat, h as nat, default_tile));
    }

    /// Writes `tile` into column `col` of row `row`; no other cell changes.
    pub fn set(&mut self, col: usize, row: usize, tile: Tile)
        requires
            old(self).wf(),
            old(self).contains(col as int, row as int),
        ensures
            final(self).wf(),
            final(self).spec_width() == old(self).spec_width(),
            final(self).spec_height() == old(self).spec_height(),
            final(self)@ == stamp(old(self)@, col as int, row as int, tile),
    {
        proof {
            self.lemma_rows();
        }
        self.cells[row][col] = tile;
        assert(self@ =~~= stamp(old(self)@, col as int, row as int, tile));
    }

    /// The tile in column `col` of row `row`.
    pub fn get(&self, col: usize, row: usize) -> (res: Tile)
        requires
            self.wf(),
            self.contains(col as int, row as int),
        ensures
            res == self@[row as int][col as int],
    {
        proof {
            self.lemma_rows();
        }
        self.cells[row][col]
    }

    /// The tile in column `col` of row `row`, or `None` where the grid has no
    /// such cell.
    pub fn try_get(&self, col: usize, row: usize) -> (res: Option<Tile>)
        requires
            self.wf(),
        ensures
            res == (if self.contains(col as int, row as int) {
                Some(self@[row as int][col as int])
            } else {
                None
            }),
    {
        if col < self.width && row < self.height {
            Some(self.get(col, row))
        } else {
            None
        }
    }

    /// The rows from top to bottom, each from left to right.
    pub fn rows(&self) -> (res: &Vec<Vec<Tile>>)
        requires
            self.wf(),
        ensures
            res.len() == self.spec_height(),
            forall|r: int| 0 <= r < res.len() ==> (#[trigger] res[r])@ == self@[r],
    {
        proof {
            self.lemma_rows();
        }
        &self.cells
    }
}

/// A filled grid is a rectangle whose every cell holds the tile.
pub proof fn lemma_filled_cells(w: nat, h: nat, t: Tile)
    ensures
        filled(w, h, t).len() == h,
        forall|r: int| 0 <= r < h ==> (#[trigger] filled(w, h, t)[r]).len() == w,
        forall|r: int, c: int| 0 <= r < h && 0 <= c < w ==> (#[trigger] filled(w, h, t)[r][c]) == t,
{
}

} // verus!
