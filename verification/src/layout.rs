use vstd::prelude::*;
use crate::error::GameError;

verus! {

/// Where the grid sits when the window is not a whole number of cells.
#[derive(Clone, Copy, Debug, PartialEq, Eq, Structural)]
pub enum Placement {
    /// The first cell is drawn at the raw remainder `window mod tile_size`.
    Flush,
    /// The first cell is drawn at half the remainder, so the grid is centred.
    Centered,
}

impl Placement {
    /// The placement used when none is chosen: centred.
    pub fn default_choice() -> (res: Placement)
        ensures
            res == Placement::Centered,
    {
        Placement::Centered
    }
}

/// The pixel offset of the first cell along one axis.
pub open spec fn offset_of(window: int, tile_size: int, placement: Placement) -> int
    recommends
        window >= 0,
        tile_size > 0,
{
    match placement {
        Placement::Flush => window % tile_size,
        Placement::Centered => (window % tile_size) / 2,
    }
}

/// On which inputs a layout exists.
pub open spec fn layout_inputs_valid(window_x: int, window_y: int, tile_size: int) -> bool {
    tile_size > 0 && window_x >= 0 && window_y >= 0
}

/// Pixel geometry derived once from the window size and the cell size.
#[derive(Clone, Copy, Debug, PartialEq, Eq)]
pub struct Layout {
    window_x: i32,
    window_y: i32,
    tile_size: i32,
    tiles_x: usize,
    tiles_y: usize,
    x_offset: i32,
    y_offset: i32,
    placement: Placement,
}

impl Layout {
    pub closed spec fn spec_window_x(&self) -> int {
        self.window_x as int
    }

    pub closed spec fn spec_window_y(&self) -> int {
        self.window_y as int
    }

    pub closed spec fn spec_tile_size(&self) -> int {
        self.tile_size as int
    }

    pub closed spec fn spec_tiles_x(&self) -> int {
        self.tiles_x as int
    }

    pub closed spec fn spec_tiles_y(&self) -> int {
        self.tiles_y as int
    }

    pub closed spec fn spec_x_offset(&self) -> int {
        self.x_offset as int
    }

    pub closed spec fn spec_y_offset(&self) -> int {
        self.y_offset as int
    }

    pub closed spec fn spec_placement(&self) -> Placement {
        self.placement
    }

    /// The layout is the one derived from its window size, cell size and
    /// placement.
    pub open spec fn wf(&self) -> bool {
        &&& layout_inputs_valid(self.spec_window_x(), self.spec_window_y(), self.spec_tile_size())
        &&& self.spec_window_x() <= i32::MAX
        &&& self.spec_window_y() <= i32::MAX
        &&& self.spec_tiles_x() == self.spec_window_x() / self.spec_tile_size()
        &&& self.spec_tiles_y() == self.spec_window_y() / self.spec_tile_size()
        &&& self.spec_x_offset() == offset_of(
            self.spec_window_x(),
            self.spec_tile_size(),
            self.spec_placement(),
        )
        &&& self.spec_y_offset() == offset_of(
            self.spec_window_y(),
            self.spec_tile_size(),
            self.spec_placement(),
        )
    }

    /// Derives the grid's cell counts and the first cell's pixel offset.
    ///
    /// Fails with `Configuration` exactly when the cell size is not positive
    /// or a window dimension is negative.
    pub fn compute(window_x: i32, window_y: i32, tile_size: i32, placement: Placement) -> (res:
        Result<Layout, GameError>)
        ensures
            layout_inputs_valid(window_x as int, window_y as int, tile_size as int)
                <==> res is Ok,
            res matches Err(e) ==> e == GameError::Configuration,
            res matches Ok(l) ==> {
                &&& l.wf()
                &&& l.spec_window_x() == window_x
                &&& l.spec_window_y() == window_y
                &&& l.spec_tile_size() == tile_size
                &&& l.spec_placement() == placement
                &&& l.spec_tiles_x() * tile_size <= window_x
                &&& l.spec_tiles_y() * tile_size <= window_y
                &&& l.spec_tiles_x() * tile_size + l.spec_x_offset() <= window_x
                &&& l.spec_tiles_y() * tile_size + l.spec_y_offset() <= window_y
            },
    {
        if tile_size <= 0 || window_x < 0 || window_y < 0 {
            return Err(GameError::Configuration);
        }
        let rem_x: i32 = window_x % tile_size;
        let rem_y: i32 = window_y % tile_size;
        let (x_offset, y_offset) = match placement {
            Placement::Flush => (rem_x, rem_y),
            Placement::Centered => (rem_x / 2, rem_y / 2),
        };
        let l = Layout {
            window_x,
            window_y,
            tile_size,
            tiles_x: (window_x / tile_size) as usize,
            tiles_y: (window_y / tile_size) as usize,
            x_offset,
            y_offset,
            placement,
        };
        proof {
            lemma_grid_fits(window_x as int, tile_size as int, placement);
            lemma_grid_fits(window_y as int, tile_size as int, placement);
        }
        Ok(l)
    }

    /// A layout with the centred placement.
    pub fn centered(window_x: i32, window_y: i32, tile_size: i32) -> (res: Result<Layout, GameError>)
        ensures
            layout_inputs_valid(window_x as int, window_y as int, tile_size as int)
                <==> res is Ok,
            res matches Err(e) ==> e == GameError::Configuration,
            res matches Ok(l) ==> {
                &&& l.wf()
                &&& l.spec_window_x() == window_x
                &&& l.spec_window_y() == window_y
                &&& l.spec_tile_size() == tile_size
                &&& l.spec_placement() == Placement::Centered
            },
    {
        Layout::compute(window_x, window_y, tile_size, Placement::Centered)
    }

    pub fn window_x(&self) -> (res: i32)
        ensures
            res == self.spec_window_x(),
    {
        self.window_x
    }

    pub fn window_y(&self) -> (res: i32)
        ensures
            res == self.spec_window_y(),
    {
        self.window_y
    }

    pub fn tile_size(&self) -> (res: i32)
        ensures
            res == self.spec_tile_size(),
    {
        self.tile_size
    }

    pub fn tiles_x(&self) -> (res: usize)
        ensures
            res == self.spec_tiles_x(),
    {
        self.tiles_x
    }

    pub fn tiles_y(&self) -> (res: usize)
        ensures
            res == self.spec_tiles_y(),
    {
        self.tiles_y
    }

    pub fn x_offset(&self) -> (res: i32)
        ensures
            res == self.spec_x_offset(),
    {
        self.x_offset
    }

    pub fn y_offset(&self) -> (res: i32)
        ensures
            res == self.spec_y_offset(),
    {
        self.y_offset
    }

    pub fn placement(&self) -> (res: Placement)
        ensures
            res == self.spec_placement(),
    {
        self.placement
    }

    /// The grid cell at the middle of the layout, where the player starts.
    pub fn center(&self) -> (res: (i32, i32))
        requires
            self.wf(),
        ensures
            res.0 == self.spec_tiles_x() / 2,
            res.1 == self.spec_tiles_y() / 2,
    {
        proof {
            lemma_grid_fits(self.spec_window_x(), self.spec_tile_size(), self.spec_placement());
            lemma_grid_fits(self.spec_window_y(), self.spec_tile_size(), self.spec_placement());
        }
        ((self.tiles_x / 2) as i32, (self.tiles_y / 2) as i32)
    }
}

/// Along one axis the cells, and the cells together with the offset, fit in
/// the window; the cell count and the offset are never negative.
pub proof fn lemma_grid_fits(window: int, tile_size: int, placement: Placement)
    requires
        window >= 0,
        tile_size > 0,
    ensures
        0 <= window / tile_size <= window,
        (window / tile_size) * tile_size <= window,
        0 <= offset_of(window, tile_size, placement) < tile_size,
        (window / tile_size) * tile_size + offset_of(window, tile_size, placement) <= window,
        placement == Placement::Flush ==> (window / tile_size) * tile_size + offset_of(
            window,
            tile_size,
            placement,
        ) == window,
{
    assert(window == (window / tile_size) * tile_size + window % tile_size && 0 <= window
        % tile_size < tile_size && 0 <= window / tile_size <= window) by (nonlinear_arith)
        requires
            window >= 0,
            tile_size > 0,
    ;
}

/// A layout's grid fits in its window, with and without the offset.
pub proof fn lemma_layout_fits(l: Layout)
    requires
        l.wf(),
    ensures
        0 <= l.spec_tiles_x() <= i32::MAX,
        0 <= l.spec_tiles_y() <= i32::MAX,
        l.spec_tiles_x() * l.spec_tile_size() <= l.spec_window_x(),
        l.spec_tiles_y() * l.spec_tile_size() <= l.spec_window_y(),
        0 <= l.spec_x_offset() < l.spec_tile_size(),
        0 <= l.spec_y_offset() < l.spec_tile_size(),
        l.spec_tiles_x() * l.spec_tile_size() + l.spec_x_offset() <= l.spec_window_x(),
        l.spec_tiles_y() * l.spec_tile_size() + l.spec_y_offset() <= l.spec_window_y(),
{
    lemma_grid_fits(l.spec_window_x(), l.spec_tile_size(), l.spec_placement());
    lemma_grid_fits(l.spec_window_y(), l.spec_tile_size(), l.spec_placement());
}

} // verus!
