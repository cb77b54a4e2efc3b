use vstd::prelude::*;
use crate::grid::Grid;
use crate::layout::lemma_layout_fits;
use crate::layout::Layout;
use crate::tile::Color;
use crate::tile::Tile;

verus! {

/// How far right of a cell's corner its glyph is drawn, in pixels.
pub const TEXT_INSET_X: i64 = 5;

/// How far below a cell's corner its glyph is drawn, in pixels.
pub const TEXT_INSET_Y: i64 = 3;

/// One paint operation for the rendering surface, in pixel coordinates.
#[derive(Clone, Copy, Debug, PartialEq, Eq, Structural)]
pub enum DrawOp {
    /// Fill the square of side `size` whose top left corner is `(x, y)`.
    Rect { x: i64, y: i64, size: i32, color: Color },
    /// Draw `symbol` at `(x, y)` with font size `size`.
    Glyph { x: i64, y: i64, size: i32, symbol: char, color: Color },
}

/// The pixel column at which the cells of grid column `col` start.
pub open spec fn cell_x(layout: Layout, col: int) -> int {
    layout.spec_x_offset() + col * layout.spec_tile_size()
}

/// The pixel row at which the cells of grid row `row` start.
pub open spec fn cell_y(layout: Layout, row: int) -> int {
    layout.spec_y_offset() + row * layout.spec_tile_size()
}

/// The background of the cell in column `col` of row `row`.
pub open spec fn rect_op(layout: Layout, t: Tile, col: int, row: int) -> DrawOp {
    DrawOp::Rect {
        x: cell_x(layout, col) as i64,
        y: cell_y(layout, row) as i64,
        size: layout.spec_tile_size() as i32,
        color: t.bg_color,
    }
}

/// The glyph of the cell in column `col` of row `row`.
pub open spec fn glyph_op(layout: Layout, t: Tile, col: int, row: int) -> DrawOp {
    DrawOp::Glyph {
        x: (cell_x(layout, col) + TEXT_INSET_X) as i64,
        y: (cell_y(layout, row) + TEXT_INSET_Y) as i64,
        size: layout.spec_tile_size() as i32,
        symbol: t.symbol,
        color: t.fg_color,
    }
}

/// The operations for the first `n` cells of row `row`, left to right: for
/// each cell its background, then its glyph.
pub open spec fn row_ops(layout: Layout, tiles: Seq<Tile>, row: int, n: int) -> Seq<DrawOp>
    recommends
        0 <= n <= tiles.len(),
    decreases n,
{
    if n <= 0 {
        Seq::empty()
    } else {
        row_ops(layout, tiles, row, n - 1).push(rect_op(layout, tiles[n - 1], n - 1, row)).push(
            glyph_op(layout, tiles[n - 1], n - 1, row),
        )
    }
}

/// The operations for the first `n` rows of `g`, top to bottom.
pub open spec fn grid_ops(layout: Layout, g: Seq<Seq<Tile>>, n: int) -> Seq<DrawOp>
    recommends
        0 <= n <= g.len(),
    decreases n,
{
    if n <= 0 {
        Seq::empty()
    } else {
        grid_ops(layout, g, n - 1) + row_ops(layout, g[n - 1], n - 1, g[n - 1].len() as int)
    }
}

/// The paint operations that show `grid` in the window of `layout`, row by
/// row from the top, each row from the left: a cell's background at the
/// cursor, then its glyph at the cursor plus the text inset. The cursor
/// starts at the layout's offset and advances by the cell size.
///
/// `layout` must be the one the grid was made for.
pub fn draw(grid: &Grid, layout: &Layout) -> (ops: Vec<DrawOp>)
    requires
        grid.wf(),
        layout.wf(),
        grid.spec_width() == layout.spec_tiles_x(),
        grid.spec_height() == layout.spec_tiles_y(),
    ensures
        ops@ == grid_ops(*layout, grid@, grid@.len() as int),
{
    let rows = grid.rows();
    let size: i32 = layout.tile_size();
    let x0: i64 = layout.x_offset() as i64;
    let step: i64 = size as i64;
    let mut ops: Vec<DrawOp> = Vec::new();
    let mut cursor_x: i64 = x0;
    let mut cursor_y: i64 = layout.y_offset() as i64;
    let mut r: usize = 0;
    proof {
        lemma_layout_fits(*layout);
    }
    while r < rows.len()
        invariant
            layout.wf(),
            r <= rows.len(),
            rows.len() == grid@.len(),
            rows.len() == layout.spec_tiles_y(),
            forall|i: int| 0 <= i < rows.len() ==> (#[trigger] rows[i])@ == grid@[i],
            forall|i: int| 0 <= i < rows.len() ==> (#[trigger] grid@[i]).len() == layout.spec_tiles_x(),
            size == layout.spec_tile_size(),
            step == size,
            x0 == layout.spec_x_offset(),
            cursor_x == x0,
            cursor_y == cell_y(*layout, r as int),
            ops@ == grid_ops(*layout, grid@, r as int),
        decreases rows.len() - r,
    {
        let row = &rows[r];
        let ghost before = ops@;
        let mut c: usize = 0;
        proof {
            lemma_layout_fits(*layout);
            lemma_cursor_fits(r as int, layout.spec_tiles_y(), layout.spec_tile_size());
            assert(row@ == grid@[r as int]);
            assert(grid@[r as int].len() == layout.spec_tiles_x());
        }
        while c < row.len()
            invariant
                layout.wf(),
                c <= row.len(),
                row.len() == layout.spec_tiles_x(),
                r < layout.spec_tiles_y(),
                size == layout.spec_tile_size(),
                step == size,
                x0 == layout.spec_x_offset(),
                cursor_x == cell_x(*layout, c as int),
                cursor_y == cell_y(*layout, r as int),
                0 <= cursor_y <= i32::MAX,
                ops@ == before + row_ops(*layout, row@, r as int, c as int),
            decreases row.len() - c,
        {
            let tile = row[c];
            proof {
                lemma_layout_fits(*layout);
                lemma_cursor_fits(c as int, layout.spec_tiles_x(), layout.spec_tile_size());
            }
            ops.push(DrawOp::Rect { x: cursor_x, y: cursor_y, size, color: tile.bg_color });
            ops.push(
                DrawOp::Glyph {
                    x: cursor_x + TEXT_INSET_X,
                    y: cursor_y + TEXT_INSET_Y,
                    size,
                    symbol: tile.symbol,
                    color: tile.fg_color,
                },
            );
            cursor_x = cursor_x + step;
            c += 1;
            assert(ops@ =~= before + row_ops(*layout, row@, r as int, c as int));
        }
        cursor_y = cursor_y + step;
        cursor_x = x0;
        r += 1;
    }
    ops
}

/// The pixel distance of cell `i` from the first cell, and of the cell after
/// it, when `n` cells of `size` pixels fit a window.
proof fn lemma_cursor_fits(i: int, n: int, size: int)
    requires
        0 <= i < n,
        0 < size,
        n * size <= i32::MAX,
    ensures
        0 <= i * size,
        (i + 1) * size == i * size + size,
        (i + 1) * size <= n * size,
{
    assert(0 <= i * size && (i + 1) * size == i * size + size && (i + 1) * size <= n * size)
        by (nonlinear_arith)
        requires
            0 <= i < n,
            0 < size,
    ;
}

/// Every cell gives two operations.
pub proof fn lemma_row_ops_len(layout: Layout, tiles: Seq<Tile>, row: int, n: int)
    requires
        0 <= n,
    ensures
        row_ops(layout, tiles, row, n).len() == 2 * n,
    decreases n,
{
    if n > 0 {
        lemma_row_ops_len(layout, tiles, row, n - 1);
    }
}

/// The operations of a cell stand at twice its column, in its row's part:
/// first the background, then the glyph.
pub proof fn lemma_row_ops_index(layout: Layout, tiles: Seq<Tile>, row: int, n: int, col: int)
    requires
        0 <= col < n,
    ensures
        row_ops(layout, tiles, row, n).len() == 2 * n,
        row_ops(layout, tiles, row, n)[2 * col] == rect_op(layout, tiles[col], col, row),
        row_ops(layout, tiles, row, n)[2 * col + 1] == glyph_op(layout, tiles[col], col, row),
    decreases n,
{
    lemma_row_ops_len(layout, tiles, row, n - 1);
    if col < n - 1 {
        lemma_row_ops_index(layout, tiles, row, n - 1, col);
    }
}

/// A grid of `n` rows of `w` cells gives two operations for every cell.
pub proof fn lemma_grid_ops_len(layout: Layout, g: Seq<Seq<Tile>>, w: nat, n: int)
    requires
        0 <= n <= g.len(),
        forall|r: int| 0 <= r < n ==> (#[trigger] g[r]).len() == w,
    ensures
        grid_ops(layout, g, n).len() == 2 * (n * w),
    decreases n,
{
    if n > 0 {
        lemma_grid_ops_len(layout, g, w, n - 1);
        lemma_row_ops_len(layout, g[n - 1], n - 1, w as int);
        assert(n * w == (n - 1) * w + w) by (nonlinear_arith);
    } else {
        assert(n * w == 0) by (nonlinear_arith)
            requires
                n == 0,
        ;
    }
}

/// The grid is walked row by row from the top and each row from the left:
/// the operations of the cell in column `col` of row `row` stand at twice
/// the number of cells before it, first the background, then the glyph.
pub proof fn lemma_grid_ops_index(layout: Layout, g: Seq<Seq<Tile>>, w: nat, n: int, col: int, row: int)
    requires
        0 <= n <= g.len(),
        forall|r: int| 0 <= r < n ==> (#[trigger] g[r]).len() == w,
        0 <= row < n,
        0 <= col < w,
    ensures
        grid_ops(layout, g, n).len() == 2 * (n * w),
        0 <= 2 * (row * w + col) < 2 * (row * w + col) + 1 < 2 * (n * w),
        grid_ops(layout, g, n)[2 * (row * w + col)] == rect_op(layout, g[row][col], col, row),
        grid_ops(layout, g, n)[2 * (row * w + col) + 1] == glyph_op(layout, g[row][col], col, row),
    decreases n,
{
    lemma_grid_ops_len(layout, g, w, n);
    lemma_grid_ops_len(layout, g, w, n - 1);
    let prev = grid_ops(layout, g, n - 1);
    let last = row_ops(layout, g[n - 1], n - 1, w as int);
    assert(grid_ops(layout, g, n) == prev + last);
    assert(n * w == (n - 1) * w + w) by (nonlinear_arith);
    assert(0 <= row * w && (row < n - 1 ==> row * w + w <= (n - 1) * w)) by (nonlinear_arith)
        requires
            0 <= row < n,
            0 <= w,
    ;
    if row < n - 1 {
        lemma_grid_ops_index(layout, g, w, n - 1, col, row);
    } else {
        lemma_row_ops_index(layout, g[n - 1], n - 1, w as int, col);
        assert((prev + last)[2 * (row * w + col)] == last[2 * col]);
        assert((prev + last)[2 * (row * w + col) + 1] == last[2 * col + 1]);
    }
}

} // verus!
