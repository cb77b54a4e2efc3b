use vstd::prelude::*;
use crate::layout::Layout;
use crate::tile::Tile;

verus! {

/// What happens when a step would leave the grid.
#[derive(Clone, Copy, Debug, PartialEq, Eq, Structural)]
pub enum BoundsPolicy {
    /// The position is held inside the grid, axis by axis.
    Clamped,
    /// The position is updated unconditionally. An entity moved this way may
    /// leave the grid: the caller has to make sure it has not before it stamps
    /// its tile.
    Unclamped,
}

/// A movable occupant of the grid: a cell position and the tile it is
/// painted with.
#[derive(Clone, Copy, Debug, PartialEq, Eq, Structural)]
pub struct Entity {
    pub tile: Tile,
    pub x: i32,
    pub y: i32,
}

/// `v` held inside `0 ..= n - 1`.
pub open spec fn clamp_axis(v: int, n: int) -> int
    recommends
        n >= 1,
{
    if v < 0 {
        0
    } else if v > n - 1 {
        n - 1
    } else {
        v
    }
}

/// The coordinate reached from `p` by the step `d` on an axis of `n` cells.
pub open spec fn moved_axis(p: int, d: int, n: int, policy: BoundsPolicy) -> int {
    match policy {
        BoundsPolicy::Clamped => clamp_axis(p + d, n),
        BoundsPolicy::Unclamped => p + d,
    }
}

/// A step of at most one cell along exactly one axis.
pub open spec fn is_cardinal_step(d: (int, int)) -> bool {
    ||| (d.0 == 0 && (d.1 == 1 || d.1 == -1))
    ||| (d.1 == 0 && (d.0 == 1 || d.0 == -1))
}

/// Where a walk ends that starts at `start` and takes the steps `deltas` in
/// order under the clamped policy, on a grid of `tiles_x` by `tiles_y` cells.
pub open spec fn walk_clamped(start: (int, int), deltas: Seq<(int, int)>, tiles_x: int, tiles_y: int) -> (
    int,
    int,
)
    decreases deltas.len(),
{
    if deltas.len() == 0 {
        start
    } else {
        let before = walk_clamped(start, deltas.drop_last(), tiles_x, tiles_y);
        let d = deltas.last();
        (
            moved_axis(before.0, d.0, tiles_x, BoundsPolicy::Clamped),
            moved_axis(before.1, d.1, tiles_y, BoundsPolicy::Clamped),
        )
    }
}

/// The coordinate reached from `p` by the step `d` on an axis of `n` cells.
pub fn step_axis(p: i32, d: i32, n: i32, policy: BoundsPolicy) -> (res: i64)
    requires
        policy == BoundsPolicy::Clamped ==> n >= 1,
    ensures
        res == moved_axis(p as int, d as int, n as int, policy),
{
    let v: i64 = p as i64 + d as i64;
    match policy {
        BoundsPolicy::Unclamped => v,
        BoundsPolicy::Clamped => {
            if v < 0 {
                0
            } else if v > n as i64 - 1 {
                n as i64 - 1
            } else {
                v
            }
        },
    }
}

/// Moves `entity` by one step `(delta_x, delta_y)` on a grid of `tiles_x` by
/// `tiles_y` cells. The tile's passability is not consulted.
///
/// Under the clamped policy the grid must have a cell to stand on. Under the
/// unclamped policy the new coordinates must be representable.
pub fn apply_move(
    entity: &mut Entity,
    delta_x: i32,
    delta_y: i32,
    policy: BoundsPolicy,
    tiles_x: i32,
    tiles_y: i32,
)
    requires
        policy == BoundsPolicy::Clamped ==> tiles_x >= 1 && tiles_y >= 1,
        policy == BoundsPolicy::Unclamped ==> {
            &&& i32::MIN <= old(entity).x + delta_x <= i32::MAX
            &&& i32::MIN <= old(entity).y + delta_y <= i32::MAX
        },
    ensures
        final(entity).tile == old(entity).tile,
        final(entity).x == moved_axis(old(entity).x as int, delta_x as int, tiles_x as int, policy),
        final(entity).y == moved_axis(old(entity).y as int, delta_y as int, tiles_y as int, policy),
        policy == BoundsPolicy::Clamped ==> {
            &&& 0 <= final(entity).x < tiles_x
            &&& 0 <= final(entity).y < tiles_y
        },
{
    let nx: i64 = step_axis(entity.x, delta_x, tiles_x, policy);
    let ny: i64 = step_axis(entity.y, delta_y, tiles_y, policy);
    entity.x = nx as i32;
    entity.y = ny as i32;
}

impl Entity {
    pub fn new(tile: Tile, x: i32, y: i32) -> (res: Entity)
        ensures
            res == (Entity { tile, x, y }),
    {
        Entity { tile, x, y }
    }

    /// The player at the start of a game: the player's tile at the middle of
    /// the layout's grid.
    pub fn new_player(layout: &Layout) -> (res: Entity)
        requires
            layout.wf(),
        ensures
            res.tile == Tile::player_spec(),
            res.x == layout.spec_tiles_x() / 2,
            res.y == layout.spec_tiles_y() / 2,
    {
        let (x, y) = layout.center();
        Entity { tile: Tile::player(), x, y }
    }
}

/// One clamped step ends inside the grid, wherever it starts and whatever
/// the step is.
pub proof fn lemma_clamped_step_in_bounds(p: int, d: int, n: int)
    requires
        n >= 1,
    ensures
        0 <= moved_axis(p, d, n, BoundsPolicy::Clamped) < n,
{
}

/// A walk of cardinal steps under the clamped policy that starts inside the
/// grid ends inside the grid.
pub proof fn lemma_clamped_walk_in_bounds(
    start: (int, int),
    deltas: Seq<(int, int)>,
    tiles_x: int,
    tiles_y: int,
)
    requires
        0 <= start.0 < tiles_x,
        0 <= start.1 < tiles_y,
        forall|i: int| 0 <= i < deltas.len() ==> is_cardinal_step(#[trigger] deltas[i]),
    ensures
        0 <= walk_clamped(start, deltas, tiles_x, tiles_y).0 < tiles_x,
        0 <= walk_clamped(start, deltas, tiles_x, tiles_y).1 < tiles_y,
    decreases deltas.len(),
{
    if deltas.len() > 0 {
        let before = walk_clamped(start, deltas.drop_last(), tiles_x, tiles_y);
        lemma_clamped_step_in_bounds(before.0, deltas.last().0, tiles_x);
        lemma_clamped_step_in_bounds(before.1, deltas.last().1, tiles_y);
    }
}

} // verus!
