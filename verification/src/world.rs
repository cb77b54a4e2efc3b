use vstd::prelude::*;
use crate::entity::moved_axis;
use crate::entity::step_axis;
use crate::entity::BoundsPolicy;
use crate::entity::Entity;
use crate::error::GameError;
use crate::grid::filled;
use crate::grid::stamp;
use crate::grid::Grid;
use crate::input::poll;
use crate::input::poll_spec;
use crate::input::InputFrame;
use crate::input::Trigger;
use crate::layout::lemma_layout_fits;
use crate::layout::Layout;
use crate::tile::Tile;

verus! {

/// Whether a step looks at the tile it would land on.
#[derive(Clone, Copy, Debug, PartialEq, Eq, Structural)]
pub enum Passability {
    /// The destination's tile is not consulted.
    Ignored,
    /// A step onto a cell of the grid whose tile is not passable is
    /// rejected: the position does not change.
    Enforced,
}

/// The choices that govern a world's tick.
#[derive(Clone, Copy, Debug, PartialEq, Eq, Structural)]
pub struct Rules {
    pub bounds: BoundsPolicy,
    pub trigger: Trigger,
    pub passability: Passability,
}

/// Whether `(x, y)` is a cell of a grid of `w` by `h` cells.
pub open spec fn in_grid(x: int, y: int, w: nat, h: nat) -> bool {
    0 <= x < w && 0 <= y < h
}

/// Whether every entity of `occs` stands on a cell of the grid.
pub open spec fn all_in_grid(occs: Seq<Entity>, w: nat, h: nat) -> bool {
    forall|i: int| 0 <= i < occs.len() ==> in_grid((#[trigger] occs[i]).x as int, occs[i].y as int, w, h)
}

/// The occupants in stamping order: the player, then the other entities in
/// list order.
pub open spec fn occupants(player: Entity, entities: Seq<Entity>) -> Seq<Entity> {
    seq![player] + entities
}

/// The contents `g` after each entity of `occs` has put its tile on its
/// cell, in order: where two stand on one cell the later one shows.
pub open spec fn stamp_all(g: Seq<Seq<Tile>>, occs: Seq<Entity>) -> Seq<Seq<Tile>>
    decreases occs.len(),
{
    if occs.len() == 0 {
        g
    } else {
        let e = occs.last();
        stamp(stamp_all(g, occs.drop_last()), e.x as int, e.y as int, e.tile)
    }
}

/// Where the player stands after a tick that polled `step`, given the grid
/// `g` of `w` by `h` cells as the previous tick left it.
pub open spec fn next_position(
    player: Entity,
    step: Option<(int, int)>,
    rules: Rules,
    g: Seq<Seq<Tile>>,
    w: nat,
    h: nat,
) -> (int, int) {
    match step {
        None => (player.x as int, player.y as int),
        Some(d) => {
            let tx = moved_axis(player.x as int, d.0, w as int, rules.bounds);
            let ty = moved_axis(player.y as int, d.1, h as int, rules.bounds);
            if rules.passability == Passability::Enforced && in_grid(tx, ty, w, h)
                && !g[ty][tx].passable {
                (player.x as int, player.y as int)
            } else {
                (tx, ty)
            }
        },
    }
}

/// The game state: the grid, the tile its cells are reset to, the player
/// and the other entities.
#[derive(Clone, Debug, PartialEq, Eq)]
pub struct World {
    grid: Grid,
    default_tile: Tile,
    player: Entity,
    entities: Vec<Entity>,
    rules: Rules,
}

impl World {
    pub closed spec fn spec_grid(&self) -> Seq<Seq<Tile>> {
        self.grid@
    }

    pub closed spec fn spec_width(&self) -> nat {
        self.grid.spec_width()
    }

    pub closed spec fn spec_height(&self) -> nat {
        self.grid.spec_height()
    }

    pub closed spec fn spec_default_tile(&self) -> Tile {
        self.default_tile
    }

    pub closed spec fn spec_player(&self) -> Entity {
        self.player
    }

    pub closed spec fn spec_entities(&self) -> Seq<Entity> {
        self.entities@
    }

    pub closed spec fn spec_rules(&self) -> Rules {
        self.rules
    }

    /// The grid is a non-empty rectangle whose dimensions fit a coordinate.
    pub open spec fn wf(&self) -> bool {
        &&& 0 < self.spec_width() <= i32::MAX
        &&& 0 < self.spec_height() <= i32::MAX
        &&& self.spec_grid().len() == self.spec_height()
        &&& forall|r: int|
            0 <= r < self.spec_grid().len() ==> (#[trigger] self.spec_grid()[r]).len()
                == self.spec_width()
    }

    /// The player's position after a tick on `frame`.
    pub open spec fn position_after(&self, frame: InputFrame) -> (int, int) {
        next_position(
            self.spec_player(),
            poll_spec(frame, self.spec_rules().trigger),
            self.spec_rules(),
            self.spec_grid(),
            self.spec_width(),
            self.spec_height(),
        )
    }

    /// A world for `layout`: every cell `default_tile`, the player at the
    /// middle of the grid, no other entities.
    ///
    /// Fails with `InvalidDimension` exactly when the layout has no column
    /// or no row.
    pub fn new(layout: &Layout, default_tile: Tile, rules: Rules) -> (res: Result<World, GameError>)
        requires
            layout.wf(),
        ensures
            (layout.spec_tiles_x() == 0 || layout.spec_tiles_y() == 0) <==> res is Err,
            res matches Err(e) ==> e == GameError::InvalidDimension,
            res matches Ok(w) ==> {
                &&& w.wf()
                &&& w.spec_width() == layout.spec_tiles_x()
                &&& w.spec_height() == layout.spec_tiles_y()
                &&& w.spec_grid() == filled(w.spec_width(), w.spec_height(), default_tile)
                &&& w.spec_default_tile() == default_tile
                &&& w.spec_player().tile == Tile::player_spec()
                &&& w.spec_player().x == layout.spec_tiles_x() / 2
                &&& w.spec_player().y == layout.spec_tiles_y() / 2
                &&& w.spec_entities() == Seq::<Entity>::empty()
                &&& w.spec_rules() == rules
            },
    {
        proof {
            lemma_layout_fits(*layout);
        }
        match Grid::new(layout.tiles_x(), layout.tiles_y(), default_tile) {
            Err(e) => Err(e),
            Ok(grid) => {
                let w = World {
                    grid,
                    default_tile,
                    player: Entity::new_player(layout),
                    entities: Vec::new(),
                    rules,
                };
                assert(w.entities@ =~= Seq::<Entity>::empty());
                Ok(w)
            },
        }
    }

    pub fn grid(&self) -> (res: &Grid)
        ensures
            res@ == self.spec_grid(),
            res.spec_width() == self.spec_width(),
            res.spec_height() == self.spec_height(),
            self.wf() ==> res.wf(),
    {
        &self.grid
    }

    pub fn default_tile(&self) -> (res: Tile)
        ensures
            res == self.spec_default_tile(),
    {
        self.default_tile
    }

    pub fn player(&self) -> (res: Entity)
        ensures
            res == self.spec_player(),
    {
        self.player
    }

    pub fn entities(&self) -> (res: &Vec<Entity>)
        ensures
            res@ == self.spec_entities(),
    {
        &self.entities
    }

    pub fn rules(&self) -> (res: Rules)
        ensures
            res == self.spec_rules(),
    {
        self.rules
    }

    /// Replaces the player. The grid shows it after the next tick.
    pub fn set_player(&mut self, player: Entity)
        ensures
            final(self).spec_player() == player,
            final(self).spec_grid() == old(self).spec_grid(),
            final(self).spec_width() == old(self).spec_width(),
            final(self).spec_height() == old(self).spec_height(),
            final(self).spec_default_tile() == old(self).spec_default_tile(),
            final(self).spec_entities() == old(self).spec_entities(),
            final(self).spec_rules() == old(self).spec_rules(),
    {
        self.player = player;
    }

    /// Appends `entity` to the list of entities. The grid shows it after
    /// the next tick.
    pub fn add_entity(&mut self, entity: Entity)
        ensures
            final(self).spec_entities() == old(self).spec_entities().push(entity),
            final(self).spec_player() == old(self).spec_player(),
            final(self).spec_grid() == old(self).spec_grid(),
            final(self).spec_width() == old(self).spec_width(),
            final(self).spec_height() == old(self).spec_height(),
            final(self).spec_default_tile() == old(self).spec_default_tile(),
            final(self).spec_rules() == old(self).spec_rules(),
    {
        self.entities.push(entity);
    }

    /// Where the player stands after a tick that polled `step`.
    pub fn destination(&self, step: Option<(i32, i32)>) -> (res: (i64, i64))
        requires
            self.wf(),
        ensures
            (res.0 as int, res.1 as int) == next_position(
                self.spec_player(),
                match step {
                    Some(d) => Some((d.0 as int, d.1 as int)),
                    None => None,
                },
                self.spec_rules(),
                self.spec_grid(),
                self.spec_width(),
                self.spec_height(),
            ),
    {
        match step {
            None => (self.player.x as i64, self.player.y as i64),
            Some(d) => {
                let w: usize = self.grid.width();
                let h: usize = self.grid.height();
                let tx: i64 = step_axis(self.player.x, d.0, w as i32, self.rules.bounds);
                let ty: i64 = step_axis(self.player.y, d.1, h as i32, self.rules.bounds);
                let enforced = match self.rules.passability {
                    Passability::Enforced => true,
                    Passability::Ignored => false,
                };
                if enforced && 0 <= tx && tx < w as i64 && 0 <= ty && ty < h as i64
                    && !self.grid.get(tx as usize, ty as usize).passable {
                    (self.player.x as i64, self.player.y as i64)
                } else {
                    (tx, ty)
                }
            },
        }
    }

    /// Whether every entity of the list stands on a cell of the grid.
    pub fn entities_in_grid(&self) -> (res: bool)
        requires
            self.wf(),
        ensures
            res == all_in_grid(self.spec_entities(), self.spec_width(), self.spec_height()),
    {
        let w: usize = self.grid.width();
        let h: usize = self.grid.height();
        let mut i: usize = 0;
        while i < self.entities.len()
            invariant
                i <= self.entities.len(),
                w == self.spec_width(),
                h == self.spec_height(),
                w <= i32::MAX,
                h <= i32::MAX,
                all_in_grid(self.entities@.take(i as int), w as nat, h as nat),
            decreases self.entities.len() - i,
        {
            let e = self.entities[i];
            if !(0 <= e.x && (e.x as i64) < w as i64 && 0 <= e.y && (e.y as i64) < h as i64) {
                assert(!in_grid(self.entities@[i as int].x as int, self.entities@[i as int].y as int, w as nat, h as nat));
                return false;
            }
            assert forall|k: int| 0 <= k < i + 1 implies in_grid(
                (#[trigger] self.entities@.take(i + 1)[k]).x as int,
                self.entities@.take(i + 1)[k].y as int,
                w as nat,
                h as nat,
            ) by {
                if k < i {
                    assert(self.entities@.take(i as int)[k] == self.entities@.take(i + 1)[k]);
                }
            }
            i += 1;
        }
        assert(self.entities@.take(i as int) =~= self.entities@);
        true
    }

    /// One frame of the game: polls `frame`, moves the player, resets the
    /// grid and stamps the player and then every entity onto it.
    ///
    /// Fails with `IndexOutOfRange`, and changes nothing, exactly when the
    /// player after its move, or an entity, stands outside the grid.
    pub fn tick(&mut self, frame: &InputFrame) -> (res: Result<(), GameError>)
        requires
            old(self).wf(),
        ensures
            final(self).wf(),
            res is Ok <==> {
                &&& in_grid(
                    old(self).position_after(*frame).0,
                    old(self).position_after(*frame).1,
                    old(self).spec_width(),
                    old(self).spec_height(),
                )
                &&& all_in_grid(
                    old(self).spec_entities(),
                    old(self).spec_width(),
                    old(self).spec_height(),
                )
            },
            res matches Err(e) ==> e == GameError::IndexOutOfRange && *final(self) == *old(self),
            res is Ok ==> {
                &&& final(self).spec_player().x == old(self).position_after(*frame).0
                &&& final(self).spec_player().y == old(self).position_after(*frame).1
                &&& final(self).spec_player().tile == old(self).spec_player().tile
                &&& final(self).spec_grid() == stamp_all(
                    filled(old(self).spec_width(), old(self).spec_height(), old(self).spec_default_tile()),
                    occupants(final(self).spec_player(), final(self).spec_entities()),
                )
            },
            final(self).spec_width() == old(self).spec_width(),
            final(self).spec_height() == old(self).spec_height(),
            final(self).spec_default_tile() == old(self).spec_default_tile(),
            final(self).spec_entities() == old(self).spec_entities(),
            final(self).spec_rules() == old(self).spec_rules(),
    {
        let w: usize = self.grid.width();
        let h: usize = self.grid.height();
        let step = poll(frame, self.rules.trigger);
        let (nx, ny) = self.destination(step);
        if !(0 <= nx && nx < w as i64 && 0 <= ny && ny < h as i64) {
            return Err(GameError::IndexOutOfRange);
        }
        if !self.entities_in_grid() {
            return Err(GameError::IndexOutOfRange);
        }
        self.player.x = nx as i32;
        self.player.y = ny as i32;
        self.grid.reset(self.default_tile);
        let ghost base = self.grid@;
        let ghost occs = occupants(self.player, self.entities@);
        self.grid.set(nx as usize, ny as usize, self.player.tile);
        proof {
            assert(occs.take(1).drop_last() =~= Seq::<Entity>::empty());
            assert(stamp_all(base, occs.take(1).drop_last()) == base);
            assert(occs.take(1).last() == self.player);
        }
        let mut i: usize = 0;
        while i < self.entities.len()
            invariant
                i <= self.entities.len(),
                self.grid.wf(),
                self.grid.spec_width() == w,
                self.grid.spec_height() == h,
                all_in_grid(self.entities@, w as nat, h as nat),
                occs == occupants(self.player, self.entities@),
                self.grid@ == stamp_all(base, occs.take(i + 1)),
                self.entities@ == old(self).entities@,
                self.rules == old(self).rules,
                self.default_tile == old(self).default_tile,
                self.player.x == nx,
                self.player.y == ny,
                self.player.tile == old(self).player.tile,
            decreases self.entities.len() - i,
        {
            let e = self.entities[i];
            self.grid.set(e.x as usize, e.y as usize, e.tile);
            proof {
                assert(occs.take(i + 2).drop_last() =~= occs.take(i + 1));
                assert(occs.take(i + 2).last() == e);
            }
            i += 1;
        }
        assert(occs.take(i + 1) =~= occs);
        Ok(())
    }
}

/// Under the clamped policy a player that stands on the grid stands on it
/// after the tick too, whatever was polled.
pub proof fn lemma_clamped_position_in_grid(
    player: Entity,
    step: Option<(int, int)>,
    rules: Rules,
    g: Seq<Seq<Tile>>,
    w: nat,
    h: nat,
)
    requires
        rules.bounds == BoundsPolicy::Clamped,
        in_grid(player.x as int, player.y as int, w, h),
    ensures
        in_grid(
            next_position(player, step, rules, g, w, h).0,
            next_position(player, step, rules, g, w, h).1,
            w,
            h,
        ),
{
}

/// Whether `g` has `h` rows of `w` tiles each.
pub open spec fn is_rect(g: Seq<Seq<Tile>>, w: nat, h: nat) -> bool {
    g.len() == h && forall|r: int| 0 <= r < h ==> (#[trigger] g[r]).len() == w
}

/// What the cell in column `col` of row `row` shows once the entities of
/// `occs` have been stamped onto `g` in order: the tile of the last of them
/// that stands there, and the tile of `g` where none does.
pub open spec fn shown_at(g: Seq<Seq<Tile>>, occs: Seq<Entity>, col: int, row: int) -> Tile
    decreases occs.len(),
{
    if occs.len() == 0 {
        g[row][col]
    } else if occs.last().x == col && occs.last().y == row {
        occs.last().tile
    } else {
        shown_at(g, occs.drop_last(), col, row)
    }
}

/// Stamping keeps the grid's shape, and afterwards every cell shows the
/// tile of the last occupant that stands on it, or what it held before
/// where none does.
pub proof fn lemma_stamp_all_cells(g: Seq<Seq<Tile>>, occs: Seq<Entity>, w: nat, h: nat)
    requires
        is_rect(g, w, h),
        all_in_grid(occs, w, h),
    ensures
        is_rect(stamp_all(g, occs), w, h),
        forall|col: int, row: int|
            in_grid(col, row, w, h) ==> (#[trigger] stamp_all(g, occs)[row][col]) == shown_at(
                g,
                occs,
                col,
                row,
            ),
    decreases occs.len(),
{
    if occs.len() > 0 {
        let rest = occs.drop_last();
        let e = occs.last();
        assert forall|i: int| 0 <= i < rest.len() implies in_grid(
            (#[trigger] rest[i]).x as int,
            rest[i].y as int,
            w,
            h,
        ) by {
            assert(rest[i] == occs[i]);
        }
        lemma_stamp_all_cells(g, rest, w, h);
        let prev = stamp_all(g, rest);
        assert(in_grid(e.x as int, e.y as int, w, h));
        assert(prev[e.y as int].len() == w);
        assert forall|col: int, row: int| in_grid(col, row, w, h) implies (#[trigger] stamp_all(
            g,
            occs,
        )[row][col]) == shown_at(g, occs, col, row) by {
            assert(prev[row][col] == shown_at(g, rest, col, row));
        }
    }
}

/// With the player as the only occupant of a grid that was reset to
/// `default_tile`, the player's cell shows the player's tile and every other
/// cell shows `default_tile`.
pub proof fn lemma_single_occupant(w: nat, h: nat, default_tile: Tile, e: Entity)
    requires
        in_grid(e.x as int, e.y as int, w, h),
    ensures
        ({
            let g = stamp_all(filled(w, h, default_tile), occupants(e, Seq::empty()));
            &&& is_rect(g, w, h)
            &&& g[e.y as int][e.x as int] == e.tile
            &&& forall|col: int, row: int|
                in_grid(col, row, w, h) && !(col == e.x && row == e.y) ==> (#[trigger] g[row][col])
                    == default_tile
        }),
{
    let base = filled(w, h, default_tile);
    let occs = occupants(e, Seq::empty());
    assert(occs =~= seq![e]);
    lemma_stamp_all_cells(base, occs, w, h);
    assert(occs.drop_last().len() == 0);
    let g = stamp_all(base, occs);
    assert forall|col: int, row: int|
        in_grid(col, row, w, h) && !(col == e.x && row == e.y) implies (#[trigger] g[row][col])
        == default_tile by {
        assert(shown_at(base, occs, col, row) == shown_at(base, occs.drop_last(), col, row));
    }
}

/// A cell on which no occupant stands shows after stamping what it held
/// before.
pub proof fn lemma_unoccupied_cell(g: Seq<Seq<Tile>>, occs: Seq<Entity>, col: int, row: int)
    requires
        forall|i: int| 0 <= i < occs.len() ==> !((#[trigger] occs[i]).x == col && occs[i].y == row),
    ensures
        shown_at(g, occs, col, row) == g[row][col],
    decreases occs.len(),
{
    if occs.len() > 0 {
        let rest = occs.drop_last();
        assert(occs[occs.len() - 1] == occs.last());
        assert forall|i: int| 0 <= i < rest.len() implies !((#[trigger] rest[i]).x == col
            && rest[i].y == row) by {
            assert(rest[i] == occs[i]);
        }
        lemma_unoccupied_cell(g, rest, col, row);
    }
}

/// Where several occupants stand on one cell, the cell shows the tile of
/// the one that comes last in stamping order.
pub proof fn lemma_last_occupant_shows(g: Seq<Seq<Tile>>, occs: Seq<Entity>, k: int)
    requires
        0 <= k < occs.len(),
        forall|j: int|
            k < j < occs.len() ==> !((#[trigger] occs[j]).x == occs[k].x && occs[j].y == occs[k].y),
    ensures
        shown_at(g, occs, occs[k].x as int, occs[k].y as int) == occs[k].tile,
    decreases occs.len(),
{
    if k < occs.len() - 1 {
        let rest = occs.drop_last();
        assert(occs[occs.len() - 1] == occs.last());
        assert(rest[k] == occs[k]);
        assert forall|j: int| k < j < rest.len() implies !((#[trigger] rest[j]).x == rest[k].x
            && rest[j].y == rest[k].y) by {
            assert(rest[j] == occs[j]);
        }
        lemma_last_occupant_shows(g, rest, k);
    }
}

} // verus!
