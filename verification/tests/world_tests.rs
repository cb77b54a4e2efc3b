use rogue_grid::entity::{BoundsPolicy, Entity};
use rogue_grid::error::GameError;
use rogue_grid::input::{InputFrame, Keys, Trigger};
use rogue_grid::layout::{Layout, Placement};
use rogue_grid::tile::{Color, Tile};
use rogue_grid::world::{Passability, Rules, World};

fn rules(bounds: BoundsPolicy) -> Rules {
    Rules { bounds, trigger: Trigger::Edge, passability: Passability::Ignored }
}

fn press_right() -> InputFrame {
    let mut k = Keys::none();
    k.arrow_right = true;
    InputFrame { pressed: k, held: k }
}

fn press_left() -> InputFrame {
    let mut k = Keys::none();
    k.key_h = true;
    InputFrame { pressed: k, held: k }
}

fn press_up() -> InputFrame {
    let mut k = Keys::none();
    k.arrow_up = true;
    InputFrame { pressed: k, held: k }
}

fn assert_only(world: &World, occupied: &[(usize, usize, Tile)]) {
    let g = world.grid();
    for row in 0..g.height() {
        for col in 0..g.width() {
            let mut expected = world.default_tile();
            for &(c, r, t) in occupied.iter() {
                if (c, r) == (col, row) {
                    expected = t;
                }
            }
            assert_eq!(g.get(col, row), expected, "cell ({}, {})", col, row);
        }
    }
}

#[test]
fn new_world_has_a_clean_grid_and_a_centred_player() {
    let l = Layout::compute(160, 96, 16, Placement::Flush).unwrap();
    let w = World::new(&l, Tile::floor(), rules(BoundsPolicy::Clamped)).unwrap();
    assert_eq!((w.grid().width(), w.grid().height()), (10, 6));
    assert_eq!((w.player().x, w.player().y), (5, 3));
    assert_eq!(w.player().tile, Tile::player());
    assert!(w.entities().is_empty());
    assert_eq!(w.default_tile(), Tile::floor());
    assert_eq!(w.rules(), rules(BoundsPolicy::Clamped));
    assert_only(&w, &[]);
}

#[test]
fn world_without_cells_is_rejected() {
    let narrow = Layout::compute(10, 96, 16, Placement::Flush).unwrap();
    assert_eq!(
        World::new(&narrow, Tile::floor(), rules(BoundsPolicy::Clamped)).err(),
        Some(GameError::InvalidDimension)
    );
    let flat = Layout::compute(160, 15, 16, Placement::Centered).unwrap();
    assert_eq!(
        World::new(&flat, Tile::floor(), rules(BoundsPolicy::Unclamped)).err(),
        Some(GameError::InvalidDimension)
    );
}

#[test]
fn single_occupant_is_stamped() {
    let l = Layout::compute(176, 176, 16, Placement::Flush).unwrap();
    let mut w = World::new(&l, Tile::floor(), rules(BoundsPolicy::Clamped)).unwrap();
    assert_eq!((w.player().x, w.player().y), (5, 5));
    assert_eq!(w.tick(&InputFrame::idle()), Ok(()));
    assert_eq!(w.grid().get(5, 5), w.player().tile);
    assert_only(&w, &[(5, 5, Tile::player())]);
}

#[test]
fn walking_right_to_the_edge() {
    let l = Layout::compute(160, 96, 16, Placement::Flush).unwrap();
    assert_eq!((l.tiles_x(), l.tiles_y()), (10, 6));
    assert_eq!((l.x_offset(), l.y_offset()), (0, 0));
    let mut w = World::new(&l, Tile::floor(), rules(BoundsPolicy::Clamped)).unwrap();
    assert_eq!((w.player().x, w.player().y), (5, 3));
    for _ in 0..3 {
        assert_eq!(w.tick(&press_right()), Ok(()));
    }
    assert_eq!((w.player().x, w.player().y), (8, 3));
    assert_only(&w, &[(8, 3, Tile::player())]);
    assert_eq!(w.tick(&press_right()), Ok(()));
    assert_eq!((w.player().x, w.player().y), (9, 3));
    assert_eq!(w.tick(&press_right()), Ok(()));
    assert_eq!((w.player().x, w.player().y), (9, 3));
    assert_only(&w, &[(9, 3, Tile::player())]);
}

#[test]
fn tick_leaves_no_trail() {
    let l = Layout::compute(160, 96, 16, Placement::Flush).unwrap();
    let mut w = World::new(&l, Tile::floor(), rules(BoundsPolicy::Unclamped)).unwrap();
    w.tick(&press_up()).unwrap();
    assert_only(&w, &[(5, 2, Tile::player())]);
    w.tick(&press_left()).unwrap();
    assert_only(&w, &[(4, 2, Tile::player())]);
    w.tick(&InputFrame::idle()).unwrap();
    assert_only(&w, &[(4, 2, Tile::player())]);
}

#[test]
fn edge_triggered_world_ignores_held_keys() {
    let l = Layout::compute(160, 96, 16, Placement::Flush).unwrap();
    let mut right = Keys::none();
    right.arrow_right = true;
    let held = InputFrame { pressed: Keys::none(), held: right };
    let mut edge = World::new(&l, Tile::floor(), rules(BoundsPolicy::Clamped)).unwrap();
    edge.tick(&held).unwrap();
    assert_eq!((edge.player().x, edge.player().y), (5, 3));
    let level_rules =
        Rules { bounds: BoundsPolicy::Clamped, trigger: Trigger::Level, passability: Passability::Ignored };
    let mut level = World::new(&l, Tile::floor(), level_rules).unwrap();
    level.tick(&held).unwrap();
    level.tick(&held).unwrap();
    assert_eq!((level.player().x, level.player().y), (7, 3));
}

#[test]
fn unclamped_walk_off_the_grid_fails_and_changes_nothing() {
    let l = Layout::compute(48, 16, 16, Placement::Flush).unwrap();
    let mut w = World::new(&l, Tile::floor(), rules(BoundsPolicy::Unclamped)).unwrap();
    assert_eq!((w.player().x, w.player().y), (1, 0));
    assert_eq!(w.tick(&press_right()), Ok(()));
    assert_eq!((w.player().x, w.player().y), (2, 0));
    let before = w.clone();
    assert_eq!(w.tick(&press_right()), Err(GameError::IndexOutOfRange));
    assert_eq!(w, before);
    assert_eq!(w.tick(&press_up()), Err(GameError::IndexOutOfRange));
    assert_eq!(w, before);
    assert_eq!(w.tick(&press_left()), Ok(()));
    assert_eq!((w.player().x, w.player().y), (1, 0));
}

#[test]
fn entity_outside_the_grid_fails_the_tick() {
    let l = Layout::compute(160, 96, 16, Placement::Flush).unwrap();
    let mut w = World::new(&l, Tile::floor(), rules(BoundsPolicy::Clamped)).unwrap();
    w.add_entity(Entity::new(Tile::floor(), 10, 0));
    assert!(!w.entities_in_grid());
    let before = w.clone();
    assert_eq!(w.tick(&press_right()), Err(GameError::IndexOutOfRange));
    assert_eq!(w, before);
    let mut v = World::new(&l, Tile::floor(), rules(BoundsPolicy::Clamped)).unwrap();
    v.add_entity(Entity::new(Tile::floor(), 0, -1));
    assert_eq!(v.tick(&InputFrame::idle()), Err(GameError::IndexOutOfRange));
}

#[test]
fn later_entities_win_overlaps() {
    let l = Layout::compute(160, 96, 16, Placement::Flush).unwrap();
    let mut w = World::new(&l, Tile::floor(), rules(BoundsPolicy::Clamped)).unwrap();
    let orc = Tile::new('o', Color::green(), Color::black(), false);
    let rat = Tile::new('r', Color::white(), Color::black(), false);
    let bat = Tile::new('b', Color::orange(), Color::black(), false);
    w.add_entity(Entity::new(orc, 5, 3));
    w.add_entity(Entity::new(rat, 0, 0));
    w.add_entity(Entity::new(bat, 0, 0));
    assert_eq!(w.entities().len(), 3);
    assert!(w.entities_in_grid());
    w.tick(&InputFrame::idle()).unwrap();
    assert_only(&w, &[(5, 3, orc), (0, 0, bat)]);
    w.tick(&press_right()).unwrap();
    assert_only(&w, &[(6, 3, Tile::player()), (5, 3, orc), (0, 0, bat)]);
}

#[test]
fn enforced_passability_rejects_a_step_onto_a_blocking_tile() {
    let l = Layout::compute(160, 96, 16, Placement::Flush).unwrap();
    let strict =
        Rules { bounds: BoundsPolicy::Clamped, trigger: Trigger::Edge, passability: Passability::Enforced };
    let mut w = World::new(&l, Tile::floor(), strict).unwrap();
    let rock = Tile::new('#', Color::white(), Color::black(), false);
    w.add_entity(Entity::new(rock, 7, 3));
    w.tick(&press_right()).unwrap();
    assert_eq!((w.player().x, w.player().y), (6, 3));
    w.tick(&press_right()).unwrap();
    assert_eq!((w.player().x, w.player().y), (6, 3));
    assert_only(&w, &[(6, 3, Tile::player()), (7, 3, rock)]);
    w.tick(&press_up()).unwrap();
    assert_eq!((w.player().x, w.player().y), (6, 2));

    let mut loose = World::new(&l, Tile::floor(), rules(BoundsPolicy::Clamped)).unwrap();
    loose.add_entity(Entity::new(rock, 7, 3));
    loose.tick(&press_right()).unwrap();
    loose.tick(&press_right()).unwrap();
    assert_eq!((loose.player().x, loose.player().y), (7, 3));
    assert_only(&loose, &[(7, 3, rock)]);
}

#[test]
fn destination_follows_the_rules() {
    let l = Layout::compute(160, 96, 16, Placement::Flush).unwrap();
    let mut w = World::new(&l, Tile::floor(), rules(BoundsPolicy::Unclamped)).unwrap();
    assert_eq!(w.destination(None), (5, 3));
    assert_eq!(w.destination(Some((1, 0))), (6, 3));
    assert_eq!(w.destination(Some((0, -1))), (5, 2));
    w.set_player(Entity::new(Tile::player(), 9, 5));
    assert_eq!(w.destination(Some((1, 0))), (10, 5));
    let mut c = World::new(&l, Tile::floor(), rules(BoundsPolicy::Clamped)).unwrap();
    c.set_player(Entity::new(Tile::player(), 9, 5));
    assert_eq!(c.destination(Some((1, 0))), (9, 5));
    assert_eq!(c.destination(Some((0, 1))), (9, 5));
    assert_eq!(c.player(), Entity::new(Tile::player(), 9, 5));
}
