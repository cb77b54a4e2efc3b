use rogue_grid::input::{poll, Direction, InputFrame, Keys, Trigger};

fn pressed(keys: Keys) -> InputFrame {
    InputFrame { pressed: keys, held: Keys::none() }
}

#[test]
fn up_and_left_together_give_up() {
    let mut k = Keys::none();
    k.arrow_up = true;
    k.arrow_left = true;
    assert_eq!(poll(&pressed(k), Trigger::Edge), Some((0, -1)));
    let mut letters = Keys::none();
    letters.key_k = true;
    letters.key_h = true;
    assert_eq!(poll(&pressed(letters), Trigger::Edge), Some((0, -1)));
}

#[test]
fn each_key_gives_its_delta() {
    let mut k = Keys::none();
    k.arrow_up = true;
    assert_eq!(poll(&pressed(k), Trigger::Edge), Some((0, -1)));
    let mut k = Keys::none();
    k.key_k = true;
    assert_eq!(poll(&pressed(k), Trigger::Edge), Some((0, -1)));
    let mut k = Keys::none();
    k.arrow_right = true;
    assert_eq!(poll(&pressed(k), Trigger::Edge), Some((1, 0)));
    let mut k = Keys::none();
    k.key_l = true;
    assert_eq!(poll(&pressed(k), Trigger::Edge), Some((1, 0)));
    let mut k = Keys::none();
    k.arrow_down = true;
    assert_eq!(poll(&pressed(k), Trigger::Edge), Some((0, 1)));
    let mut k = Keys::none();
    k.key_j = true;
    assert_eq!(poll(&pressed(k), Trigger::Edge), Some((0, 1)));
    let mut k = Keys::none();
    k.arrow_left = true;
    assert_eq!(poll(&pressed(k), Trigger::Edge), Some((-1, 0)));
    let mut k = Keys::none();
    k.key_h = true;
    assert_eq!(poll(&pressed(k), Trigger::Edge), Some((-1, 0)));
}

#[test]
fn no_key_gives_no_step() {
    assert_eq!(poll(&InputFrame::idle(), Trigger::Edge), None);
    assert_eq!(poll(&InputFrame::idle(), Trigger::Level), None);
    assert_eq!(Keys::none().direction(), None);
}

#[test]
fn priority_is_up_right_down_left() {
    let all = Keys {
        arrow_up: true,
        key_k: true,
        arrow_right: true,
        key_l: true,
        arrow_down: true,
        key_j: true,
        arrow_left: true,
        key_h: true,
    };
    assert_eq!(all.direction(), Some(Direction::Up));
    let mut k = all;
    k.arrow_up = false;
    k.key_k = false;
    assert_eq!(k.direction(), Some(Direction::Right));
    k.arrow_right = false;
    k.key_l = false;
    assert_eq!(k.direction(), Some(Direction::Down));
    k.arrow_down = false;
    k.key_j = false;
    assert_eq!(k.direction(), Some(Direction::Left));
    k.arrow_left = false;
    assert_eq!(k.direction(), Some(Direction::Left));
    k.key_h = false;
    assert_eq!(k.direction(), None);
}

#[test]
fn edge_trigger_reads_pressed_and_level_reads_held() {
    let mut right = Keys::none();
    right.arrow_right = true;
    let mut down = Keys::none();
    down.key_j = true;
    let frame = InputFrame { pressed: right, held: down };
    assert_eq!(poll(&frame, Trigger::Edge), Some((1, 0)));
    assert_eq!(poll(&frame, Trigger::Level), Some((0, 1)));
    let only_held = InputFrame { pressed: Keys::none(), held: right };
    assert_eq!(poll(&only_held, Trigger::Edge), None);
    assert_eq!(poll(&only_held, Trigger::Level), Some((1, 0)));
}

#[test]
fn direction_deltas() {
    assert_eq!(Direction::Up.delta(), (0, -1));
    assert_eq!(Direction::Right.delta(), (1, 0));
    assert_eq!(Direction::Down.delta(), (0, 1));
    assert_eq!(Direction::Left.delta(), (-1, 0));
    assert_eq!(Trigger::default_choice(), Trigger::Edge);
}
