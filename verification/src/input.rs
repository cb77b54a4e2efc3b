use vstd::prelude::*;

verus! {

/// The state of the eight movement keys: for each direction an arrow key and
/// a letter key.
#[derive(Clone, Copy, Debug, PartialEq, Eq, Structural)]
pub struct Keys {
    pub arrow_up: bool,
    pub key_k: bool,
    pub arrow_right: bool,
    pub key_l: bool,
    pub arrow_down: bool,
    pub key_j: bool,
    pub arrow_left: bool,
    pub key_h: bool,
}

/// What the input source reports for one frame.
#[derive(Clone, Copy, Debug, PartialEq, Eq, Structural)]
pub struct InputFrame {
    /// The keys that went down during this frame.
    pub pressed: Keys,
    /// The keys that are down now.
    pub held: Keys,
}

/// When a key produces a step.
#[derive(Clone, Copy, Debug, PartialEq, Eq, Structural)]
pub enum Trigger {
    /// Once for each time the key goes down.
    Edge,
    /// In every frame in which the key is down.
    Level,
}

/// The four directions, in the order in which the keys are looked at.
#[derive(Clone, Copy, Debug, PartialEq, Eq, Structural)]
pub enum Direction {
    Up,
    Right,
    Down,
    Left,
}

impl Trigger {
    /// The trigger used when none is chosen: edge-triggered.
    pub fn default_choice() -> (res: Trigger)
        ensures
            res == Trigger::Edge,
    {
        Trigger::Edge
    }
}

impl Direction {
    /// The step this direction stands for. Rows grow downwards.
    pub open spec fn delta_spec(self) -> (int, int) {
        match self {
            Direction::Up => (0, -1),
            Direction::Right => (1, 0),
            Direction::Down => (0, 1),
            Direction::Left => (-1, 0),
        }
    }

    pub fn delta(self) -> (res: (i32, i32))
        ensures
            (res.0 as int, res.1 as int) == self.delta_spec(),
    {
        match self {
            Direction::Up => (0, -1),
            Direction::Right => (1, 0),
            Direction::Down => (0, 1),
            Direction::Left => (-1, 0),
        }
    }
}

impl Keys {
    /// No key active.
    pub open spec fn none_spec() -> Keys {
        Keys {
            arrow_up: false,
            key_k: false,
            arrow_right: false,
            key_l: false,
            arrow_down: false,
            key_j: false,
            arrow_left: false,
            key_h: false,
        }
    }

    /// No key active.
    pub fn none() -> (res: Keys)
        ensures
            res == Self::none_spec(),
    {
        Keys {
            arrow_up: false,
            key_k: false,
            arrow_right: false,
            key_l: false,
            arrow_down: false,
            key_j: false,
            arrow_left: false,
            key_h: false,
        }
    }

    pub open spec fn up(self) -> bool {
        self.arrow_up || self.key_k
    }

    pub open spec fn right(self) -> bool {
        self.arrow_right || self.key_l
    }

    pub open spec fn down(self) -> bool {
        self.arrow_down || self.key_j
    }

    pub open spec fn left(self) -> bool {
        self.arrow_left || self.key_h
    }

    /// The first active direction in the order up, right, down, left.
    pub open spec fn first_active(self) -> Option<Direction> {
        if self.up() {
            Some(Direction::Up)
        } else if self.right() {
            Some(Direction::Right)
        } else if self.down() {
            Some(Direction::Down)
        } else if self.left() {
            Some(Direction::Left)
        } else {
            None
        }
    }

    /// The first active direction in the order up, right, down, left, or
    /// `None` when no movement key is active.
    pub fn direction(&self) -> (res: Option<Direction>)
        ensures
            res == self.first_active(),
    {
        if self.arrow_up || self.key_k {
            Some(Direction::Up)
        } else if self.arrow_right || self.key_l {
            Some(Direction::Right)
        } else if self.arrow_down || self.key_j {
            Some(Direction::Down)
        } else if self.arrow_left || self.key_h {
            Some(Direction::Left)
        } else {
            None
        }
    }
}

impl InputFrame {
    /// A frame in which nothing is pressed or held.
    pub fn idle() -> (res: InputFrame)
        ensures
            res == (InputFrame { pressed: Keys::none_spec(), held: Keys::none_spec() }),
    {
        InputFrame { pressed: Keys::none(), held: Keys::none() }
    }

    /// The keys that count under `trigger`.
    pub open spec fn active(self, trigger: Trigger) -> Keys {
        match trigger {
            Trigger::Edge => self.pressed,
            Trigger::Level => self.held,
        }
    }
}

/// The step that `poll` gives for `frame` under `trigger`.
pub open spec fn poll_spec(frame: InputFrame, trigger: Trigger) -> Option<(int, int)> {
    match frame.active(trigger).first_active() {
        Some(d) => Some(d.delta_spec()),
        None => None,
    }
}

/// Turns one frame's key state into at most one step.
///
/// Under `Trigger::Edge` the newly pressed keys count, under
/// `Trigger::Level` the keys that are down. Where several directions are
/// active the first in the order up, right, down, left wins.
pub fn poll(frame: &InputFrame, trigger: Trigger) -> (res: Option<(i32, i32)>)
    ensures
        res is Some <==> poll_spec(*frame, trigger) is Some,
        res matches Some(d) ==> poll_spec(*frame, trigger) == Some((d.0 as int, d.1 as int)),
{
    let keys = match trigger {
        Trigger::Edge => frame.pressed,
        Trigger::Level => frame.held,
    };
    match keys.direction() {
        Some(d) => Some(d.delta()),
        None => None,
    }
}

/// Whatever else is active, an active up key decides the step.
pub proof fn lemma_up_wins(frame: InputFrame, trigger: Trigger)
    requires
        frame.active(trigger).up(),
    ensures
        poll_spec(frame, trigger) == Some((0int, -1int)),
{
}

/// The priority order: a direction decides the step exactly when it is
/// active and none before it in the order up, right, down, left is.
pub proof fn lemma_poll_priority(frame: InputFrame, trigger: Trigger)
    ensures
        ({
            let k = frame.active(trigger);
            &&& poll_spec(frame, trigger) == Some((0int, -1int)) <==> k.up()
            &&& poll_spec(frame, trigger) == Some((1int, 0int)) <==> !k.up() && k.right()
            &&& poll_spec(frame, trigger) == Some((0int, 1int)) <==> !k.up() && !k.right()
                && k.down()
            &&& poll_spec(frame, trigger) == Some((-1int, 0int)) <==> !k.up() && !k.right()
                && !k.down() && k.left()
            &&& poll_spec(frame, trigger) is None <==> !k.up() && !k.right() && !k.down()
                && !k.left()
        }),
{
}

/// Every step that polling produces is one cell along exactly one axis.
pub proof fn lemma_poll_cardinal(frame: InputFrame, trigger: Trigger)
    ensures
        poll_spec(frame, trigger) matches Some(d) ==> crate::entity::is_cardinal_step(d),
{
}

} // verus!
