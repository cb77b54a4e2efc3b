use vstd::prelude::*;

verus! {

/// What can go wrong while a game is set up or stepped.
#[derive(Clone, Copy, Debug, PartialEq, Eq, Structural)]
pub enum GameError {
    /// The window or cell size cannot describe a layout.
    Configuration,
    /// A grid was asked for with no columns or no rows.
    InvalidDimension,
    /// An occupant stands outside the grid.
    IndexOutOfRange,
}

impl GameError {
    /// A short description of the error.
    pub fn message(&self) -> (res: &'static str)
        ensures
            res@ == Self::message_of(*self)@,
    {
        match self {
            GameError::Configuration => "invalid configuration",
            GameError::InvalidDimension => "grid dimension is zero",
            GameError::IndexOutOfRange => "position outside the grid",
        }
    }

    /// The text that `message` returns for each error.
    pub open spec fn message_of(e: GameError) -> &'static str {
        match e {
            GameError::Configuration => "invalid configuration",
            GameError::InvalidDimension => "grid dimension is zero",
            GameError::IndexOutOfRange => "position outside the grid",
        }
    }
}

} // verus!
