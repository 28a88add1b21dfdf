use vstd::prelude::*;

verus! {

/// One of the two player identities. The rules of the game are written for
/// exactly two players, so the type has exactly two values.
#[derive(Clone, Copy, PartialEq, Eq, Structural, Debug)]
pub enum PlayerId {
    Player1,
    Player2,
}

impl PlayerId {
    /// The identity of the opponent.
    pub open spec fn other_spec(self) -> PlayerId {
        match self {
            PlayerId::Player1 => PlayerId::Player2,
            PlayerId::Player2 => PlayerId::Player1,
        }
    }

    /// Returns the identity of the opponent.
    pub fn other(self) -> (r: PlayerId)
        ensures
            r == self.other_spec(),
            r != self,
    {
        match self {
            PlayerId::Player1 => PlayerId::Player2,
            PlayerId::Player2 => PlayerId::Player1,
        }
    }
}

/// The state of one position of the board: empty, or occupied by a piece of
/// one of the players. There is no other state.
#[derive(Clone, Copy, PartialEq, Eq, Structural, Debug)]
pub enum Cell {
    Empty,
    Occupied(PlayerId),
}

/// Everything that can go wrong when a caller asks the engine or the grid to
/// do something. All four are ordinary return values, never panics.
#[derive(Clone, Copy, PartialEq, Eq, Structural, Debug)]
pub enum GameError {
    /// A row or column index lies outside the grid's dimensions.
    BoundsError,
    /// The requested column has no empty cell left.
    ColumnFullError,
    /// The move was attempted by the player whose turn it is not.
    NotPlayersTurn,
    /// The move was attempted after the game had already been won or drawn.
    GameAlreadyOver,
}

} // verus!
