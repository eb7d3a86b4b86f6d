//! The request-scoped failures of the registry and the board engine.

use vstd::prelude::*;
use vstd::string::StringExecFns;

verus! {

/// Everything that can make an operation fail. All of these are local and
/// recoverable: the caller gets the error back and the registry is unchanged.
#[derive(Debug, Copy, Clone, PartialEq, Eq, Structural)]
pub enum Error {
    /// The display name exceeds [`crate::USER_NAME_MAX_LEN`] bytes.
    NameTooLong,
    /// The operation referenced a name that is not registered.
    PlayerNotFound,
    /// The player's game link does not resolve to a live game.
    NoActiveGame,
    /// The move coordinates lie outside the 3x3 grid.
    InvalidCoordinates,
    /// The move targets a cell that already holds a tile.
    CellOccupied,
    /// The move was attempted after a winner or a draw was determined.
    GameAlreadyOver,
}

/// The message that is sent back over the wire for each failure.
pub open spec fn error_label(e: Error) -> Seq<char> {
    match e {
        Error::NameTooLong => "the user name is too long"@,
        Error::PlayerNotFound => "player with this name wasn't found"@,
        Error::NoActiveGame => "your game was deleted, but you can start a new one"@,
        Error::InvalidCoordinates => "invalid coordinates"@,
        Error::CellOccupied => "please choose a free position"@,
        Error::GameAlreadyOver => "this game has already ended"@,
    }
}

impl Error {
    /// Renders the failure as the message of the wire contract.
    pub fn message(&self) -> (s: String)
        ensures
            s@ == error_label(*self),
    {
        match self {
            Error::NameTooLong => String::from_str("the user name is too long"),
            Error::PlayerNotFound => String::from_str("player with this name wasn't found"),
            Error::NoActiveGame => String::from_str(
                "your game was deleted, but you can start a new one",
            ),
            Error::InvalidCoordinates => String::from_str("invalid coordinates"),
            Error::CellOccupied => String::from_str("please choose a free position"),
            Error::GameAlreadyOver => String::from_str("this game has already ended"),
        }
    }
}

} // verus!
