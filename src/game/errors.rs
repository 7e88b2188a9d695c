use vstd::prelude::*;

verus! {

/// Why `Game::new` refused a configuration.
#[derive(Clone, Copy, Debug, PartialEq, Eq, Structural)]
pub enum NewGameError {
    NotEnoughPlayers,
    ImpossibleWinLength,
    InvalidDimensions,
}

/// Why `Game::put` refused to place a player.
#[derive(Clone, Copy, Debug, PartialEq, Eq, Structural)]
pub enum PutPlayerError {
    IndexOutOfBounds,
    PositionNotEmpty,
    PlayerOutOfRange,
}

/// Why the turn-based game refused a configuration.
#[derive(Clone, Copy, Debug, PartialEq, Eq, Structural)]
pub enum CreateGameError {
    DimensionTooSmall,
    TooFewPlayers,
    GoalTooSmall,
    GoalTooLarge,
}

/// Why the turn-based game refused a move.
#[derive(Clone, Copy, Debug, PartialEq, Eq, Structural)]
pub enum PlaceMoveError {
    PositionOutOfRange,
    TileNotEmpty,
}

} // verus!
