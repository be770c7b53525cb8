use vstd::prelude::*;

verus! {

/// Every way an instruction can fail. Each failure is terminal for the
/// instruction that raised it: no record is created or mutated on an error.
#[derive(Clone, Copy, Debug, PartialEq, Eq, Structural)]
pub enum CayedError {
    /// Arithmetic would have widened past its type (fee/wager combination).
    Overflow,
    /// A nonzero wager below the fixed minimum was supplied.
    MinimumWager,
    /// Grid size must be a multiple of 2.
    GridNotEven,
    /// A player tried to join a game they created themselves.
    CannotJoinSelfGame,
    /// The game has already been joined by a second player.
    GameFull,
    /// Ships have already been placed on this board.
    ShipsAlreadyPlaced,
    /// A ship coordinate lies outside the owner's half of the grid.
    InvalidShipPlacement,
    /// The game has not been joined by a second player yet.
    GameNotStarted,
    /// The caller tried to move out of turn.
    InvalidTurn,
    /// The supplied opponent is not the other participant of this game.
    InvalidOpponent,
    /// The attack coordinate lies outside the opponent's half of the grid.
    AttackOutOfBounds,
    /// This cell has already been attacked.
    CellAlreadyAttacked,
    /// One of the boards has no ships placed yet.
    ShipsNotPlaced,
    /// Neither board is fully sunk yet.
    NotAllShipsSunk,
}

} // verus!
