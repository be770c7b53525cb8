use vstd::prelude::*;

use crate::errors::CayedError;
use crate::game::Game;
use crate::game::ShipCoordinates;
use crate::game::game_wf;
use crate::player_board::MAX_SHIPS;
use crate::player_board::PlayerBoard;
use crate::player_board::board_eq;
use crate::player_board::board_wf;
use crate::player_board::ship_in_bounds;

verus! {

/// Every placement in the list lies within the owner's half of the grid.
pub open spec fn ships_in_bounds(ships: Seq<ShipCoordinates>, grid_size: u8) -> bool {
    forall|i: int| 0 <= i < ships.len() ==> ship_in_bounds(#[trigger] ships[i], grid_size)
}

/// Whether every corner of every placement in the list lies within the
/// owner's half of the grid: `x < grid_size` and `y < grid_size / 2`.
pub fn all_ships_in_bounds(ships: &Vec<ShipCoordinates>, grid_size: u8) -> (r: bool)
    ensures
        r == ships_in_bounds(ships@, grid_size),
{
    let half = grid_size / 2;
    let mut i: usize = 0;
    while i < ships.len()
        invariant
            i <= ships@.len(),
            half == grid_size as int / 2,
            forall|k: int| 0 <= k < i ==> ship_in_bounds(#[trigger] ships@[k], grid_size),
        decreases ships@.len() - i,
    {
        let s = &ships[i];
        if !(s.start_x < grid_size && s.end_x < grid_size && s.start_y < half && s.end_y < half) {
            return false;
        }
        i = i + 1;
    }
    true
}

/// Place the caller's ships, once and for all.
///
/// The match must have a second player (`GameNotStarted`), the board must
/// carry no placements yet (`ShipsAlreadyPlaced`), and every coordinate of
/// every placement must lie within the caller's half of the grid
/// (`InvalidShipPlacement`). On success the list is stored verbatim and is
/// thereafter immutable: a later call on the same board fails
/// `ShipsAlreadyPlaced` and leaves the stored placement unchanged. A failed
/// call changes nothing.
pub fn hide_ships(game: &Game, board: &mut PlayerBoard, ships: Vec<ShipCoordinates>)
    -> (r: Result<(), CayedError>)
    requires
        game_wf(*game),
        board_wf(*old(board), game.grid_size),
        old(board).game_id == game.id,
        ships@.len() <= MAX_SHIPS,
    ensures
        board_wf(*final(board), game.grid_size),
        final(board).game_id == old(board).game_id,
        final(board).player == old(board).player,
        final(board).bump == old(board).bump,
        final(board).hits_received@ == old(board).hits_received@,
        if game.player_2 is None {
            r == Err::<(), CayedError>(CayedError::GameNotStarted)
                && board_eq(*final(board), *old(board))
        } else if old(board).ship_coordinates@.len() > 0 {
            r == Err::<(), CayedError>(CayedError::ShipsAlreadyPlaced)
                && board_eq(*final(board), *old(board))
        } else if !ships_in_bounds(ships@, game.grid_size) {
            r == Err::<(), CayedError>(CayedError::InvalidShipPlacement)
                && board_eq(*final(board), *old(board))
        } else {
            r == Ok::<(), CayedError>(()) && final(board).ship_coordinates@ == ships@
        },
{
    if game.player_2.is_none() {
        return Err(CayedError::GameNotStarted);
    }
    if board.ship_coordinates.len() > 0 {
        return Err(CayedError::ShipsAlreadyPlaced);
    }
    if !all_ships_in_bounds(&ships, game.grid_size) {
        return Err(CayedError::InvalidShipPlacement);
    }

    // Store the placement list verbatim; it is immutable from here on.
    board.ship_coordinates = ships;

    Ok(())
}

} // verus!
