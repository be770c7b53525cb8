use vstd::prelude::*;

use crate::errors::CayedError;
use crate::game::Game;
use crate::game::GameStatus;
use crate::game::MIN_WAGER;
use crate::game::game_wf;
use crate::player_board::PlayerBoard;
use crate::player_board::board_wf;

verus! {

/// Open a new match and the creator's empty board.
///
/// A nonzero wager below the fixed minimum fails `MinimumWager` and no
/// record exists afterward; a zero wager is always legal. First-move
/// assignment is derived deterministically from the parity of the match
/// identifier: an even id gives the creator the first move. (That parity is
/// publicly predictable; it is no source of fairness.) The new match awaits
/// a second player.
///
/// A positive wager obliges the caller to deposit it into the escrow vault
/// in the same atomic step that persists the records; a failed deposit must
/// abort the step so that no record is created.
pub fn create_game(id: u64, grid_size: u8, player: u64, wager: u64, game_bump: u8, board_bump: u8)
    -> (r: Result<(Game, PlayerBoard), CayedError>)
    ensures
        r is Err <==> 0 < wager < MIN_WAGER,
        r is Err ==> r == Err::<(Game, PlayerBoard), CayedError>(CayedError::MinimumWager),
        r matches Ok((g, b)) ==> {
            &&& g.id == id
            &&& g.grid_size == grid_size
            &&& g.player_1 == player
            &&& g.player_2 is None
            &&& g.revealed_ships_player_1@.len() == 0
            &&& g.revealed_ships_player_2@.len() == 0
            &&& g.next_move_player_1 == (id % 2 == 0)
            &&& g.wager == wager
            &&& g.status is AwaitingPlayerTwo
            &&& g.bump == game_bump
            &&& game_wf(g)
            &&& b.game_id == id
            &&& b.player == player
            &&& b.bump == board_bump
            &&& b.ship_coordinates@.len() == 0
            &&& b.hits_received@.len() == 0
            &&& board_wf(b, grid_size)
        },
{
    if wager > 0 && wager < MIN_WAGER {
        return Err(CayedError::MinimumWager);
    }

    // Deterministic first-move assignment from the match identifier's parity.
    let first_move = id % 2 == 0;

    let game = Game {
        id,
        grid_size,
        player_1: player,
        player_2: None,
        revealed_ships_player_1: Vec::new(),
        revealed_ships_player_2: Vec::new(),
        next_move_player_1: first_move,
        wager,
        status: GameStatus::AwaitingPlayerTwo,
        bump: game_bump,
    };

    let player_board = PlayerBoard {
        game_id: id,
        player,
        bump: board_bump,
        ship_coordinates: Vec::new(),
        hits_received: Vec::new(),
    };

    Ok((game, player_board))
}

} // verus!
