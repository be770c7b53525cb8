use vstd::prelude::*;

use crate::errors::CayedError;
use crate::game::Game;
use crate::game::GameStatus;
use crate::game::game_eq;
use crate::game::game_wf;
use crate::game::status_rank;
use crate::player_board::PlayerBoard;
use crate::player_board::board_wf;

verus! {

/// Join an open match as its second player, creating the joiner's empty
/// board.
///
/// The creator cannot join their own match (`CannotJoinSelfGame`), and a
/// match that already has a second player is full (`GameFull`). On success
/// `player_2` transitions from absent to present — the one time it ever
/// does — and the status advances to `InProgress`, which enables ship
/// placement. A failed call changes nothing.
///
/// A match with a nonzero wager obliges the joiner to deposit the same
/// amount into the escrow vault in the same atomic step; a failed deposit
/// must abort the step so that the match stays open and no board is
/// created.
pub fn join_game(game: &mut Game, player: u64, board_bump: u8)
    -> (r: Result<PlayerBoard, CayedError>)
    requires
        game_wf(*old(game)),
    ensures
        game_wf(*final(game)),
        status_rank(final(game).status) >= status_rank(old(game).status),
        final(game).player_1 == old(game).player_1,
        final(game).id == old(game).id,
        final(game).grid_size == old(game).grid_size,
        final(game).wager == old(game).wager,
        final(game).next_move_player_1 == old(game).next_move_player_1,
        final(game).bump == old(game).bump,
        final(game).revealed_ships_player_1@ == old(game).revealed_ships_player_1@,
        final(game).revealed_ships_player_2@ == old(game).revealed_ships_player_2@,
        if player == old(game).player_1 {
            r == Err::<PlayerBoard, CayedError>(CayedError::CannotJoinSelfGame)
                && game_eq(*final(game), *old(game))
        } else if old(game).player_2 is Some {
            r == Err::<PlayerBoard, CayedError>(CayedError::GameFull)
                && game_eq(*final(game), *old(game))
        } else {
            &&& final(game).player_2 == Some(player)
            &&& final(game).status is InProgress
            &&& r matches Ok(b) && ({
                &&& b.game_id == old(game).id
                &&& b.player == player
                &&& b.bump == board_bump
                &&& b.ship_coordinates@.len() == 0
                &&& b.hits_received@.len() == 0
                &&& board_wf(b, old(game).grid_size)
            })
        },
{
    if player == game.player_1 {
        return Err(CayedError::CannotJoinSelfGame);
    }
    if game.player_2.is_some() {
        return Err(CayedError::GameFull);
    }

    game.player_2 = Some(player);
    game.status = GameStatus::InProgress;

    let player_board = PlayerBoard {
        game_id: game.id,
        player,
        bump: board_bump,
        ship_coordinates: Vec::new(),
        hits_received: Vec::new(),
    };

    Ok(player_board)
}

} // verus!
