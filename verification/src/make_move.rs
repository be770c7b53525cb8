use vstd::prelude::*;

use crate::errors::CayedError;
use crate::game::Game;
use crate::game::game_wf;
use crate::player_board::Coordinate;
use crate::player_board::MAX_HITS;
use crate::player_board::PlayerBoard;
use crate::player_board::board_eq;
use crate::player_board::board_wf;
use crate::player_board::cell_attacked;
use crate::player_board::cell_hit;
use crate::player_board::coord_in_bounds;
use crate::player_board::no_duplicate_hits;

verus! {

/// Whose turn it is, derived purely from recorded history: player 1 is
/// entitled to move iff the parity of the total shots fired so far matches
/// the game's first-move flag (an even total with the flag set, or an odd
/// total with it clear).
pub open spec fn player_one_entitled(total_attacks: int, next_move_player_1: bool) -> bool {
    (total_attacks % 2 == 0) == next_move_player_1
}

/// The caller and the supplied opponent are the two participants of the
/// game, in either order.
pub open spec fn valid_opponent_pair(g: Game, player: u64, opponent: u64) -> bool {
    ||| player == g.player_1 && g.player_2 == Some(opponent)
    ||| g.player_2 == Some(player) && opponent == g.player_1
}

/// What a move attempt comes to, in the order the checks are made:
/// the first failed check names the error; when all pass, the attack is
/// recorded. The turn derivation reads only the two received-attack list
/// lengths and the stored first-move flag, so it is correct exactly as long
/// as those lists are append-only and never reordered or truncated.
pub open spec fn make_move_outcome(
    g: Game,
    player: u64,
    opponent: u64,
    player_board: PlayerBoard,
    opponent_board: PlayerBoard,
    x: u8,
    y: u8,
) -> Option<CayedError> {
    let total = player_board.hits_received@.len() + opponent_board.hits_received@.len();
    let entitled = if player_one_entitled(total as int, g.next_move_player_1) {
        g.player_1
    } else {
        g.player_2->0
    };
    if g.player_2 is None {
        Some(CayedError::GameNotStarted)
    } else if player_board.ship_coordinates@.len() == 0
        || opponent_board.ship_coordinates@.len() == 0 {
        Some(CayedError::ShipsNotPlaced)
    } else if player != entitled {
        Some(CayedError::InvalidTurn)
    } else if !valid_opponent_pair(g, player, opponent) {
        Some(CayedError::InvalidOpponent)
    } else if !coord_in_bounds(x as int, y as int, g.grid_size) {
        Some(CayedError::AttackOutOfBounds)
    } else if cell_attacked(opponent_board.hits_received@, x as int, y as int) {
        Some(CayedError::CellAlreadyAttacked)
    } else {
        None
    }
}

/// Fire at the cell `(x, y)` of the opponent's board.
///
/// The move is validated in this order: the game must have a second player
/// (`GameNotStarted`); both boards must carry ship placements
/// (`ShipsNotPlaced`); the caller must be the entitled player for the
/// current total of recorded attacks (`InvalidTurn`); the supplied opponent
/// must be the other participant (`InvalidOpponent`); the coordinate must
/// lie on the opponent's half of the grid (`AttackOutOfBounds`); and the
/// cell must not have been attacked before (`CellAlreadyAttacked`).
///
/// On success the coordinate is appended to the opponent's received-attack
/// list — a single append, no other mutation — so the list stays free of
/// duplicates and each attack appears in it exactly once.
pub fn make_move(
    game: &Game,
    player: u64,
    opponent: u64,
    player_board: &PlayerBoard,
    opponent_board: &mut PlayerBoard,
    x: u8,
    y: u8,
) -> (r: Result<(), CayedError>)
    requires
        game_wf(*game),
        board_wf(*player_board, game.grid_size),
        board_wf(*old(opponent_board), game.grid_size),
        old(opponent_board).hits_received@.len() < MAX_HITS,
        player_board.game_id == game.id,
        old(opponent_board).game_id == game.id,
        player_board.player == player,
        old(opponent_board).player == opponent,
    ensures
        board_wf(*final(opponent_board), game.grid_size),
        ({
            let outcome = make_move_outcome(
                *game,
                player,
                opponent,
                *player_board,
                *old(opponent_board),
                x,
                y,
            );
            match outcome {
                Some(e) => r == Err::<(), CayedError>(e)
                    && board_eq(*final(opponent_board), *old(opponent_board)),
                None => {
                    &&& r == Ok::<(), CayedError>(())
                    &&& final(opponent_board).hits_received@
                        == old(opponent_board).hits_received@.push(Coordinate { x, y })
                    &&& final(opponent_board).ship_coordinates@
                        == old(opponent_board).ship_coordinates@
                    &&& final(opponent_board).game_id == old(opponent_board).game_id
                    &&& final(opponent_board).player == old(opponent_board).player
                    &&& final(opponent_board).bump == old(opponent_board).bump
                },
            }
        }),
{
    // The game must have been joined by a second player.
    let player_2 = match game.player_2 {
        Some(p) => p,
        None => {
            return Err(CayedError::GameNotStarted);
        },
    };

    // Both players must have placed their ships.
    if player_board.ship_coordinates.len() == 0 || opponent_board.ship_coordinates.len() == 0 {
        return Err(CayedError::ShipsNotPlaced);
    }

    // Turn validation: derive whose turn it is from the recorded history.
    let total_moves = player_board.hits_received.len() + opponent_board.hits_received.len();
    let is_player1_turn = (total_moves % 2 == 0) == game.next_move_player_1;

    if is_player1_turn {
        if player != game.player_1 {
            return Err(CayedError::InvalidTurn);
        }
    } else {
        if player != player_2 {
            return Err(CayedError::InvalidTurn);
        }
    }

    // The supplied opponent must be the other participant.
    let valid_opponent = (player == game.player_1 && opponent == player_2)
        || (player == player_2 && opponent == game.player_1);
    if !valid_opponent {
        return Err(CayedError::InvalidOpponent);
    }

    // The attack must land on the opponent's half of the grid.
    let grid_size = game.grid_size;
    let half = grid_size / 2;
    if !(x < grid_size && y < half) {
        return Err(CayedError::AttackOutOfBounds);
    }

    // The cell must not have been attacked before.
    if cell_hit(&opponent_board.hits_received, x, y) {
        return Err(CayedError::CellAlreadyAttacked);
    }

    // Record the attack on the opponent's board: a single append.
    opponent_board.hits_received.push(Coordinate { x, y });

    Ok(())
}

/// Entitlement alternates strictly: whoever is entitled to move at one
/// total of recorded attacks is not entitled at the next, whatever the
/// first-move flag says.
pub proof fn lemma_turn_alternation(total_attacks: int, next_move_player_1: bool)
    requires
        total_attacks >= 0,
    ensures
        player_one_entitled(total_attacks + 1, next_move_player_1)
            == !player_one_entitled(total_attacks, next_move_player_1),
{
    assert((total_attacks + 1) % 2 != total_attacks % 2) by {
        assert(total_attacks % 2 == 0 || total_attacks % 2 == 1);
    };
}

/// A coordinate appears at most once in a duplicate-free received-attack
/// list: any two positions holding it are the same position.
pub proof fn lemma_attack_recorded_once(hits: Seq<Coordinate>, c: Coordinate)
    requires
        no_duplicate_hits(hits),
    ensures
        forall|i: int, j: int|
            0 <= i < hits.len() && 0 <= j < hits.len() && hits[i] == c && hits[j] == c
                ==> i == j,
{
}

} // verus!
