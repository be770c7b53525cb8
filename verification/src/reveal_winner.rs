use vstd::prelude::*;

use crate::delegation::BoardRecord;
use crate::delegation::after_commit;
use crate::errors::CayedError;
use crate::game::Game;
use crate::game::GameStatus;
use crate::game::ShipCoordinates;
use crate::game::game_eq;
use crate::game::game_wf;
use crate::game::status_rank;
use crate::player_board::Coordinate;
use crate::player_board::PlayerBoard;
use crate::player_board::board_eq;
use crate::player_board::board_wf;
use crate::player_board::cell_attacked;
use crate::player_board::cell_hit;

verus! {

/// The smaller x of the ship rectangle's two corners.
pub open spec fn ship_min_x(s: ShipCoordinates) -> int {
    if s.start_x <= s.end_x {
        s.start_x as int
    } else {
        s.end_x as int
    }
}

/// The larger x of the ship rectangle's two corners.
pub open spec fn ship_max_x(s: ShipCoordinates) -> int {
    if s.start_x <= s.end_x {
        s.end_x as int
    } else {
        s.start_x as int
    }
}

/// The smaller y of the ship rectangle's two corners.
pub open spec fn ship_min_y(s: ShipCoordinates) -> int {
    if s.start_y <= s.end_y {
        s.start_y as int
    } else {
        s.end_y as int
    }
}

/// The larger y of the ship rectangle's two corners.
pub open spec fn ship_max_y(s: ShipCoordinates) -> int {
    if s.start_y <= s.end_y {
        s.end_y as int
    } else {
        s.start_y as int
    }
}

/// A ship is sunk iff every integer coordinate inside its normalized
/// rectangle appears in the board's received-attack list.
pub open spec fn ship_sunk(s: ShipCoordinates, hits: Seq<Coordinate>) -> bool {
    forall|x: int, y: int|
        ship_min_x(s) <= x <= ship_max_x(s) && ship_min_y(s) <= y <= ship_max_y(s)
            ==> cell_attacked(hits, x, y)
}

/// A board is fully sunk iff every one of its ships is sunk. A board with
/// no ships placed yet is vacuously fully sunk.
pub open spec fn board_fully_sunk(b: PlayerBoard) -> bool {
    forall|i: int| 0 <= i < b.ship_coordinates@.len()
        ==> ship_sunk(#[trigger] b.ship_coordinates@[i], b.hits_received@)
}

/// Whether every cell of every ship on this board has been attacked.
#[verifier::loop_isolation(false)]
pub fn all_ships_sunk(board: &PlayerBoard) -> (r: bool)
    ensures
        r == board_fully_sunk(*board),
{
    let ships = &board.ship_coordinates;
    let hits = &board.hits_received;
    let mut i: usize = 0;
    while i < ships.len()
        invariant
            i <= ships@.len(),
            forall|k: int| 0 <= k < i ==> ship_sunk(#[trigger] ships@[k], hits@),
        decreases ships@.len() - i,
    {
        let s = ships[i];
        let min_x = if s.start_x <= s.end_x { s.start_x } else { s.end_x };
        let max_x = if s.start_x <= s.end_x { s.end_x } else { s.start_x };
        let min_y = if s.start_y <= s.end_y { s.start_y } else { s.end_y };
        let max_y = if s.start_y <= s.end_y { s.end_y } else { s.start_y };
        let mut xi: usize = min_x as usize;
        while xi <= max_x as usize
            invariant
                min_x as int <= xi <= max_x as int + 1,
                forall|xx: int, yy: int|
                    min_x as int <= xx < xi && min_y as int <= yy <= max_y as int
                        ==> cell_attacked(hits@, xx, yy),
            decreases max_x as int + 1 - xi,
        {
            let mut yi: usize = min_y as usize;
            while yi <= max_y as usize
                invariant
                    min_y as int <= yi <= max_y as int + 1,
                    forall|yy: int|
                        min_y as int <= yy < yi ==> cell_attacked(hits@, xi as int, yy),
                decreases max_y as int + 1 - yi,
            {
                if !cell_hit(hits, xi as u8, yi as u8) {
                    proof {
                        assert(!cell_attacked(hits@, xi as int, yi as int));
                        assert(!ship_sunk(s, hits@));
                    }
                    return false;
                }
                yi = yi + 1;
            }
            xi = xi + 1;
        }
        proof {
            assert(ship_sunk(s, hits@));
        }
        i = i + 1;
    }
    true
}

/// A copy of a ship placement list.
fn copy_ships(src: &Vec<ShipCoordinates>) -> (r: Vec<ShipCoordinates>)
    ensures
        r@ == src@,
{
    let mut r: Vec<ShipCoordinates> = Vec::new();
    let mut i: usize = 0;
    while i < src.len()
        invariant
            i <= src@.len(),
            r@ == src@.subrange(0, i as int),
        decreases src@.len() - i,
    {
        r.push(src[i]);
        proof {
            assert(r@ =~= src@.subrange(0, i + 1 as int));
        }
        i = i + 1;
    }
    proof {
        assert(r@ =~= src@);
    }
    r
}

/// Determine the winner, finalize the match, and hand both boards back to
/// the durable layer.
///
/// At least one board must be fully sunk, else the call fails
/// `NotAllShipsSunk` and changes nothing. The winner is the owner of the
/// other board; when both boards are simultaneously fully sunk (possible
/// when the final attacks against both land before either reveal), the tie
/// goes to player 1, matching the order in which the boards are examined.
///
/// On success the status advances to `Completed` with the winner recorded,
/// both ship layouts are revealed on the game record for audit/display, the
/// read/mutate restriction on both boards is lifted, and both board records
/// are committed back to the durable layer (`after_commit` of their tags).
///
/// Hazard: this function reads the board content it is handed. Calling it
/// with the durable copy of a board that is still under fast-layer
/// exclusivity reads stale data; the protocol requires both boards to have
/// been committed back first, and the core does not itself detect a
/// violation.
pub fn reveal_winner(game: &mut Game, record_1: &mut BoardRecord, record_2: &mut BoardRecord)
    -> (r: Result<u64, CayedError>)
    requires
        game_wf(*old(game)),
        old(game).status is InProgress || old(game).status is AwaitingWinnerReveal,
        board_wf(old(record_1).board, old(game).grid_size),
        board_wf(old(record_2).board, old(game).grid_size),
        old(record_1).board.game_id == old(game).id,
        old(record_2).board.game_id == old(game).id,
        old(record_1).board.player == old(game).player_1,
        old(game).player_2 matches Some(p2) && old(record_2).board.player == p2,
    ensures
        game_wf(*final(game)),
        status_rank(final(game).status) >= status_rank(old(game).status),
        board_eq(final(record_1).board, old(record_1).board),
        board_eq(final(record_2).board, old(record_2).board),
        ({
            let p1_sunk = board_fully_sunk(old(record_1).board);
            let p2_sunk = board_fully_sunk(old(record_2).board);
            let winner = if p2_sunk {
                old(game).player_1
            } else {
                old(game).player_2->0
            };
            if !p1_sunk && !p2_sunk {
                &&& r == Err::<u64, CayedError>(CayedError::NotAllShipsSunk)
                &&& game_eq(*final(game), *old(game))
                &&& final(record_1).delegation == old(record_1).delegation
                &&& final(record_2).delegation == old(record_2).delegation
                &&& crate::delegation::members_eq(final(record_1).members, old(record_1).members)
                &&& crate::delegation::members_eq(final(record_2).members, old(record_2).members)
            } else {
                &&& r == Ok::<u64, CayedError>(winner)
                &&& final(game).status == (GameStatus::Completed { winner })
                &&& final(game).revealed_ships_player_1@ == old(record_1).board.ship_coordinates@
                &&& final(game).revealed_ships_player_2@ == old(record_2).board.ship_coordinates@
                &&& final(game).id == old(game).id
                &&& final(game).grid_size == old(game).grid_size
                &&& final(game).player_1 == old(game).player_1
                &&& final(game).player_2 == old(game).player_2
                &&& final(game).next_move_player_1 == old(game).next_move_player_1
                &&& final(game).wager == old(game).wager
                &&& final(game).bump == old(game).bump
                &&& final(record_1).members is None
                &&& final(record_2).members is None
                &&& final(record_1).delegation == after_commit(old(record_1).delegation)
                &&& final(record_2).delegation == after_commit(old(record_2).delegation)
            }
        }),
{
    let p1_sunk = all_ships_sunk(&record_1.board);
    let p2_sunk = all_ships_sunk(&record_2.board);
    if !p1_sunk && !p2_sunk {
        return Err(CayedError::NotAllShipsSunk);
    }

    let winner = if p2_sunk {
        game.player_1
    } else {
        game.player_2.unwrap()
    };

    game.status = GameStatus::Completed { winner };
    game.revealed_ships_player_1 = copy_ships(&record_1.board.ship_coordinates);
    game.revealed_ships_player_2 = copy_ships(&record_2.board.ship_coordinates);

    // Lift the fast-layer read/mutate restriction placed on both boards.
    crate::delegation::create_permission(record_1, None);
    crate::delegation::create_permission(record_2, None);

    // Flush both boards back to the durable layer and revoke fast-layer
    // exclusivity. A board that was never delegated has nothing to flush.
    let _ = crate::delegation::commit_and_undelegate(record_1);
    let _ = crate::delegation::commit_and_undelegate(record_2);

    Ok(winner)
}

} // verus!
