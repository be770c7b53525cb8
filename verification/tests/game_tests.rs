use cayed::{
    create_game, hide_ships, join_game, make_move, reveal_winner, BoardRecord, CayedError,
    Coordinate, DelegationState, Game, GameStatus, PlayerBoard, ShipCoordinates, MIN_WAGER,
};

const PLAYER_1: u64 = 10;
const PLAYER_2: u64 = 11;

fn ship(x0: u8, y0: u8, x1: u8, y1: u8) -> ShipCoordinates {
    ShipCoordinates {
        start_x: x0,
        start_y: y0,
        end_x: x1,
        end_y: y1,
    }
}

/// A joined match: creator `PLAYER_1`, joiner `PLAYER_2`, both boards empty.
fn joined_match(id: u64, grid_size: u8, wager: u64) -> (Game, PlayerBoard, PlayerBoard) {
    let (mut game, board_1) = create_game(id, grid_size, PLAYER_1, wager, 255, 254).unwrap();
    let board_2 = join_game(&mut game, PLAYER_2, 253).unwrap();
    (game, board_1, board_2)
}

fn durable(board: PlayerBoard) -> BoardRecord {
    BoardRecord {
        board,
        delegation: DelegationState::Durable,
        members: None,
    }
}

#[test]
fn create_game_rejects_wager_below_minimum() {
    for wager in [1u64, 2, 99_999] {
        let r = create_game(1, 10, PLAYER_1, wager, 255, 254);
        assert!(matches!(r, Err(CayedError::MinimumWager)));
    }
}

#[test]
fn create_game_accepts_zero_and_minimum_wager() {
    let (game, board) = create_game(1, 10, PLAYER_1, 0, 255, 254).unwrap();
    assert_eq!(game.wager, 0);
    assert_eq!(game.player_1, PLAYER_1);
    assert_eq!(game.player_2, None);
    assert!(matches!(game.status, GameStatus::AwaitingPlayerTwo));
    assert_eq!(board.game_id, 1);
    assert_eq!(board.player, PLAYER_1);
    assert!(board.ship_coordinates.is_empty());
    assert!(board.hits_received.is_empty());

    let (game, _) = create_game(1, 10, PLAYER_1, MIN_WAGER, 255, 254).unwrap();
    assert_eq!(game.wager, MIN_WAGER);
}

#[test]
fn create_game_first_move_follows_id_parity() {
    let (even, _) = create_game(2, 10, PLAYER_1, 0, 255, 254).unwrap();
    assert!(even.next_move_player_1);
    let (odd, _) = create_game(3, 10, PLAYER_1, 0, 255, 254).unwrap();
    assert!(!odd.next_move_player_1);
}

#[test]
fn join_game_by_creator_fails() {
    let (mut game, _) = create_game(1, 10, PLAYER_1, 0, 255, 254).unwrap();
    let r = join_game(&mut game, PLAYER_1, 253);
    assert!(matches!(r, Err(CayedError::CannotJoinSelfGame)));
    assert_eq!(game.player_2, None);
    assert!(matches!(game.status, GameStatus::AwaitingPlayerTwo));
}

#[test]
fn join_game_second_join_fails_game_full() {
    let (mut game, _, _) = joined_match(1, 10, 0);
    let r = join_game(&mut game, 12, 252);
    assert!(matches!(r, Err(CayedError::GameFull)));
    assert_eq!(game.player_2, Some(PLAYER_2));
}

#[test]
fn join_game_sets_second_player_and_status() {
    let (game, _, board_2) = joined_match(1, 10, 0);
    assert_eq!(game.player_2, Some(PLAYER_2));
    assert!(matches!(game.status, GameStatus::InProgress));
    assert_eq!(board_2.game_id, 1);
    assert_eq!(board_2.player, PLAYER_2);
    assert!(board_2.ship_coordinates.is_empty());
    assert!(board_2.hits_received.is_empty());
}

#[test]
fn hide_ships_before_join_fails_game_not_started() {
    let (game, mut board) = create_game(1, 10, PLAYER_1, 0, 255, 254).unwrap();
    let r = hide_ships(&game, &mut board, vec![ship(0, 0, 1, 1)]);
    assert!(matches!(r, Err(CayedError::GameNotStarted)));
    assert!(board.ship_coordinates.is_empty());
}

#[test]
fn hide_ships_rejects_coordinate_outside_half_grid() {
    let (game, mut board, _) = joined_match(1, 10, 0);
    // grid 10: x must stay below 10 and y below 5
    let r = hide_ships(&game, &mut board, vec![ship(0, 0, 0, 5)]);
    assert!(matches!(r, Err(CayedError::InvalidShipPlacement)));
    assert!(board.ship_coordinates.is_empty());

    let r = hide_ships(&game, &mut board, vec![ship(10, 0, 0, 0)]);
    assert!(matches!(r, Err(CayedError::InvalidShipPlacement)));
    assert!(board.ship_coordinates.is_empty());
}

#[test]
fn hide_ships_twice_fails_and_keeps_first_placement() {
    let (game, mut board, _) = joined_match(1, 10, 0);
    let first = vec![ship(0, 0, 1, 1)];
    assert!(hide_ships(&game, &mut board, first.clone()).is_ok());
    assert_eq!(board.ship_coordinates, first);

    let r = hide_ships(&game, &mut board, vec![ship(2, 2, 3, 3)]);
    assert!(matches!(r, Err(CayedError::ShipsAlreadyPlaced)));
    assert_eq!(board.ship_coordinates, first);
}

#[test]
fn make_move_before_ships_placed_fails() {
    let (game, board_1, mut board_2) = joined_match(2, 10, 0);
    let r = make_move(&game, PLAYER_1, PLAYER_2, &board_1, &mut board_2, 0, 0);
    assert!(matches!(r, Err(CayedError::ShipsNotPlaced)));
    assert!(board_2.hits_received.is_empty());
}

#[test]
fn make_move_turn_alternates_from_first_move_flag() {
    // id 2 is even, so the flag is set and player 1 moves on even totals
    let (game, mut board_1, mut board_2) = joined_match(2, 10, 0);
    assert!(game.next_move_player_1);
    assert!(hide_ships(&game, &mut board_1, vec![ship(0, 0, 0, 0)]).is_ok());
    assert!(hide_ships(&game, &mut board_2, vec![ship(1, 1, 1, 1)]).is_ok());

    // zero prior attacks: only player 1 may move
    let r = make_move(&game, PLAYER_2, PLAYER_1, &board_2, &mut board_1, 0, 0);
    assert!(matches!(r, Err(CayedError::InvalidTurn)));
    assert!(board_1.hits_received.is_empty());
    let r = make_move(&game, PLAYER_1, PLAYER_2, &board_1, &mut board_2, 0, 0);
    assert!(r.is_ok());

    // one recorded attack: only player 2 may move
    let r = make_move(&game, PLAYER_1, PLAYER_2, &board_1, &mut board_2, 0, 1);
    assert!(matches!(r, Err(CayedError::InvalidTurn)));
    let r = make_move(&game, PLAYER_2, PLAYER_1, &board_2, &mut board_1, 0, 0);
    assert!(r.is_ok());

    // two recorded attacks: player 1 again
    let r = make_move(&game, PLAYER_2, PLAYER_1, &board_2, &mut board_1, 0, 1);
    assert!(matches!(r, Err(CayedError::InvalidTurn)));
    let r = make_move(&game, PLAYER_1, PLAYER_2, &board_1, &mut board_2, 0, 1);
    assert!(r.is_ok());
}

#[test]
fn turn_strictly_alternates_across_move_counts() {
    let (game, mut board_1, mut board_2) = joined_match(2, 20, 0);
    assert!(hide_ships(&game, &mut board_1, vec![ship(0, 0, 9, 9)]).is_ok());
    assert!(hide_ships(&game, &mut board_2, vec![ship(0, 0, 9, 9)]).is_ok());

    // id 2 is even: player 1 moves at every even total, player 2 at every
    // odd one, and the other caller fails InvalidTurn each time
    for total in 0u8..10 {
        let (mover, idler) = if total % 2 == 0 {
            (PLAYER_1, PLAYER_2)
        } else {
            (PLAYER_2, PLAYER_1)
        };
        let (x, y) = (10 + total / 2, (total / 2) % 10);
        if mover == PLAYER_1 {
            let r = make_move(&game, idler, mover, &board_2, &mut board_1, x, y);
            assert!(matches!(r, Err(CayedError::InvalidTurn)));
            assert!(make_move(&game, mover, idler, &board_1, &mut board_2, x, y).is_ok());
        } else {
            let r = make_move(&game, idler, mover, &board_1, &mut board_2, x, y);
            assert!(matches!(r, Err(CayedError::InvalidTurn)));
            assert!(make_move(&game, mover, idler, &board_2, &mut board_1, x, y).is_ok());
        }
    }
    assert_eq!(
        board_1.hits_received.len() + board_2.hits_received.len(),
        10
    );
}

#[test]
fn make_move_odd_id_gives_joiner_first_move() {
    let (game, mut board_1, mut board_2) = joined_match(3, 10, 0);
    assert!(!game.next_move_player_1);
    assert!(hide_ships(&game, &mut board_1, vec![ship(0, 0, 0, 0)]).is_ok());
    assert!(hide_ships(&game, &mut board_2, vec![ship(1, 1, 1, 1)]).is_ok());

    let r = make_move(&game, PLAYER_1, PLAYER_2, &board_1, &mut board_2, 0, 0);
    assert!(matches!(r, Err(CayedError::InvalidTurn)));
    let r = make_move(&game, PLAYER_2, PLAYER_1, &board_2, &mut board_1, 0, 0);
    assert!(r.is_ok());
}

#[test]
fn make_move_rejects_wrong_opponent() {
    let (game, mut board_1, mut board_2) = joined_match(2, 10, 0);
    assert!(hide_ships(&game, &mut board_1, vec![ship(0, 0, 0, 0)]).is_ok());
    assert!(hide_ships(&game, &mut board_2, vec![ship(1, 1, 1, 1)]).is_ok());

    let r = make_move(&game, PLAYER_1, 12, &board_1, &mut board_2, 0, 0);
    assert!(matches!(r, Err(CayedError::InvalidOpponent)));
    assert!(board_2.hits_received.is_empty());
}

#[test]
fn make_move_rejects_attack_out_of_bounds() {
    let (game, mut board_1, mut board_2) = joined_match(2, 10, 0);
    assert!(hide_ships(&game, &mut board_1, vec![ship(0, 0, 0, 0)]).is_ok());
    assert!(hide_ships(&game, &mut board_2, vec![ship(1, 1, 1, 1)]).is_ok());

    // grid 10: y = 5 is the other half
    let r = make_move(&game, PLAYER_1, PLAYER_2, &board_1, &mut board_2, 0, 5);
    assert!(matches!(r, Err(CayedError::AttackOutOfBounds)));
    let r = make_move(&game, PLAYER_1, PLAYER_2, &board_1, &mut board_2, 10, 0);
    assert!(matches!(r, Err(CayedError::AttackOutOfBounds)));
    assert!(board_2.hits_received.is_empty());
}

#[test]
fn make_move_duplicate_cell_recorded_exactly_once() {
    let (game, mut board_1, mut board_2) = joined_match(2, 10, 0);
    assert!(hide_ships(&game, &mut board_1, vec![ship(0, 0, 0, 0)]).is_ok());
    assert!(hide_ships(&game, &mut board_2, vec![ship(1, 1, 1, 1)]).is_ok());

    assert!(make_move(&game, PLAYER_1, PLAYER_2, &board_1, &mut board_2, 3, 3).is_ok());
    assert!(make_move(&game, PLAYER_2, PLAYER_1, &board_2, &mut board_1, 0, 1).is_ok());

    // player 1 resubmits the same coordinate
    let r = make_move(&game, PLAYER_1, PLAYER_2, &board_1, &mut board_2, 3, 3);
    assert!(matches!(r, Err(CayedError::CellAlreadyAttacked)));
    let count = board_2
        .hits_received
        .iter()
        .filter(|h| h.x == 3 && h.y == 3)
        .count();
    assert_eq!(count, 1);
    assert_eq!(board_2.hits_received, vec![Coordinate { x: 3, y: 3 }]);
}

#[test]
fn reveal_winner_fails_while_no_board_fully_sunk() {
    let (mut game, mut board_1, mut board_2) = joined_match(2, 10, 0);
    assert!(hide_ships(&game, &mut board_1, vec![ship(0, 0, 1, 0)]).is_ok());
    assert!(hide_ships(&game, &mut board_2, vec![ship(1, 1, 2, 1)]).is_ok());

    // one cell of each two-cell ship is hit; one remains uncovered on both
    assert!(make_move(&game, PLAYER_1, PLAYER_2, &board_1, &mut board_2, 1, 1).is_ok());
    assert!(make_move(&game, PLAYER_2, PLAYER_1, &board_2, &mut board_1, 0, 0).is_ok());

    let mut rec_1 = durable(board_1);
    let mut rec_2 = durable(board_2);
    let r = reveal_winner(&mut game, &mut rec_1, &mut rec_2);
    assert!(matches!(r, Err(CayedError::NotAllShipsSunk)));
    assert!(matches!(game.status, GameStatus::InProgress));
}

#[test]
fn reveal_winner_names_owner_of_surviving_board() {
    let (mut game, mut board_1, mut board_2) = joined_match(2, 10, 0);
    assert!(hide_ships(&game, &mut board_1, vec![ship(0, 0, 0, 0)]).is_ok());
    assert!(hide_ships(&game, &mut board_2, vec![ship(2, 2, 2, 2)]).is_ok());

    // player 1 covers player 2's whole ship; player 2 misses
    assert!(make_move(&game, PLAYER_1, PLAYER_2, &board_1, &mut board_2, 2, 2).is_ok());
    assert!(make_move(&game, PLAYER_2, PLAYER_1, &board_2, &mut board_1, 4, 4).is_ok());

    let ships_1 = board_1.ship_coordinates.clone();
    let ships_2 = board_2.ship_coordinates.clone();
    let mut rec_1 = durable(board_1);
    let mut rec_2 = durable(board_2);
    let r = reveal_winner(&mut game, &mut rec_1, &mut rec_2);
    assert_eq!(r, Ok(PLAYER_1));
    assert!(matches!(game.status, GameStatus::Completed { winner } if winner == PLAYER_1));
    assert_eq!(game.revealed_ships_player_1, ships_1);
    assert_eq!(game.revealed_ships_player_2, ships_2);
    assert!(rec_1.members.is_none());
    assert!(rec_2.members.is_none());
}

#[test]
fn reveal_winner_double_sink_goes_to_player_one() {
    let (mut game, mut board_1, mut board_2) = joined_match(2, 4, 0);
    assert!(hide_ships(&game, &mut board_1, vec![ship(0, 0, 0, 0)]).is_ok());
    assert!(hide_ships(&game, &mut board_2, vec![ship(1, 1, 1, 1)]).is_ok());

    assert!(make_move(&game, PLAYER_1, PLAYER_2, &board_1, &mut board_2, 1, 1).is_ok());
    assert!(make_move(&game, PLAYER_2, PLAYER_1, &board_2, &mut board_1, 0, 0).is_ok());

    let mut rec_1 = durable(board_1);
    let mut rec_2 = durable(board_2);
    let r = reveal_winner(&mut game, &mut rec_1, &mut rec_2);
    assert_eq!(r, Ok(PLAYER_1));
}

#[test]
fn full_match_wins_by_first_sink() {
    // create(id 2, grid 4, wager 0), join, 1x1 ships at disjoint cells in
    // each owner's half, alternating moves, player 1 sinks first
    let (mut game, mut board_1, mut board_2) = joined_match(2, 4, 0);
    assert!(hide_ships(&game, &mut board_1, vec![ship(0, 0, 0, 0)]).is_ok());
    assert!(hide_ships(&game, &mut board_2, vec![ship(1, 1, 1, 1)]).is_ok());

    // player 1 misses, player 2 misses, player 1 sinks the ship at (1, 1)
    assert!(make_move(&game, PLAYER_1, PLAYER_2, &board_1, &mut board_2, 0, 0).is_ok());
    assert!(make_move(&game, PLAYER_2, PLAYER_1, &board_2, &mut board_1, 1, 1).is_ok());
    assert!(make_move(&game, PLAYER_1, PLAYER_2, &board_1, &mut board_2, 1, 1).is_ok());

    let mut rec_1 = durable(board_1);
    let mut rec_2 = durable(board_2);
    let r = reveal_winner(&mut game, &mut rec_1, &mut rec_2);
    assert_eq!(r, Ok(PLAYER_1));
    assert!(matches!(game.status, GameStatus::Completed { winner } if winner == PLAYER_1));
}

#[test]
fn reveal_winner_normalizes_ship_corners() {
    // corners given in descending order still describe the same rectangle
    let (mut game, mut board_1, mut board_2) = joined_match(2, 10, 0);
    assert!(hide_ships(&game, &mut board_1, vec![ship(0, 0, 0, 0)]).is_ok());
    assert!(hide_ships(&game, &mut board_2, vec![ship(3, 1, 2, 0)]).is_ok());

    // cover the 2x2 rectangle spanned by (2, 0) and (3, 1)
    assert!(make_move(&game, PLAYER_1, PLAYER_2, &board_1, &mut board_2, 2, 0).is_ok());
    assert!(make_move(&game, PLAYER_2, PLAYER_1, &board_2, &mut board_1, 4, 4).is_ok());
    assert!(make_move(&game, PLAYER_1, PLAYER_2, &board_1, &mut board_2, 2, 1).is_ok());
    assert!(make_move(&game, PLAYER_2, PLAYER_1, &board_2, &mut board_1, 4, 3).is_ok());
    assert!(make_move(&game, PLAYER_1, PLAYER_2, &board_1, &mut board_2, 3, 0).is_ok());
    assert!(make_move(&game, PLAYER_2, PLAYER_1, &board_2, &mut board_1, 4, 2).is_ok());

    let mut rec_1 = durable(board_1.clone());
    let mut rec_2 = durable(board_2.clone());
    let r = reveal_winner(&mut game, &mut rec_1, &mut rec_2);
    assert!(matches!(r, Err(CayedError::NotAllShipsSunk)));

    assert!(make_move(&game, PLAYER_1, PLAYER_2, &board_1, &mut board_2, 3, 1).is_ok());
    let mut rec_1 = durable(board_1);
    let mut rec_2 = durable(board_2);
    let r = reveal_winner(&mut game, &mut rec_1, &mut rec_2);
    assert_eq!(r, Ok(PLAYER_1));
}
