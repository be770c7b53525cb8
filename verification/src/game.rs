use vstd::prelude::*;

verus! {

/// The smallest nonzero wager, in base units. A zero wager is always legal.
pub const MIN_WAGER: u64 = 100_000;

/// A ship placement: a rectangle given by two corner coordinates on an
/// 8-bit grid. The corners need not be ordered; the sunk test normalizes
/// them by min/max per axis.
#[derive(Clone, Copy, Debug, PartialEq, Eq, Structural)]
pub struct ShipCoordinates {
    pub start_x: u8,
    pub start_y: u8,
    pub end_x: u8,
    pub end_y: u8,
}

/// Where a match stands. Status only ever advances forward through this
/// list; it never regresses (see `status_rank`). `Cancelled` and
/// `Forfeited` are part of the persisted layout but no instruction here
/// produces them: a match with no further moves simply remains in its
/// current status, and concession or timeout would be a new instruction.
#[derive(Clone, Copy, Debug, PartialEq, Eq, Structural)]
pub enum GameStatus {
    AwaitingPlayerTwo,
    InProgress,
    AwaitingWinnerReveal,
    Completed { winner: u64 },
    Cancelled,
    Forfeited,
}

/// The per-match durable record. Player identities are opaque numeric
/// values; the ledger that persists this record maps them to real keys.
/// `bump` is the derivation nonce used to recompute the record's address.
#[derive(Clone)]
pub struct Game {
    pub id: u64,
    pub grid_size: u8,
    pub player_1: u64,
    pub player_2: Option<u64>,
    pub revealed_ships_player_1: Vec<ShipCoordinates>,
    pub revealed_ships_player_2: Vec<ShipCoordinates>,
    pub next_move_player_1: bool,
    pub wager: u64,
    pub status: GameStatus,
    pub bump: u8,
}

/// How far along the listed states a status stands. The three terminal
/// states share a rank: none of them can be left.
pub open spec fn status_rank(s: GameStatus) -> int {
    match s {
        GameStatus::AwaitingPlayerTwo => 0,
        GameStatus::InProgress => 1,
        GameStatus::AwaitingWinnerReveal => 2,
        GameStatus::Completed { winner: _ } => 3,
        GameStatus::Cancelled => 3,
        GameStatus::Forfeited => 3,
    }
}

/// Well-formedness of a game record:
/// - a nonzero wager is at least the fixed minimum;
/// - the second player, once present, differs from the creator;
/// - the second player is absent exactly while the match awaits one;
/// - a recorded winner is one of the two participants;
/// - at most 5 revealed ship descriptors per player.
pub open spec fn game_wf(g: Game) -> bool {
    &&& g.wager == 0 || g.wager >= MIN_WAGER
    &&& (g.player_2 matches Some(p2) ==> p2 != g.player_1)
    &&& (g.player_2 is None <==> g.status is AwaitingPlayerTwo)
    &&& (g.status matches GameStatus::Completed { winner } ==> winner == g.player_1
        || g.player_2 == Some(winner))
    &&& g.revealed_ships_player_1@.len() <= 5
    &&& g.revealed_ships_player_2@.len() <= 5
}

/// Field-by-field equality of two game records, over the views of the
/// vector fields.
pub open spec fn game_eq(a: Game, b: Game) -> bool {
    &&& a.id == b.id
    &&& a.grid_size == b.grid_size
    &&& a.player_1 == b.player_1
    &&& a.player_2 == b.player_2
    &&& a.revealed_ships_player_1@ == b.revealed_ships_player_1@
    &&& a.revealed_ships_player_2@ == b.revealed_ships_player_2@
    &&& a.next_move_player_1 == b.next_move_player_1
    &&& a.wager == b.wager
    &&& a.status == b.status
    &&& a.bump == b.bump
}

} // verus!
