use vstd::prelude::*;

use crate::game::ShipCoordinates;

verus! {

/// The most ship placements a board can hold.
pub const MAX_SHIPS: usize = 5;

/// The most received attacks a board can record. Part of the persisted
/// record layout; callers must stop attacking a board that is full.
pub const MAX_HITS: usize = 50;

/// One cell of the grid.
#[derive(Clone, Copy, Debug, PartialEq, Eq, Structural)]
pub struct Coordinate {
    pub x: u8,
    pub y: u8,
}

/// The per-player durable record for one match: the concealed ship layout
/// (set at most once, then immutable) and the received-attack history
/// (append-only, no duplicate coordinate). `bump` is the derivation nonce.
#[derive(Clone)]
pub struct PlayerBoard {
    pub game_id: u64,
    pub player: u64,
    pub bump: u8,
    pub ship_coordinates: Vec<ShipCoordinates>,
    pub hits_received: Vec<Coordinate>,
}

/// A cell lies on a player's half of the grid: `x < grid_size` and
/// `y < grid_size / 2` (the attackable height is half the grid size).
pub open spec fn coord_in_bounds(x: int, y: int, grid_size: u8) -> bool {
    0 <= x < grid_size && 0 <= y < grid_size as int / 2
}

/// Every corner of the ship rectangle lies on the owner's half of the grid.
pub open spec fn ship_in_bounds(s: ShipCoordinates, grid_size: u8) -> bool {
    &&& coord_in_bounds(s.start_x as int, s.start_y as int, grid_size)
    &&& coord_in_bounds(s.end_x as int, s.end_y as int, grid_size)
}

/// The cell `(x, y)` appears in the received-attack list.
pub open spec fn cell_attacked(hits: Seq<Coordinate>, x: int, y: int) -> bool {
    exists|i: int| 0 <= i < hits.len() && hits[i].x == x && hits[i].y == y
}

/// No coordinate appears twice in the received-attack list.
pub open spec fn no_duplicate_hits(hits: Seq<Coordinate>) -> bool {
    forall|i: int, j: int| 0 <= i < j < hits.len() ==> hits[i] != hits[j]
}

/// Well-formedness of a board against its game's grid size:
/// - at most 5 ships, each within the owner's half of the grid;
/// - at most 50 received attacks, each within the half-grid and unique.
pub open spec fn board_wf(b: PlayerBoard, grid_size: u8) -> bool {
    &&& b.ship_coordinates@.len() <= MAX_SHIPS
    &&& forall|i: int| 0 <= i < b.ship_coordinates@.len()
        ==> ship_in_bounds(#[trigger] b.ship_coordinates@[i], grid_size)
    &&& b.hits_received@.len() <= MAX_HITS
    &&& forall|i: int| 0 <= i < b.hits_received@.len()
        ==> coord_in_bounds(
            (#[trigger] b.hits_received@[i]).x as int,
            b.hits_received@[i].y as int,
            grid_size,
        )
    &&& no_duplicate_hits(b.hits_received@)
}

/// Field-by-field equality of two board records, over the views of the
/// vector fields.
pub open spec fn board_eq(a: PlayerBoard, b: PlayerBoard) -> bool {
    &&& a.game_id == b.game_id
    &&& a.player == b.player
    &&& a.bump == b.bump
    &&& a.ship_coordinates@ == b.ship_coordinates@
    &&& a.hits_received@ == b.hits_received@
}

/// Whether the cell `(x, y)` appears in the received-attack list.
pub fn cell_hit(hits: &Vec<Coordinate>, x: u8, y: u8) -> (r: bool)
    ensures
        r == cell_attacked(hits@, x as int, y as int),
{
    let mut i: usize = 0;
    while i < hits.len()
        invariant
            i <= hits@.len(),
            forall|k: int| 0 <= k < i ==> !(hits@[k].x == x && hits@[k].y == y),
        decreases hits@.len() - i,
    {
        if hits[i].x == x && hits[i].y == y {
            return true;
        }
        i = i + 1;
    }
    false
}

} // verus!
