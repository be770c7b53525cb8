//! A two-player, turn-based, wager-escrowing naval-combat game, written as a
//! set of atomic state transitions over durable, address-keyed records.
//!
//! The library holds the verified core: the game state machine (creation,
//! joining, concealed ship placement, turn-ordered attacks, win
//! determination), the two-phase delegation/commit protocol that hands a
//! board record to a low-latency execution context, deterministic record
//! addressing, and the wager/fee settlement arithmetic. Fund transfers and
//! the ledger runtime that persists the records are external collaborators:
//! callers perform them around these transitions.

pub mod address;
pub mod config;
pub mod create_game;
pub mod delegation;
pub mod errors;
pub mod game;
pub mod hide_ships;
pub mod join_game;
pub mod make_move;
pub mod payout;
pub mod player_board;
pub mod reveal_winner;

pub use address::{board_address, game_address, RecordAddress, RecordKind};
pub use config::{init_config, Config};
pub use create_game::create_game;
pub use delegation::{BoardRecord, DelegationState};
pub use errors::CayedError;
pub use game::{Game, GameStatus, ShipCoordinates, MIN_WAGER};
pub use hide_ships::hide_ships;
pub use join_game::join_game;
pub use make_move::make_move;
pub use payout::{payout_split, BPS_DENOMINATOR};
pub use player_board::{Coordinate, PlayerBoard, MAX_HITS, MAX_SHIPS};
pub use reveal_winner::{all_ships_sunk, reveal_winner};
