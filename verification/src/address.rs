use vstd::prelude::*;

verus! {

/// Which kind of record an address names.
#[derive(Clone, Copy, Debug, PartialEq, Eq, Hash, Structural)]
pub enum RecordKind {
    Config,
    Vault,
    Game,
    Player,
}

/// A deterministic record address: a pure function of the record's kind and
/// its key tuple, so records are located without a secondary index. Keys
/// that a kind does not use are zero. Two addresses are equal exactly when
/// kind and keys are equal, so distinct key tuples never collide.
#[derive(Clone, Copy, Debug, PartialEq, Eq, Hash, Structural)]
pub struct RecordAddress {
    pub kind: RecordKind,
    pub game_id: u64,
    pub owner: u64,
}

/// The address of the administrative record.
pub open spec fn config_address_spec() -> RecordAddress {
    RecordAddress { kind: RecordKind::Config, game_id: 0, owner: 0 }
}

/// The address of the escrow vault.
pub open spec fn vault_address_spec() -> RecordAddress {
    RecordAddress { kind: RecordKind::Vault, game_id: 0, owner: 0 }
}

/// The address of a match's game record, from its match identifier.
pub open spec fn game_address_spec(game_id: u64) -> RecordAddress {
    RecordAddress { kind: RecordKind::Game, game_id, owner: 0 }
}

/// The address of a player's board, from the match identifier and the
/// owner's identity.
pub open spec fn board_address_spec(game_id: u64, owner: u64) -> RecordAddress {
    RecordAddress { kind: RecordKind::Player, game_id, owner }
}

/// Derive the address of the administrative record.
pub fn config_address() -> (a: RecordAddress)
    ensures
        a == config_address_spec(),
{
    RecordAddress { kind: RecordKind::Config, game_id: 0, owner: 0 }
}

/// Derive the address of the escrow vault.
pub fn vault_address() -> (a: RecordAddress)
    ensures
        a == vault_address_spec(),
{
    RecordAddress { kind: RecordKind::Vault, game_id: 0, owner: 0 }
}

/// Derive the address of a match's game record.
pub fn game_address(game_id: u64) -> (a: RecordAddress)
    ensures
        a == game_address_spec(game_id),
{
    RecordAddress { kind: RecordKind::Game, game_id, owner: 0 }
}

/// Derive the address of a player's board.
pub fn board_address(game_id: u64, owner: u64) -> (a: RecordAddress)
    ensures
        a == board_address_spec(game_id, owner),
{
    RecordAddress { kind: RecordKind::Player, game_id, owner }
}

/// Address derivation is collision-free over the whole key domain: two
/// derived addresses are equal only when they name the same kind of record
/// under the same keys.
pub proof fn lemma_addresses_collision_free(id_a: u64, id_b: u64, owner_a: u64, owner_b: u64)
    ensures
        game_address_spec(id_a) == game_address_spec(id_b) ==> id_a == id_b,
        board_address_spec(id_a, owner_a) == board_address_spec(id_b, owner_b)
            ==> id_a == id_b && owner_a == owner_b,
        game_address_spec(id_a) != board_address_spec(id_b, owner_b),
        config_address_spec() != vault_address_spec(),
        game_address_spec(id_a) != config_address_spec(),
        game_address_spec(id_a) != vault_address_spec(),
        board_address_spec(id_a, owner_a) != config_address_spec(),
        board_address_spec(id_a, owner_a) != vault_address_spec(),
{
}

} // verus!
