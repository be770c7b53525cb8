use vstd::prelude::*;

verus! {

/// The administrative record: who administers the system, where wagered
/// funds and fees are held, the largest grid a match may use, and the fee
/// taken from each settled pot, in basis points (10,000 = 100%). `bump` is
/// the derivation nonce.
pub struct Config {
    pub authority: u64,
    pub vault: u64,
    pub max_grid_size: u8,
    pub fee: u16,
    pub bump: u8,
}

/// Build the administrative record. Creating the vault it points at — a
/// funded account on the ledger — is the caller's step around this one.
pub fn init_config(authority: u64, vault: u64, max_grid_size: u8, fee: u16, bump: u8)
    -> (c: Config)
    ensures
        c.authority == authority,
        c.vault == vault,
        c.max_grid_size == max_grid_size,
        c.fee == fee,
        c.bump == bump,
{
    Config { authority, vault, max_grid_size, fee, bump }
}

} // verus!
