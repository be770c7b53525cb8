use vstd::prelude::*;

use crate::errors::CayedError;

verus! {

/// The fee denominator: a fee is given in basis points, 10,000 = 100%.
pub const BPS_DENOMINATOR: u64 = 10_000;

/// Split the settled pot of a match between the winner and the fee
/// authority.
///
/// Both participants deposited the same wager, so the pot is twice it. The
/// fee authority takes `pot * fee_bps / 10_000`, rounded down; the winner
/// takes the remainder, which is the expected `pot * (1 - fee_bps/10_000)`.
/// The combination is guarded, not wrapped: a pot past the 64-bit range, or
/// a fee above 100%, fails `Overflow`.
pub fn payout_split(wager: u64, fee_bps: u16) -> (r: Result<(u64, u64), CayedError>)
    ensures
        r is Err <==> 2 * wager > u64::MAX || fee_bps > BPS_DENOMINATOR,
        r is Err ==> r == Err::<(u64, u64), CayedError>(CayedError::Overflow),
        r matches Ok((winner_amount, fee_amount)) ==> {
            &&& fee_amount == 2 * wager * fee_bps / (BPS_DENOMINATOR as int)
            &&& winner_amount + fee_amount == 2 * wager
        },
{
    if wager > u64::MAX / 2 {
        return Err(CayedError::Overflow);
    }
    if fee_bps as u64 > BPS_DENOMINATOR {
        return Err(CayedError::Overflow);
    }

    let pot = wager * 2;
    proof {
        assert((pot as int) * (fee_bps as int) <= (u64::MAX as int) * (BPS_DENOMINATOR as int))
            by (nonlinear_arith)
            requires
                0 <= pot <= u64::MAX,
                0 <= fee_bps <= BPS_DENOMINATOR,
        ;
    }
    let fee_wide = (pot as u128) * (fee_bps as u128) / (BPS_DENOMINATOR as u128);
    proof {
        assert(pot * fee_bps / (BPS_DENOMINATOR as int) <= pot) by (nonlinear_arith)
            requires
                0 <= fee_bps <= BPS_DENOMINATOR,
                0 <= pot,
        ;
    }
    let fee_amount = fee_wide as u64;
    let winner_amount = pot - fee_amount;

    Ok((winner_amount, fee_amount))
}

} // verus!
