use vstd::prelude::*;

use crate::player_board::PlayerBoard;
use crate::player_board::board_eq;

verus! {

/// Who holds a record under the two-phase ownership handoff. A record is at
/// all times in exactly one of these states, and only the holder of the
/// current state may mutate it:
/// - `Durable`: the durable layer holds the record; its content is final.
/// - `DelegatedTo`: a fast-execution context identified by `executor` holds
///   exclusive mutation rights; the durable copy is stale until reconciled.
/// - `CommitPending`: the record's fast-layer content is being flushed back
///   to the durable layer; nobody may mutate it until the flush lands.
#[derive(Clone, Copy, Debug, PartialEq, Eq, Structural)]
pub enum DelegationState {
    Durable,
    DelegatedTo { executor: u64 },
    CommitPending,
}

/// A board record together with the bookkeeping the delegation protocol
/// keeps beside it: the ownership tag and the identities allowed to
/// read/mutate the record while it is delegated (`None` means the
/// restriction is absent).
#[derive(Clone)]
pub struct BoardRecord {
    pub board: PlayerBoard,
    pub delegation: DelegationState,
    pub members: Option<Vec<u64>>,
}

/// What commit-and-undelegate leaves of an ownership tag: a delegated
/// record starts its flush back to the durable layer; any other record is
/// left as it stands (there is nothing of it on the fast layer to flush).
pub open spec fn after_commit(d: DelegationState) -> DelegationState {
    if d matches DelegationState::DelegatedTo { executor: _ } {
        DelegationState::CommitPending
    } else {
        d
    }
}

/// The permission restriction of two records is equal, over the views of
/// the member lists.
pub open spec fn members_eq(a: Option<Vec<u64>>, b: Option<Vec<u64>>) -> bool {
    match a {
        Some(av) => b matches Some(bv) && av@ == bv@,
        None => b is None,
    }
}

/// Restrict (or, with `None`, lift the restriction on) which identities may
/// read/mutate the record while it is delegated. The board content and the
/// ownership tag are untouched.
pub fn create_permission(record: &mut BoardRecord, members: Option<Vec<u64>>)
    ensures
        members_eq(final(record).members, members),
        board_eq(final(record).board, old(record).board),
        final(record).delegation == old(record).delegation,
{
    record.members = members;
}

/// Grant exclusive mutation rights over the record to the fast-execution
/// context identified by `executor`. Only a durable record can be handed
/// out; the call refuses a record that is already delegated or mid-commit.
pub fn delegate_pda(record: &mut BoardRecord, executor: u64) -> (ok: bool)
    ensures
        ok == (old(record).delegation is Durable),
        ok ==> final(record).delegation == (DelegationState::DelegatedTo { executor }),
        !ok ==> final(record).delegation == old(record).delegation,
        board_eq(final(record).board, old(record).board),
        members_eq(final(record).members, old(record).members),
{
    match record.delegation {
        DelegationState::Durable => {
            record.delegation = DelegationState::DelegatedTo { executor };
            true
        },
        _ => false,
    }
}

/// Start flushing a delegated record's content back to the durable layer
/// and revoke fast-layer exclusivity. Refuses a record that is not
/// delegated. The flush is acknowledged later by `finalize_commit`.
pub fn commit_and_undelegate(record: &mut BoardRecord) -> (ok: bool)
    ensures
        ok == (old(record).delegation is DelegatedTo),
        final(record).delegation == after_commit(old(record).delegation),
        board_eq(final(record).board, old(record).board),
        members_eq(final(record).members, old(record).members),
{
    match record.delegation {
        DelegationState::DelegatedTo { executor: _ } => {
            record.delegation = DelegationState::CommitPending;
            true
        },
        _ => false,
    }
}

/// Acknowledge that the durable layer has absorbed the flushed content:
/// the record is durable again. Refuses a record with no commit in flight.
pub fn finalize_commit(record: &mut BoardRecord) -> (ok: bool)
    ensures
        ok == (old(record).delegation is CommitPending),
        ok ==> final(record).delegation is Durable,
        !ok ==> final(record).delegation == old(record).delegation,
        board_eq(final(record).board, old(record).board),
        members_eq(final(record).members, old(record).members),
{
    match record.delegation {
        DelegationState::CommitPending => {
            record.delegation = DelegationState::Durable;
            true
        },
        _ => false,
    }
}

} // verus!
