//! Properties that relate several operations of the ledger.
use vstd::prelude::*;
use crate::manager::{close_result, deposit_result, withdraw_result};
use crate::types::{DepositState, DepositWeth, ErrorCode, Pubkey, State};

verus! {

/// Closing a position a second time fails with `PositionNotFound`: the first
/// close removed it.
pub proof fn lemma_close_twice(positions: Map<Pubkey, DepositState>, owner: Pubkey)
    requires
        close_result(positions, owner) is Ok,
    ensures
        close_result(positions.remove(owner), owner) == Err::<(), ErrorCode>(
            ErrorCode::PositionNotFound,
        ),
{
}

/// An owner without a position who deposits `amount` without minting and
/// then withdraws fully gets exactly `amount` back, owes nothing, and leaves
/// the positions as they were before the deposit.
pub proof fn lemma_deposit_withdraw_round_trip(
    params: Option<State>,
    positions: Map<Pubkey, DepositState>,
    depositor: Pubkey,
    amount: u64,
)
    requires
        !positions.contains_key(depositor),
        deposit_result(params, positions, DepositWeth { depositor, amount, mint_amount: 0 }) is Ok,
    ensures
        ({
            let p = deposit_result(
                params,
                positions,
                DepositWeth { depositor, amount, mint_amount: 0 },
            )->Ok_0;
            let after = positions.insert(depositor, p);
            &&& withdraw_result(after, depositor) == Ok::<DepositState, ErrorCode>(p)
            &&& p.collateral_amount == amount
            &&& p.debt_amount == 0
            &&& after.remove(depositor) == positions
        }),
{
    let p = deposit_result(params, positions, DepositWeth { depositor, amount, mint_amount: 0 })->Ok_0;
    assert(positions.insert(depositor, p).remove(depositor) =~= positions);
}

/// Every operation on the position of one owner leaves the ledger's other
/// entries as they were: another owner's position keeps its collateral and
/// its debt, and an owner without a position still has none.
pub proof fn lemma_other_owner_unchanged(
    before: Map<Pubkey, DepositState>,
    after: Map<Pubkey, DepositState>,
    owner: Pubkey,
    other: Pubkey,
)
    requires
        after.remove(owner) == before.remove(owner),
        other != owner,
    ensures
        after.contains_key(other) == before.contains_key(other),
        before.contains_key(other) ==> after[other] == before[other],
{
    assert(after.remove(owner).contains_key(other) == after.contains_key(other));
    assert(before.remove(owner).contains_key(other) == before.contains_key(other));
    if before.contains_key(other) {
        assert(after.remove(owner)[other] == after[other]);
        assert(before.remove(owner)[other] == before[other]);
    }
}

} // verus!
