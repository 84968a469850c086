//! The operations on positions. Each one is planned against the ledger
//! first; the asset transfers it needs are made only when the plan succeeds,
//! and the ledger is changed only when the transfers succeeded too.
use vstd::prelude::*;
use crate::ledger::Ledger;
use crate::ratio::{healthy, lemma_healthy_more_collateral};
use crate::types::{
    asset_error_code, to_error_code, AssetError, DepositState, DepositWeth, ErrorCode,
    PartialWithdraw, Pubkey, State, WithdrawWeth,
};

verus! {

/// The position of `owner`, or a zeroed one when it has none.
pub open spec fn current_position(positions: Map<Pubkey, DepositState>, owner: Pubkey) -> DepositState {
    if positions.contains_key(owner) {
        positions[owner]
    } else {
        DepositState { owner, collateral_amount: 0, debt_amount: 0 }
    }
}

/// The position a deposit leaves, or why it is refused. Minting is checked
/// against the ratio; adding collateral alone is not.
pub open spec fn deposit_result(params: Option<State>, positions: Map<Pubkey, DepositState>, ctx: DepositWeth) -> Result<DepositState, ErrorCode> {
    let cur = current_position(positions, ctx.depositor);
    let c = cur.collateral_amount + ctx.amount;
    let d = cur.debt_amount + ctx.mint_amount;
    if ctx.amount == 0 {
        Err(ErrorCode::InvalidAmount)
    } else if params is None {
        Err(ErrorCode::NotInitialized)
    } else if c > u64::MAX || d > u64::MAX {
        Err(ErrorCode::ArithmeticOverflow)
    } else if ctx.mint_amount > 0 && !healthy(
        c,
        d,
        params->0.collateral_price as int,
        params->0.min_collat_ratio as int,
    ) {
        Err(ErrorCode::CollateralRatioTooLow)
    } else {
        Ok(DepositState { owner: ctx.depositor, collateral_amount: c as u64, debt_amount: d as u64 })
    }
}

/// The position a full withdrawal releases: all of its collateral goes back
/// to the owner and all of its debt is burnt.
pub open spec fn withdraw_result(positions: Map<Pubkey, DepositState>, owner: Pubkey) -> Result<DepositState, ErrorCode> {
    if positions.contains_key(owner) {
        Ok(positions[owner])
    } else {
        Err(ErrorCode::PositionNotFound)
    }
}

/// The position a partial withdrawal leaves, or why it is refused. The debt
/// is repaid first, then the collateral is released against what is left.
pub open spec fn partial_withdraw_result(params: Option<State>, positions: Map<Pubkey, DepositState>, ctx: PartialWithdraw) -> Result<DepositState, ErrorCode> {
    let p = positions[ctx.depositor];
    if params is None {
        Err(ErrorCode::NotInitialized)
    } else if ctx.collateral_amount == 0 && ctx.repay_amount == 0 {
        Err(ErrorCode::InvalidAmount)
    } else if !positions.contains_key(ctx.depositor) {
        Err(ErrorCode::PositionNotFound)
    } else if ctx.repay_amount > p.debt_amount {
        Err(ErrorCode::InvalidAmount)
    } else if ctx.collateral_amount > p.collateral_amount {
        Err(ErrorCode::ArithmeticUnderflow)
    } else if !healthy(
        p.collateral_amount - ctx.collateral_amount,
        p.debt_amount - ctx.repay_amount,
        params->0.collateral_price as int,
        params->0.min_collat_ratio as int,
    ) {
        Err(ErrorCode::CollateralRatioTooLow)
    } else {
        Ok(
            DepositState {
                collateral_amount: (p.collateral_amount - ctx.collateral_amount) as u64,
                debt_amount: (p.debt_amount - ctx.repay_amount) as u64,
                ..p
            },
        )
    }
}

/// The position a liquidation seizes, or why it is refused: only a position
/// under the minimum ratio can be liquidated.
pub open spec fn liquidation_result(params: Option<State>, positions: Map<Pubkey, DepositState>, owner: Pubkey) -> Result<DepositState, ErrorCode> {
    if params is None {
        Err(ErrorCode::NotInitialized)
    } else if !positions.contains_key(owner) {
        Err(ErrorCode::PositionNotFound)
    } else if positions[owner].healthy_at(
        params->0.collateral_price,
        params->0.min_collat_ratio,
    ) {
        Err(ErrorCode::PositionHealthy)
    } else {
        Ok(positions[owner])
    }
}

/// Whether `close` removes the position of `owner`, or why it refuses.
pub open spec fn close_result(positions: Map<Pubkey, DepositState>, owner: Pubkey) -> Result<(), ErrorCode> {
    if !positions.contains_key(owner) {
        Err(ErrorCode::PositionNotFound)
    } else if !positions[owner].is_empty() {
        Err(ErrorCode::PositionNotEmpty)
    } else {
        Ok(())
    }
}

/// Works out the position that a deposit would leave, without changing
/// anything.
pub fn plan_deposit(ledger: &Ledger, ctx: &DepositWeth) -> (r: Result<DepositState, ErrorCode>)
    requires
        ledger.wf(),
    ensures
        r == deposit_result(ledger.params_spec(), ledger.positions(), *ctx),
{
    if ctx.amount == 0 {
        return Err(ErrorCode::InvalidAmount);
    }
    let s = match ledger.params() {
        Some(s) => s,
        None => return Err(ErrorCode::NotInitialized),
    };
    let mut p = match ledger.position(ctx.depositor) {
        Some(p) => p,
        None => DepositState::empty(ctx.depositor),
    };
    if let Err(e) = p.increase_collateral(ctx.amount) {
        return Err(e);
    }
    if ctx.mint_amount > 0 {
        if let Err(e) = p.increase_debt(ctx.mint_amount, s.collateral_price, s.min_collat_ratio) {
            return Err(e);
        }
    }
    Ok(p)
}

/// Locks `ctx.amount` collateral in the depositor's vault and mints
/// `ctx.mint_amount` synthetic units to the depositor, opening the position
/// when there is none. `service` is what the asset-transfer service reported
/// for those transfers; on any refusal or failure the ledger is unchanged.
pub fn deposit_weth_mint_shusd(ledger: &mut Ledger, ctx: &DepositWeth, service: Result<(), AssetError>) -> (r: Result<(), ErrorCode>)
    requires
        old(ledger).wf(),
    ensures
        final(ledger).wf(),
        final(ledger).params_spec() == old(ledger).params_spec(),
        match deposit_result(old(ledger).params_spec(), old(ledger).positions(), *ctx) {
            Err(e) => r == Err::<(), ErrorCode>(e) && final(ledger).same_as(old(ledger)),
            Ok(p) => match service {
                Err(a) => r == Err::<(), ErrorCode>(asset_error_code(a)) && final(ledger).same_as(
                    old(ledger),
                ),
                Ok(_) => r is Ok && final(ledger).positions() == old(ledger).positions().insert(
                    ctx.depositor,
                    p,
                ),
            },
        },
        final(ledger).positions().remove(ctx.depositor) == old(ledger).positions().remove(
            ctx.depositor,
        ),
        r is Ok && (ctx.mint_amount > 0 || current_position(
            old(ledger).positions(),
            ctx.depositor,
        ).healthy_at(
            old(ledger).params_spec()->0.collateral_price,
            old(ledger).params_spec()->0.min_collat_ratio,
        )) ==> final(ledger).positions()[ctx.depositor].healthy_at(
            old(ledger).params_spec()->0.collateral_price,
            old(ledger).params_spec()->0.min_collat_ratio,
        ),
{
    let p = match plan_deposit(ledger, ctx) {
        Ok(p) => p,
        Err(e) => return Err(e),
    };
    if let Err(a) = service {
        return Err(to_error_code(a));
    }
    proof {
        let s = old(ledger).params_spec()->0;
        let cur = current_position(old(ledger).positions(), ctx.depositor);
        if ctx.mint_amount == 0 && cur.healthy_at(s.collateral_price, s.min_collat_ratio) {
            lemma_healthy_more_collateral(
                cur.collateral_amount as int,
                p.collateral_amount as int,
                p.debt_amount as int,
                s.collateral_price as int,
                s.min_collat_ratio as int,
            );
        }
    }
    ledger.store(p);
    proof {
        assert(ledger.positions().remove(ctx.depositor) =~= old(ledger).positions().remove(
            ctx.depositor,
        ));
    }
    Ok(())
}

/// Unwinds the depositor's position completely: its debt is burnt from the
/// depositor, its collateral is released from the vault to the depositor, and
/// the position is removed. Returns the position that was unwound. `service`
/// is what the asset-transfer service reported for the burn and the release.
pub fn withdraw_weth(ledger: &mut Ledger, ctx: &WithdrawWeth, service: Result<(), AssetError>) -> (r: Result<DepositState, ErrorCode>)
    requires
        old(ledger).wf(),
    ensures
        final(ledger).wf(),
        final(ledger).params_spec() == old(ledger).params_spec(),
        match withdraw_result(old(ledger).positions(), ctx.depositor) {
            Err(e) => r == Err::<DepositState, ErrorCode>(e) && final(ledger).same_as(old(ledger)),
            Ok(p) => match service {
                Err(a) => r == Err::<DepositState, ErrorCode>(asset_error_code(a)) && final(ledger).same_as(old(ledger)),
                Ok(_) => r == Ok::<DepositState, ErrorCode>(p) && final(ledger).positions() == old(ledger).positions().remove(ctx.depositor),
            },
        },
        final(ledger).positions().remove(ctx.depositor) == old(ledger).positions().remove(
            ctx.depositor,
        ),
{
    let p = match ledger.position(ctx.depositor) {
        Some(p) => p,
        None => return Err(ErrorCode::PositionNotFound),
    };
    if let Err(a) = service {
        return Err(to_error_code(a));
    }
    ledger.discard(ctx.depositor);
    proof {
        assert(ledger.positions().remove(ctx.depositor) =~= old(ledger).positions().remove(
            ctx.depositor,
        ));
    }
    Ok(p)
}

/// Works out the position that a partial withdrawal would leave, without
/// changing anything.
pub fn plan_partial_withdraw(ledger: &Ledger, ctx: &PartialWithdraw) -> (r: Result<DepositState, ErrorCode>)
    requires
        ledger.wf(),
    ensures
        r == partial_withdraw_result(ledger.params_spec(), ledger.positions(), *ctx),
{
    let s = match ledger.params() {
        Some(s) => s,
        None => return Err(ErrorCode::NotInitialized),
    };
    if ctx.collateral_amount == 0 && ctx.repay_amount == 0 {
        return Err(ErrorCode::InvalidAmount);
    }
    let mut p = match ledger.position(ctx.depositor) {
        Some(p) => p,
        None => return Err(ErrorCode::PositionNotFound),
    };
    if let Err(e) = p.decrease_debt(ctx.repay_amount) {
        return Err(e);
    }
    if let Err(e) = p.decrease_collateral(ctx.collateral_amount, s.collateral_price, s.min_collat_ratio) {
        return Err(e);
    }
    Ok(p)
}

/// Repays `ctx.repay_amount` of the depositor's debt and releases
/// `ctx.collateral_amount` of its collateral, keeping the position open.
/// Returns the position left. `service` is what the asset-transfer service
/// reported for the burn and the release.
pub fn withdraw_partial(ledger: &mut Ledger, ctx: &PartialWithdraw, service: Result<(), AssetError>) -> (r: Result<DepositState, ErrorCode>)
    requires
        old(ledger).wf(),
    ensures
        final(ledger).wf(),
        final(ledger).params_spec() == old(ledger).params_spec(),
        match partial_withdraw_result(old(ledger).params_spec(), old(ledger).positions(), *ctx) {
            Err(e) => r == Err::<DepositState, ErrorCode>(e) && final(ledger).same_as(old(ledger)),
            Ok(p) => match service {
                Err(a) => r == Err::<DepositState, ErrorCode>(asset_error_code(a)) && final(ledger).same_as(old(ledger)),
                Ok(_) => r == Ok::<DepositState, ErrorCode>(p) && final(ledger).positions() == old(ledger).positions().insert(ctx.depositor, p),
            },
        },
        final(ledger).positions().remove(ctx.depositor) == old(ledger).positions().remove(
            ctx.depositor,
        ),
        r is Ok ==> final(ledger).positions()[ctx.depositor].healthy_at(
            old(ledger).params_spec()->0.collateral_price,
            old(ledger).params_spec()->0.min_collat_ratio,
        ),
{
    let p = match plan_partial_withdraw(ledger, ctx) {
        Ok(p) => p,
        Err(e) => return Err(e),
    };
    if let Err(a) = service {
        return Err(to_error_code(a));
    }
    ledger.store(p);
    proof {
        assert(ledger.positions().remove(ctx.depositor) =~= old(ledger).positions().remove(
            ctx.depositor,
        ));
    }
    Ok(p)
}

/// Works out the position that a liquidation would seize, without changing
/// anything.
pub fn plan_liquidation(ledger: &Ledger, owner: Pubkey) -> (r: Result<DepositState, ErrorCode>)
    requires
        ledger.wf(),
    ensures
        r == liquidation_result(ledger.params_spec(), ledger.positions(), owner),
{
    let s = match ledger.params() {
        Some(s) => s,
        None => return Err(ErrorCode::NotInitialized),
    };
    let p = match ledger.position(owner) {
        Some(p) => p,
        None => return Err(ErrorCode::PositionNotFound),
    };
    if crate::ratio::is_healthy(
        p.collateral_amount,
        p.debt_amount,
        s.collateral_price,
        s.min_collat_ratio,
    ) {
        return Err(ErrorCode::PositionHealthy);
    }
    Ok(p)
}

/// Liquidates the position of `owner` on behalf of `liquidator`, who may be
/// any identity: the owner's consent is never asked. The liquidator repays
/// the whole debt, which is burnt, and receives the whole collateral from the
/// vault; the position is removed. Returns the position seized. `service` is
/// what the asset-transfer service reported for the burn and the release.
pub fn liquidate(ledger: &mut Ledger, liquidator: Pubkey, owner: Pubkey, service: Result<(), AssetError>) -> (r: Result<DepositState, ErrorCode>)
    requires
        old(ledger).wf(),
    ensures
        final(ledger).wf(),
        final(ledger).params_spec() == old(ledger).params_spec(),
        match liquidation_result(old(ledger).params_spec(), old(ledger).positions(), owner) {
            Err(e) => r == Err::<DepositState, ErrorCode>(e) && final(ledger).same_as(old(ledger)),
            Ok(p) => match service {
                Err(a) => r == Err::<DepositState, ErrorCode>(asset_error_code(a)) && final(ledger).same_as(old(ledger)),
                Ok(_) => r == Ok::<DepositState, ErrorCode>(p) && final(ledger).positions() == old(ledger).positions().remove(owner),
            },
        },
        final(ledger).positions().remove(owner) == old(ledger).positions().remove(owner),
{
    let p = match plan_liquidation(ledger, owner) {
        Ok(p) => p,
        Err(e) => return Err(e),
    };
    if let Err(a) = service {
        return Err(to_error_code(a));
    }
    ledger.discard(owner);
    proof {
        assert(ledger.positions().remove(owner) =~= old(ledger).positions().remove(owner));
    }
    Ok(p)
}

/// Removes the position of `owner` once it holds no collateral and owes
/// nothing.
pub fn close(ledger: &mut Ledger, owner: Pubkey) -> (r: Result<(), ErrorCode>)
    requires
        old(ledger).wf(),
    ensures
        final(ledger).wf(),
        final(ledger).params_spec() == old(ledger).params_spec(),
        r == close_result(old(ledger).positions(), owner),
        r is Ok ==> final(ledger).positions() == old(ledger).positions().remove(owner),
        r is Err ==> final(ledger).same_as(old(ledger)),
        final(ledger).positions().remove(owner) == old(ledger).positions().remove(owner),
{
    let p = match ledger.position(owner) {
        Some(p) => p,
        None => return Err(ErrorCode::PositionNotFound),
    };
    if p.collateral_amount != 0 || p.debt_amount != 0 {
        return Err(ErrorCode::PositionNotEmpty);
    }
    ledger.discard(owner);
    proof {
        assert(ledger.positions().remove(owner) =~= old(ledger).positions().remove(owner));
    }
    Ok(())
}

} // verus!
