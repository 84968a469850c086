//! The protocol parameters: set up once, then changed only by their
//! authority.
use vstd::prelude::*;
use crate::ledger::Ledger;
use crate::ratio::{LOWEST_MIN_RATIO, PARITY_PRICE};
use crate::types::{ErrorCode, Initialize, Pubkey, State};

verus! {

/// What `initialize` sets the parameters to, or why it refuses.
pub open spec fn initialize_result(params: Option<State>, ctx: Initialize, min_collat_ratio: u64) -> Result<State, ErrorCode> {
    if params is Some {
        Err(ErrorCode::AlreadyInitialized)
    } else if min_collat_ratio < LOWEST_MIN_RATIO {
        Err(ErrorCode::InvalidConfiguration)
    } else {
        Ok(
            State {
                min_collat_ratio,
                weth_mint: ctx.weth_mint,
                shusd_mint: ctx.shusd_mint,
                authority: ctx.deployer,
                collateral_price: PARITY_PRICE,
            },
        )
    }
}

/// What `update_min_ratio` sets the parameters to, or why it refuses.
pub open spec fn update_min_ratio_result(params: Option<State>, caller: Pubkey, new_ratio: u64) -> Result<State, ErrorCode> {
    match params {
        None => Err(ErrorCode::NotInitialized),
        Some(s) => if caller != s.authority {
            Err(ErrorCode::Unauthorized)
        } else if new_ratio < LOWEST_MIN_RATIO {
            Err(ErrorCode::InvalidConfiguration)
        } else {
            Ok(State { min_collat_ratio: new_ratio, ..s })
        },
    }
}

/// What `update_collateral_price` sets the parameters to, or why it refuses.
pub open spec fn update_price_result(params: Option<State>, caller: Pubkey, price: u64) -> Result<State, ErrorCode> {
    match params {
        None => Err(ErrorCode::NotInitialized),
        Some(s) => if caller != s.authority {
            Err(ErrorCode::Unauthorized)
        } else {
            Ok(State { collateral_price: price, ..s })
        },
    }
}

/// Sets up the parameters, with the deployer as their authority and the
/// collateral priced at parity. Fails when they exist already, or when the
/// minimum ratio is under 100 percent; the ledger is then unchanged.
pub fn initialize(ledger: &mut Ledger, ctx: &Initialize, min_collat_ratio: u64) -> (r: Result<(), ErrorCode>)
    requires
        old(ledger).wf(),
    ensures
        final(ledger).wf(),
        final(ledger).positions() == old(ledger).positions(),
        match initialize_result(old(ledger).params_spec(), *ctx, min_collat_ratio) {
            Ok(s) => r is Ok && final(ledger).params_spec() == Some(s),
            Err(e) => r == Err::<(), ErrorCode>(e) && final(ledger).same_as(old(ledger)),
        },
{
    if ledger.params().is_some() {
        return Err(ErrorCode::AlreadyInitialized);
    }
    if min_collat_ratio < LOWEST_MIN_RATIO {
        return Err(ErrorCode::InvalidConfiguration);
    }
    ledger.set_params(
        State {
            min_collat_ratio,
            weth_mint: ctx.weth_mint,
            shusd_mint: ctx.shusd_mint,
            authority: ctx.deployer,
            collateral_price: PARITY_PRICE,
        },
    );
    Ok(())
}

/// Changes the minimum ratio. Only the authority may, and not below 100
/// percent.
pub fn update_min_ratio(ledger: &mut Ledger, caller: Pubkey, new_ratio: u64) -> (r: Result<(), ErrorCode>)
    requires
        old(ledger).wf(),
    ensures
        final(ledger).wf(),
        final(ledger).positions() == old(ledger).positions(),
        match update_min_ratio_result(old(ledger).params_spec(), caller, new_ratio) {
            Ok(s) => r is Ok && final(ledger).params_spec() == Some(s),
            Err(e) => r == Err::<(), ErrorCode>(e) && final(ledger).same_as(old(ledger)),
        },
{
    let s = match ledger.params() {
        Some(s) => s,
        None => return Err(ErrorCode::NotInitialized),
    };
    if caller != s.authority {
        return Err(ErrorCode::Unauthorized);
    }
    if new_ratio < LOWEST_MIN_RATIO {
        return Err(ErrorCode::InvalidConfiguration);
    }
    ledger.set_params(State { min_collat_ratio: new_ratio, ..s });
    Ok(())
}

/// Records a new value of the collateral, in hundredths of a percent of
/// parity. Only the authority may. A drop can leave positions under the
/// minimum ratio, where they become open to liquidation.
pub fn update_collateral_price(ledger: &mut Ledger, caller: Pubkey, price: u64) -> (r: Result<(), ErrorCode>)
    requires
        old(ledger).wf(),
    ensures
        final(ledger).wf(),
        final(ledger).positions() == old(ledger).positions(),
        match update_price_result(old(ledger).params_spec(), caller, price) {
            Ok(s) => r is Ok && final(ledger).params_spec() == Some(s),
            Err(e) => r == Err::<(), ErrorCode>(e) && final(ledger).same_as(old(ledger)),
        },
{
    let s = match ledger.params() {
        Some(s) => s,
        None => return Err(ErrorCode::NotInitialized),
    };
    if caller != s.authority {
        return Err(ErrorCode::Unauthorized);
    }
    ledger.set_params(State { collateral_price: price, ..s });
    Ok(())
}

} // verus!
