//! The updates of a single position, each checked before it is applied.
use vstd::prelude::*;
use crate::ratio::{healthy, is_healthy};
use crate::types::{DepositState, ErrorCode, Pubkey};

verus! {

impl DepositState {
    /// A zeroed position for `owner`.
    pub fn empty(owner: Pubkey) -> (r: DepositState)
        ensures
            r.owner == owner,
            r.is_empty(),
    {
        DepositState { owner, collateral_amount: 0, debt_amount: 0 }
    }

    /// Locks `amount` more collateral. Adding collateral never lowers the
    /// ratio, so no ratio is checked.
    pub fn increase_collateral(&mut self, amount: u64) -> (r: Result<(), ErrorCode>)
        ensures
            amount == 0 ==> r == Err::<(), ErrorCode>(ErrorCode::InvalidAmount),
            amount > 0 && old(self).collateral_amount + amount > u64::MAX ==> r == Err::<(), ErrorCode>(
                ErrorCode::ArithmeticOverflow,
            ),
            amount > 0 && old(self).collateral_amount + amount <= u64::MAX ==> r is Ok,
            r is Ok ==> *final(self) == (DepositState {
                collateral_amount: (old(self).collateral_amount + amount) as u64,
                ..*old(self)
            }),
            r is Err ==> *final(self) == *old(self),
    {
        if amount == 0 {
            return Err(ErrorCode::InvalidAmount);
        }
        match self.collateral_amount.checked_add(amount) {
            Some(c) => {
                self.collateral_amount = c;
                Ok(())
            },
            None => Err(ErrorCode::ArithmeticOverflow),
        }
    }

    /// Adds `amount` to the debt, provided the position then still meets
    /// `min_ratio` at `price`.
    pub fn increase_debt(&mut self, amount: u64, price: u64, min_ratio: u64) -> (r: Result<
        (),
        ErrorCode,
    >)
        ensures
            amount == 0 ==> r == Err::<(), ErrorCode>(ErrorCode::InvalidAmount),
            amount > 0 && old(self).debt_amount + amount > u64::MAX ==> r == Err::<(), ErrorCode>(
                ErrorCode::ArithmeticOverflow,
            ),
            amount > 0 && old(self).debt_amount + amount <= u64::MAX && !healthy(
                old(self).collateral_amount as int,
                old(self).debt_amount + amount,
                price as int,
                min_ratio as int,
            ) ==> r == Err::<(), ErrorCode>(ErrorCode::CollateralRatioTooLow),
            amount > 0 && old(self).debt_amount + amount <= u64::MAX && healthy(
                old(self).collateral_amount as int,
                old(self).debt_amount + amount,
                price as int,
                min_ratio as int,
            ) ==> r is Ok,
            r is Ok ==> *final(self) == (DepositState {
                debt_amount: (old(self).debt_amount + amount) as u64,
                ..*old(self)
            }),
            r is Ok ==> final(self).healthy_at(price, min_ratio),
            r is Err ==> *final(self) == *old(self),
    {
        if amount == 0 {
            return Err(ErrorCode::InvalidAmount);
        }
        let d = match self.debt_amount.checked_add(amount) {
            Some(d) => d,
            None => return Err(ErrorCode::ArithmeticOverflow),
        };
        if !is_healthy(self.collateral_amount, d, price, min_ratio) {
            return Err(ErrorCode::CollateralRatioTooLow);
        }
        self.debt_amount = d;
        Ok(())
    }

    /// Repays `amount` of the debt. Repaying never lowers the ratio, so no
    /// ratio is checked.
    pub fn decrease_debt(&mut self, amount: u64) -> (r: Result<(), ErrorCode>)
        ensures
            amount > old(self).debt_amount ==> r == Err::<(), ErrorCode>(ErrorCode::InvalidAmount),
            amount <= old(self).debt_amount ==> r is Ok,
            r is Ok ==> *final(self) == (DepositState {
                debt_amount: (old(self).debt_amount - amount) as u64,
                ..*old(self)
            }),
            r is Err ==> *final(self) == *old(self),
    {
        if amount > self.debt_amount {
            return Err(ErrorCode::InvalidAmount);
        }
        self.debt_amount = self.debt_amount - amount;
        Ok(())
    }

    /// Releases `amount` of the collateral, provided the position then still
    /// meets `min_ratio` at `price`.
    pub fn decrease_collateral(&mut self, amount: u64, price: u64, min_ratio: u64) -> (r: Result<
        (),
        ErrorCode,
    >)
        ensures
            amount > old(self).collateral_amount ==> r == Err::<(), ErrorCode>(
                ErrorCode::ArithmeticUnderflow,
            ),
            amount <= old(self).collateral_amount && !healthy(
                old(self).collateral_amount - amount,
                old(self).debt_amount as int,
                price as int,
                min_ratio as int,
            ) ==> r == Err::<(), ErrorCode>(ErrorCode::CollateralRatioTooLow),
            amount <= old(self).collateral_amount && healthy(
                old(self).collateral_amount - amount,
                old(self).debt_amount as int,
                price as int,
                min_ratio as int,
            ) ==> r is Ok,
            r is Ok ==> *final(self) == (DepositState {
                collateral_amount: (old(self).collateral_amount - amount) as u64,
                ..*old(self)
            }),
            r is Ok ==> final(self).healthy_at(price, min_ratio),
            r is Err ==> *final(self) == *old(self),
    {
        if amount > self.collateral_amount {
            return Err(ErrorCode::ArithmeticUnderflow);
        }
        let c = self.collateral_amount - amount;
        if !is_healthy(c, self.debt_amount, price, min_ratio) {
            return Err(ErrorCode::CollateralRatioTooLow);
        }
        self.collateral_amount = c;
        Ok(())
    }
}

} // verus!
