//! The data of the engine: identities, parameters, position records,
//! requests and errors.
use vstd::prelude::*;

verus! {

/// The identity of an account (an owner, an authority or an asset): a
/// 32-byte key, held as four little-endian 64-bit words.
#[derive(Clone, Copy, Debug, PartialEq, Eq, Structural)]
pub struct Pubkey(pub u64, pub u64, pub u64, pub u64);

/// Why an operation was refused.
#[derive(Clone, Copy, Debug, PartialEq, Eq, Structural)]
pub enum ErrorCode {
    /// The operation would leave a position under the minimum ratio.
    CollateralRatioTooLow,
    /// A minimum ratio under the lowest sane bound was given.
    InvalidConfiguration,
    /// The caller is not the parameters' authority.
    Unauthorized,
    /// The parameters were set up already.
    AlreadyInitialized,
    /// The parameters have not been set up yet.
    NotInitialized,
    /// A zero or otherwise disallowed amount was requested.
    InvalidAmount,
    /// The owner has no position.
    PositionNotFound,
    /// The position still holds collateral or debt.
    PositionNotEmpty,
    /// The position meets the minimum ratio and cannot be liquidated.
    PositionHealthy,
    /// An amount would exceed its representable range.
    ArithmeticOverflow,
    /// An amount would fall below zero.
    ArithmeticUnderflow,
    /// The asset-transfer service failed to move collateral.
    TransferError,
    /// The asset-transfer service failed to mint synthetic units.
    MintError,
    /// The asset-transfer service failed to burn synthetic units.
    BurnError,
}

/// A failure reported by the asset-transfer service.
#[derive(Clone, Copy, Debug, PartialEq, Eq, Structural)]
pub enum AssetError {
    Transfer,
    Mint,
    Burn,
}

/// The error that an operation reports for a failure of the asset-transfer
/// service.
pub open spec fn asset_error_code(e: AssetError) -> ErrorCode {
    match e {
        AssetError::Transfer => ErrorCode::TransferError,
        AssetError::Mint => ErrorCode::MintError,
        AssetError::Burn => ErrorCode::BurnError,
    }
}

/// Maps a failure of the asset-transfer service to the operation's error.
pub fn to_error_code(e: AssetError) -> (r: ErrorCode)
    ensures
        r == asset_error_code(e),
{
    match e {
        AssetError::Transfer => ErrorCode::TransferError,
        AssetError::Mint => ErrorCode::MintError,
        AssetError::Burn => ErrorCode::BurnError,
    }
}

/// The protocol-wide parameters.
#[derive(Clone, Copy, Debug, PartialEq, Eq, Structural)]
pub struct State {
    /// The minimum collateralization ratio, in percent.
    pub min_collat_ratio: u64,
    /// The collateral asset.
    pub weth_mint: Pubkey,
    /// The synthetic asset.
    pub shusd_mint: Pubkey,
    /// The only identity that may change the parameters.
    pub authority: Pubkey,
    /// The value of one collateral unit in synthetic units, in hundredths of a
    /// percent.
    pub collateral_price: u64,
}

impl State {
    /// Parameters are valid when their minimum ratio is at least the lowest
    /// sane bound.
    pub open spec fn wf(self) -> bool {
        self.min_collat_ratio >= crate::ratio::LOWEST_MIN_RATIO
    }
}

/// One owner's position: the collateral locked in its vault and the
/// synthetic units owed against it.
#[derive(Clone, Copy, Debug, PartialEq, Eq, Structural)]
pub struct DepositState {
    pub owner: Pubkey,
    pub collateral_amount: u64,
    pub debt_amount: u64,
}

impl DepositState {
    /// A position that owes nothing and holds nothing.
    pub open spec fn is_empty(self) -> bool {
        self.collateral_amount == 0 && self.debt_amount == 0
    }

    /// The position meets `min_ratio` at `price`.
    pub open spec fn healthy_at(self, price: u64, min_ratio: u64) -> bool {
        crate::ratio::healthy(
            self.collateral_amount as int,
            self.debt_amount as int,
            price as int,
            min_ratio as int,
        )
    }
}

/// A request to set up the parameters.
#[derive(Clone, Copy, Debug, PartialEq, Eq, Structural)]
pub struct Initialize {
    /// The identity that becomes the authority.
    pub deployer: Pubkey,
    pub weth_mint: Pubkey,
    pub shusd_mint: Pubkey,
}

/// A request to lock `amount` collateral and mint `mint_amount` synthetic
/// units against the depositor's position.
#[derive(Clone, Copy, Debug, PartialEq, Eq, Structural)]
pub struct DepositWeth {
    pub depositor: Pubkey,
    pub amount: u64,
    pub mint_amount: u64,
}

/// A request to unwind the depositor's position completely.
#[derive(Clone, Copy, Debug, PartialEq, Eq, Structural)]
pub struct WithdrawWeth {
    pub depositor: Pubkey,
}

/// A request to repay `repay_amount` synthetic units and then release
/// `collateral_amount` collateral, keeping the position open.
#[derive(Clone, Copy, Debug, PartialEq, Eq, Structural)]
pub struct PartialWithdraw {
    pub depositor: Pubkey,
    pub collateral_amount: u64,
    pub repay_amount: u64,
}

} // verus!
