//! Plain values shared by the whole engine: identifiers, amounts, limits,
//! callers and errors.

use vstd::prelude::*;

verus! {

/// An account of the ledger.
pub type AccountId = u64;

/// The identifier of a pool.
pub type PoolId = u64;

/// An asset of the ledger.
pub type AssetId = u32;

/// An amount of an asset.
pub type Balance = u128;

/// The weight of an asset in a pool, a fraction of the sum of both weights.
pub type LBPWeight = u128;

/// A point of the discrete clock.
pub type BlockNumber = u64;

/// A trade may bring in at most this fraction, one over the ratio, of the
/// reserve of the asset it pays in.
pub const MAX_IN_RATIO: u128 = 3;

/// A trade may take out at most this fraction, one over the ratio, of the
/// reserve of the asset it pays out.
pub const MAX_OUT_RATIO: u128 = 3;

/// The longest sale window, in units of the clock.
pub const MAX_SALE_DURATION: u64 = 201_600;

/// The trade fee is `FEE_NUMERATOR / FEE_DENOMINATOR` of the traded amount.
pub const FEE_NUMERATOR: u128 = 2;

/// See [`FEE_NUMERATOR`].
pub const FEE_DENOMINATOR: u128 = 1000;

/// The two assets of a trade, in the direction of the trade.
#[derive(Clone, Copy, Debug, PartialEq, Eq, Structural)]
pub struct AssetPair {
    pub asset_in: AssetId,
    pub asset_out: AssetId,
}

/// A priced trade, ready to be executed: `origin` pays `amount` of
/// `assets.asset_in` and receives `amount_out` of `assets.asset_out`.
#[derive(Clone, Copy, Debug, PartialEq, Eq)]
pub struct AMMTransfer {
    pub origin: AccountId,
    pub assets: AssetPair,
    pub amount: Balance,
    pub amount_out: Balance,
    pub discount: bool,
    pub discount_amount: Balance,
}

/// Who asks for an operation.
#[derive(Clone, Copy, Debug, PartialEq, Eq, Structural)]
pub enum Origin {
    /// The surrounding system itself; it alone may create pools.
    Root,
    /// An account that signed the request.
    Signed(AccountId),
}

impl Origin {
    /// The origin of the surrounding system.
    pub fn root() -> (origin: Origin)
        ensures
            origin == Origin::Root,
    {
        Origin::Root
    }

    /// The origin of a request that `who` signed.
    pub fn signed(who: AccountId) -> (origin: Origin)
        ensures
            origin == Origin::Signed(who),
    {
        Origin::Signed(who)
    }

    /// Whether this origin may create pools.
    pub open spec fn spec_can_create_pool(self) -> bool {
        self == Origin::Root
    }

    /// Whether this origin may create pools.
    pub fn can_create_pool(&self) -> (allowed: bool)
        ensures
            allowed == self.spec_can_create_pool(),
    {
        match self {
            Origin::Root => true,
            Origin::Signed(_) => false,
        }
    }

    /// The account that signed, if one did.
    pub open spec fn spec_signer(self) -> Option<AccountId> {
        match self {
            Origin::Root => None,
            Origin::Signed(who) => Some(who),
        }
    }

    /// The account that signed, if one did.
    pub fn signer(&self) -> (who: Option<AccountId>)
        ensures
            who == self.spec_signer(),
    {
        match self {
            Origin::Root => None,
            Origin::Signed(who) => Some(*who),
        }
    }
}

/// Why an operation was refused. A refused operation changes nothing.
#[derive(Clone, Copy, Debug, PartialEq, Eq, Structural)]
pub enum Error {
    /// The origin may not ask for this operation.
    BadOrigin,
    /// The caller does not own the pool.
    NotOwner,
    /// No pool has this identifier, or trades this pair.
    PoolNotFound,
    /// A pool for this pair of assets exists already.
    PoolAlreadyExists,
    /// A pool needs two distinct assets.
    CannotCreatePoolWithSameAssets,
    /// The sale window ends before it starts.
    InvalidTimeRange,
    /// The sale window is longer than [`MAX_SALE_DURATION`].
    MaxDurationExceeded,
    /// An update names no parameter to change.
    NothingToUpdate,
    /// The start of the sale has been reached.
    SaleStarted,
    /// The end of the sale has not been reached.
    SaleNotEnded,
    /// The pool is not trading at this time.
    SaleIsNotRunning,
    /// The pool was created as one that cannot be paused.
    PoolIsNotPausable,
    /// The pool is paused already.
    CannotPausePausedPool,
    /// The sale is over.
    CannotPauseEndedPool,
    /// The pool is not paused.
    PoolIsNotPaused,
    /// The sale is over.
    CannotUnpauseEndedPool,
    /// Both amounts to add are zero.
    CannotAddZeroLiquidity,
    /// Both amounts to remove are zero.
    CannotRemoveZeroLiquidity,
    /// More is to be removed than the pool holds.
    LiquidityUnderflow,
    /// A trade of nothing.
    ZeroAmount,
    /// The trade pays in too large a part of the reserve.
    MaxInRatioExceeded,
    /// The trade takes out too large a part of the reserve.
    MaxOutRatioExceeded,
    /// The price is worse than the limit that the trader set.
    AssetBalanceLimitExceeded,
    /// The caller holds too little of an asset.
    InsufficientAssetBalance,
    /// A movement of assets asks for more than the paying side holds.
    BalanceTooLow,
    /// An amount does not fit, or the swap arithmetic gave no result.
    Overflow,
}

} // verus!
