//! The state of the engine as a mathematical value, and every operation as
//! a function from the state before to the state after, or to the reason of
//! a refusal.

use vstd::prelude::*;

use crate::events::Event;
use crate::ledger::{
    spec_deposit, spec_deposit_both, spec_reserve, spec_unreserve, spec_withdraw,
    spec_withdraw_both, Holdings,
};
use crate::pool::{LBPAssetInfo, Pool, WeightPair};
use crate::pricing::{spec_calculate_buy, spec_calculate_sell, spec_spot_price_or_zero};
use crate::types::{
    AMMTransfer, AccountId, AssetId, AssetPair, Balance, BlockNumber, Error, LBPWeight, Origin,
    PoolId,
};
use crate::weights::WeightCurveType;

verus! {

/// The identifier of the pool of two assets: the smaller asset in the upper
/// half, the larger in the lower half. It does not depend on their order,
/// and no two pairs share one.
pub open spec fn spec_pair_id(asset_a: AssetId, asset_b: AssetId) -> PoolId {
    if asset_a <= asset_b {
        (asset_a as u64 * 0x1_0000_0000 + asset_b as u64) as u64
    } else {
        (asset_b as u64 * 0x1_0000_0000 + asset_a as u64) as u64
    }
}

/// The identifier of the pool that trades `assets`.
pub fn get_pair_id(assets: AssetPair) -> (id: PoolId)
    ensures
        id == spec_pair_id(assets.asset_in, assets.asset_out),
{
    if assets.asset_in <= assets.asset_out {
        assets.asset_in as u64 * 0x1_0000_0000 + assets.asset_out as u64
    } else {
        assets.asset_out as u64 * 0x1_0000_0000 + assets.asset_in as u64
    }
}

/// A pair of assets has one identifier, in whichever order it is given.
pub proof fn lemma_pair_id_symmetric(asset_a: AssetId, asset_b: AssetId)
    ensures
        spec_pair_id(asset_a, asset_b) == spec_pair_id(asset_b, asset_a),
{
}

/// Two pairs with one identifier hold the same two assets.
pub proof fn lemma_pair_id_injective(a: AssetId, b: AssetId, c: AssetId, d: AssetId)
    requires
        spec_pair_id(a, b) == spec_pair_id(c, d),
    ensures
        (a == c && b == d) || (a == d && b == c),
{
}

/// The reserves and weights of a pool as one trade sees them.
#[derive(Clone, Copy, Debug, PartialEq, Eq)]
pub struct Market {
    pub reserve_in: Balance,
    pub reserve_out: Balance,
    pub weight_in: LBPWeight,
    pub weight_out: LBPWeight,
}

/// All that the engine keeps of one pool.
#[derive(Clone, Copy, Debug, PartialEq, Eq)]
pub struct PoolRecord {
    /// The account that created the pool.
    pub owner: AccountId,
    /// What the owner has set aside for the pool, in the native asset.
    pub deposit: Balance,
    /// The two assets, in the order of creation.
    pub assets: (AssetId, AssetId),
    /// What the pool holds of the two assets.
    pub balances: (Balance, Balance),
    /// The sale window, the weights and the pause flag.
    pub data: Pool,
}

impl PoolRecord {
    /// The reserves of the pool, and the weights in `data`, for a trade that
    /// pays in `asset_in`.
    pub open spec fn spec_market(self, asset_in: AssetId, data: Pool) -> Market {
        if asset_in == self.assets.0 {
            Market {
                reserve_in: self.balances.0,
                reserve_out: self.balances.1,
                weight_in: data.last_weights.0.1,
                weight_out: data.last_weights.1.1,
            }
        } else {
            Market {
                reserve_in: self.balances.1,
                reserve_out: self.balances.0,
                weight_in: data.last_weights.1.1,
                weight_out: data.last_weights.0.1,
            }
        }
    }

    /// The reserves of the pool, and the weights in `data`, for a trade that
    /// pays in `asset_in`.
    pub fn market(&self, asset_in: AssetId, data: &Pool) -> (market: Market)
        ensures
            market == self.spec_market(asset_in, *data),
    {
        if asset_in == self.assets.0 {
            Market {
                reserve_in: self.balances.0,
                reserve_out: self.balances.1,
                weight_in: data.last_weights.0.1,
                weight_out: data.last_weights.1.1,
            }
        } else {
            Market {
                reserve_in: self.balances.1,
                reserve_out: self.balances.0,
                weight_in: data.last_weights.1.1,
                weight_out: data.last_weights.0.1,
            }
        }
    }

    /// The record after a trade paid `amount_in` of `asset_in` into the
    /// pool and took `amount_out` of the other asset out of it, with `data`
    /// as the new parameters.
    pub open spec fn spec_after_trade(
        self,
        asset_in: AssetId,
        amount_in: Balance,
        amount_out: Balance,
        data: Pool,
    ) -> PoolRecord {
        if asset_in == self.assets.0 {
            PoolRecord {
                balances: (
                    (self.balances.0 + amount_in) as Balance,
                    (self.balances.1 - amount_out) as Balance,
                ),
                data,
                ..self
            }
        } else {
            PoolRecord {
                balances: (
                    (self.balances.0 - amount_out) as Balance,
                    (self.balances.1 + amount_in) as Balance,
                ),
                data,
                ..self
            }
        }
    }
}

/// The holdings after the owner of a new pool paid in the two initial
/// amounts and set the deposit aside, in that order.
pub open spec fn spec_fund_pool(
    holdings: Holdings,
    owner: AccountId,
    asset_a: AssetId,
    amount_a: Balance,
    asset_b: AssetId,
    amount_b: Balance,
    native_asset: AssetId,
    deposit: Balance,
) -> Result<Holdings, Error> {
    match spec_withdraw_both(holdings, owner, asset_a, amount_a, asset_b, amount_b) {
        Err(_) => Err(Error::InsufficientAssetBalance),
        Ok(paid) => match spec_reserve(paid, native_asset, owner, deposit) {
            Err(Error::Overflow) => Err(Error::Overflow),
            Err(_) => Err(Error::InsufficientAssetBalance),
            Ok(reserved) => Ok(reserved),
        },
    }
}

/// The holdings after the owner of a pool received what the pool held and
/// the deposit was released, in that order.
pub open spec fn spec_release_pool(
    holdings: Holdings,
    owner: AccountId,
    asset_a: AssetId,
    amount_a: Balance,
    asset_b: AssetId,
    amount_b: Balance,
    native_asset: AssetId,
    deposit: Balance,
) -> Result<Holdings, Error> {
    match spec_deposit_both(holdings, owner, asset_a, amount_a, asset_b, amount_b) {
        Err(e) => Err(e),
        Ok(paid) => spec_unreserve(paid, native_asset, owner, deposit),
    }
}

/// The parameters of a pool after an update: each value that is given
/// replaces the old one, the others stay.
pub open spec fn spec_updated_pool(
    data: Pool,
    start: Option<BlockNumber>,
    end: Option<BlockNumber>,
    initial_weights: Option<WeightPair>,
    final_weights: Option<WeightPair>,
) -> Pool {
    Pool {
        start: if start is Some { start->Some_0 } else { data.start },
        end: if end is Some { end->Some_0 } else { data.end },
        initial_weights: if initial_weights is Some {
            initial_weights->Some_0
        } else {
            data.initial_weights
        },
        final_weights: if final_weights is Some {
            final_weights->Some_0
        } else {
            data.final_weights
        },
        ..data
    }
}

/// The whole state of the engine.
pub struct LbpState {
    /// The asset in which deposits are set aside.
    pub native_asset: AssetId,
    /// What the owner of a new pool sets aside.
    pub pool_deposit: Balance,
    /// The pools, by identifier.
    pub pools: Map<PoolId, PoolRecord>,
    /// What every account holds of every asset.
    pub holdings: Holdings,
    /// The events so far, oldest first.
    pub events: Seq<Event>,
}

impl LbpState {
    /// Every pool holds two distinct assets, stands under the identifier of
    /// its pair, has a valid sale window, and is paused only if it can be.
    pub open spec fn wf(self) -> bool {
        forall|id: PoolId| #[trigger]
            self.pools.contains_key(id) ==> {
                &&& self.pools[id].assets.0 != self.pools[id].assets.1
                &&& id == spec_pair_id(self.pools[id].assets.0, self.pools[id].assets.1)
                &&& self.pools[id].data.spec_well_formed()
            }
    }

    /// Whether a pool trades the two assets, in either direction.
    pub open spec fn pool_exists(self, assets: AssetPair) -> bool {
        self.pools.contains_key(spec_pair_id(assets.asset_in, assets.asset_out))
    }

    /// What the pool holds of its two assets; nothing where there is no
    /// such pool.
    pub open spec fn pool_balances(self, pool_id: PoolId) -> (Balance, Balance) {
        if self.pools.contains_key(pool_id) {
            self.pools[pool_id].balances
        } else {
            (0, 0)
        }
    }

    /// What the pool that trades `assets` holds of `asset`, one of the two.
    pub open spec fn reserve_of(self, assets: AssetPair, asset: AssetId) -> Balance {
        let record = self.pools[spec_pair_id(assets.asset_in, assets.asset_out)];
        if asset == record.assets.0 {
            record.balances.0
        } else {
            record.balances.1
        }
    }

    /// The state with one more event.
    pub open spec fn with_event(self, event: Event) -> LbpState {
        LbpState { events: self.events.push(event), ..self }
    }

    /// The state with `record` under `pool_id`.
    pub open spec fn with_pool(self, pool_id: PoolId, record: PoolRecord) -> LbpState {
        LbpState { pools: self.pools.insert(pool_id, record), ..self }
    }

    /// The pool under `pool_id`, for a caller who must own it.
    pub open spec fn owned_pool(self, origin: Origin, pool_id: PoolId) -> Result<
        PoolRecord,
        Error,
    > {
        if origin.spec_signer() is None {
            Err(Error::BadOrigin)
        } else if !self.pools.contains_key(pool_id) {
            Err(Error::PoolNotFound)
        } else if self.pools[pool_id].owner != origin.spec_signer()->Some_0 {
            Err(Error::NotOwner)
        } else {
            Ok(self.pools[pool_id])
        }
    }

    /// Adds `amount` of `asset` to what `who` can spend.
    pub open spec fn deposit(self, asset: AssetId, who: AccountId, amount: Balance) -> Result<
        LbpState,
        Error,
    > {
        match spec_deposit(self.holdings, asset, who, amount) {
            Err(e) => Err(e),
            Ok(holdings) => Ok(LbpState { holdings, ..self }),
        }
    }

    /// Creates the pool of two assets for `pool_owner`.
    ///
    /// Refused, in this order: for an origin that may not create pools; for
    /// twice the same asset; where the pair has a pool; for a sale window
    /// that is not valid; where the owner cannot pay the two amounts and
    /// set the deposit aside.
    pub open spec fn create_pool(
        self,
        origin: Origin,
        pool_owner: AccountId,
        asset_a: LBPAssetInfo,
        asset_b: LBPAssetInfo,
        sale_duration: (BlockNumber, BlockNumber),
        weight_curve: WeightCurveType,
        pausable: bool,
    ) -> Result<LbpState, Error> {
        let pool_id = spec_pair_id(asset_a.id, asset_b.id);
        let data = Pool::spec_new(asset_a, asset_b, sale_duration, weight_curve, pausable);
        if !origin.spec_can_create_pool() {
            Err(Error::BadOrigin)
        } else if asset_a.id == asset_b.id {
            Err(Error::CannotCreatePoolWithSameAssets)
        } else if self.pools.contains_key(pool_id) {
            Err(Error::PoolAlreadyExists)
        } else if data.spec_validate() is Err {
            Err(data.spec_validate()->Err_0)
        } else {
            match spec_fund_pool(
                self.holdings,
                pool_owner,
                asset_a.id,
                asset_a.amount,
                asset_b.id,
                asset_b.amount,
                self.native_asset,
                self.pool_deposit,
            ) {
                Err(e) => Err(e),
                Ok(holdings) => Ok(
                    LbpState {
                        pools: self.pools.insert(
                            pool_id,
                            PoolRecord {
                                owner: pool_owner,
                                deposit: self.pool_deposit,
                                assets: (asset_a.id, asset_b.id),
                                balances: (asset_a.amount, asset_b.amount),
                                data,
                            },
                        ),
                        holdings,
                        events: self.events.push(
                            Event::PoolCreated(
                                pool_owner,
                                pool_id,
                                asset_a.id,
                                asset_b.id,
                                asset_a.amount,
                                asset_b.amount,
                            ),
                        ),
                        ..self
                    },
                ),
            }
        }
    }

    /// Changes the parameters of a pool before its sale starts.
    ///
    /// Refused, in this order: for an origin without a signer; where there
    /// is no such pool; for a caller who does not own it; once the start of
    /// the sale is reached; where nothing is to change; for a sale window
    /// that is not valid.
    pub open spec fn update_pool_data(
        self,
        origin: Origin,
        pool_id: PoolId,
        start: Option<BlockNumber>,
        end: Option<BlockNumber>,
        initial_weights: Option<WeightPair>,
        final_weights: Option<WeightPair>,
        now: BlockNumber,
    ) -> Result<LbpState, Error> {
        match self.owned_pool(origin, pool_id) {
            Err(e) => Err(e),
            Ok(record) => {
                let data = spec_updated_pool(
                    record.data,
                    start,
                    end,
                    initial_weights,
                    final_weights,
                );
                if record.data.spec_has_started(now) {
                    Err(Error::SaleStarted)
                } else if start is None && end is None && initial_weights is None
                    && final_weights is None {
                    Err(Error::NothingToUpdate)
                } else if data.spec_validate() is Err {
                    Err(data.spec_validate()->Err_0)
                } else {
                    Ok(
                        self.with_pool(pool_id, PoolRecord { data, ..record }).with_event(
                            Event::PoolUpdated(record.owner, pool_id),
                        ),
                    )
                }
            },
        }
    }

    /// Pauses a pool.
    ///
    /// Refused, in this order: for an origin without a signer; where there
    /// is no such pool; for a caller who does not own it; for a pool that
    /// cannot be paused; for one that is paused; once the end of the sale is
    /// reached.
    pub open spec fn pause_pool(self, origin: Origin, pool_id: PoolId, now: BlockNumber) -> Result<
        LbpState,
        Error,
    > {
        match self.owned_pool(origin, pool_id) {
            Err(e) => Err(e),
            Ok(record) => if !record.data.pausable {
                Err(Error::PoolIsNotPausable)
            } else if record.data.paused {
                Err(Error::CannotPausePausedPool)
            } else if record.data.spec_has_ended(now) {
                Err(Error::CannotPauseEndedPool)
            } else {
                Ok(
                    self.with_pool(
                        pool_id,
                        PoolRecord { data: Pool { paused: true, ..record.data }, ..record },
                    ).with_event(Event::Paused(record.owner, pool_id)),
                )
            },
        }
    }

    /// Lets a paused pool trade again.
    ///
    /// Refused, in this order: for an origin without a signer; where there
    /// is no such pool; for a caller who does not own it; for a pool that is
    /// not paused; once the end of the sale is reached.
    pub open spec fn unpause_pool(
        self,
        origin: Origin,
        pool_id: PoolId,
        now: BlockNumber,
    ) -> Result<LbpState, Error> {
        match self.owned_pool(origin, pool_id) {
            Err(e) => Err(e),
            Ok(record) => if !record.data.paused {
                Err(Error::PoolIsNotPaused)
            } else if record.data.spec_has_ended(now) {
                Err(Error::CannotUnpauseEndedPool)
            } else {
                Ok(
                    self.with_pool(
                        pool_id,
                        PoolRecord { data: Pool { paused: false, ..record.data }, ..record },
                    ).with_event(Event::Unpaused(record.owner, pool_id)),
                )
            },
        }
    }

    /// Moves assets of the owner into a pool before its sale starts.
    ///
    /// Refused, in this order: for an origin without a signer; where there
    /// is no such pool; for a caller who does not own it; where both
    /// amounts are zero; once the start of the sale is reached; where the
    /// owner cannot pay; where a reserve would not fit.
    pub open spec fn add_liquidity(
        self,
        origin: Origin,
        pool_id: PoolId,
        amount_a: Balance,
        amount_b: Balance,
        now: BlockNumber,
    ) -> Result<LbpState, Error> {
        match self.owned_pool(origin, pool_id) {
            Err(e) => Err(e),
            Ok(record) => if amount_a == 0 && amount_b == 0 {
                Err(Error::CannotAddZeroLiquidity)
            } else if record.data.spec_has_started(now) {
                Err(Error::SaleStarted)
            } else {
                match spec_withdraw_both(
                    self.holdings,
                    record.owner,
                    record.assets.0,
                    amount_a,
                    record.assets.1,
                    amount_b,
                ) {
                    Err(_) => Err(Error::InsufficientAssetBalance),
                    Ok(holdings) => if record.balances.0 + amount_a > Balance::MAX
                        || record.balances.1 + amount_b > Balance::MAX {
                        Err(Error::Overflow)
                    } else {
                        Ok(
                            LbpState {
                                pools: self.pools.insert(
                                    pool_id,
                                    PoolRecord {
                                        balances: (
                                            (record.balances.0 + amount_a) as Balance,
                                            (record.balances.1 + amount_b) as Balance,
                                        ),
                                        ..record
                                    },
                                ),
                                holdings,
                                events: self.events.push(
                                    Event::LiquidityAdded(
                                        pool_id,
                                        record.assets.0,
                                        record.assets.1,
                                        amount_a,
                                        amount_b,
                                    ),
                                ),
                                ..self
                            },
                        )
                    },
                }
            },
        }
    }

    /// Moves assets of a pool back to its owner after the sale.
    ///
    /// Refused, in this order: for an origin without a signer; where there
    /// is no such pool; for a caller who does not own it; where both
    /// amounts are zero; before the end of the sale is reached; where the
    /// pool holds less; where the owner's balance would not fit.
    pub open spec fn remove_liquidity(
        self,
        origin: Origin,
        pool_id: PoolId,
        amount_a: Balance,
        amount_b: Balance,
        now: BlockNumber,
    ) -> Result<LbpState, Error> {
        match self.owned_pool(origin, pool_id) {
            Err(e) => Err(e),
            Ok(record) => if amount_a == 0 && amount_b == 0 {
                Err(Error::CannotRemoveZeroLiquidity)
            } else if !record.data.spec_has_ended(now) {
                Err(Error::SaleNotEnded)
            } else if amount_a > record.balances.0 || amount_b > record.balances.1 {
                Err(Error::LiquidityUnderflow)
            } else {
                match spec_deposit_both(
                    self.holdings,
                    record.owner,
                    record.assets.0,
                    amount_a,
                    record.assets.1,
                    amount_b,
                ) {
                    Err(e) => Err(e),
                    Ok(holdings) => Ok(
                        LbpState {
                            pools: self.pools.insert(
                                pool_id,
                                PoolRecord {
                                    balances: (
                                        (record.balances.0 - amount_a) as Balance,
                                        (record.balances.1 - amount_b) as Balance,
                                    ),
                                    ..record
                                },
                            ),
                            holdings,
                            events: self.events.push(
                                Event::LiquidityRemoved(
                                    pool_id,
                                    record.assets.0,
                                    record.assets.1,
                                    amount_a,
                                    amount_b,
                                ),
                            ),
                            ..self
                        },
                    ),
                }
            },
        }
    }

    /// Ends a pool after its sale: the owner receives all that the pool
    /// holds, the deposit is released, and the pool is gone.
    ///
    /// Refused, in this order: for an origin without a signer; where there
    /// is no such pool; for a caller who does not own it; before the end of
    /// the sale is reached; where the ledger refuses a movement.
    pub open spec fn destroy_pool(
        self,
        origin: Origin,
        pool_id: PoolId,
        now: BlockNumber,
    ) -> Result<LbpState, Error> {
        match self.owned_pool(origin, pool_id) {
            Err(e) => Err(e),
            Ok(record) => if !record.data.spec_has_ended(now) {
                Err(Error::SaleNotEnded)
            } else {
                match spec_release_pool(
                    self.holdings,
                    record.owner,
                    record.assets.0,
                    record.balances.0,
                    record.assets.1,
                    record.balances.1,
                    self.native_asset,
                    record.deposit,
                ) {
                    Err(e) => Err(e),
                    Ok(holdings) => Ok(
                        LbpState {
                            pools: self.pools.remove(pool_id),
                            holdings,
                            events: self.events.push(
                                Event::PoolDestroyed(
                                    pool_id,
                                    record.assets.0,
                                    record.assets.1,
                                    record.balances.0,
                                    record.balances.1,
                                ),
                            ),
                            ..self
                        },
                    ),
                }
            },
        }
    }

    /// Brings the cached weights of a pool up to `now`.
    pub open spec fn update_weights(self, pool_id: PoolId, now: BlockNumber) -> Result<
        LbpState,
        Error,
    > {
        if !self.pools.contains_key(pool_id) {
            Err(Error::PoolNotFound)
        } else {
            Ok(
                self.with_pool(
                    pool_id,
                    PoolRecord {
                        data: self.pools[pool_id].data.spec_refreshed(now),
                        ..self.pools[pool_id]
                    },
                ),
            )
        }
    }

    /// Moves the amounts of a priced trade between the trader and the
    /// pool, puts `data` in place of the pool's parameters, and records
    /// `event` if there is one.
    ///
    /// Refused, in this order: where no pool trades the pair; where the
    /// trader or the pool holds less than it is to pay; where what the pool
    /// or the trader receives does not fit.
    pub open spec fn apply_trade(
        self,
        transfer: AMMTransfer,
        data: Pool,
        event: Option<Event>,
    ) -> Result<LbpState, Error> {
        let asset_in = transfer.assets.asset_in;
        let asset_out = transfer.assets.asset_out;
        let pool_id = spec_pair_id(asset_in, asset_out);
        let who = transfer.origin;
        if !self.pools.contains_key(pool_id) {
            Err(Error::PoolNotFound)
        } else {
            let record = self.pools[pool_id];
            let market = record.spec_market(asset_in, data);
            let pays = self.holdings[(who, asset_in)];
            let receives = self.holdings[(who, asset_out)];
            if pays.free < transfer.amount || market.reserve_out < transfer.amount_out {
                Err(Error::BalanceTooLow)
            } else if market.reserve_in + transfer.amount > Balance::MAX || receives.free
                + transfer.amount_out > Balance::MAX {
                Err(Error::Overflow)
            } else {
                let moved = LbpState {
                    pools: self.pools.insert(
                        pool_id,
                        record.spec_after_trade(
                            asset_in,
                            transfer.amount,
                            transfer.amount_out,
                            data,
                        ),
                    ),
                    holdings: spec_deposit(
                        spec_withdraw(self.holdings, asset_in, who, transfer.amount)->Ok_0,
                        asset_out,
                        who,
                        transfer.amount_out,
                    )->Ok_0,
                    ..self
                };
                Ok(
                    match event {
                        Some(e) => moved.with_event(e),
                        None => moved,
                    },
                )
            }
        }
    }

    /// Executes a priced trade and records nothing.
    pub open spec fn execute_trade(self, transfer: AMMTransfer) -> Result<LbpState, Error> {
        let pool_id = spec_pair_id(transfer.assets.asset_in, transfer.assets.asset_out);
        self.apply_trade(transfer, self.pools[pool_id].data, None)
    }

    /// Executes a priced sale and records it.
    pub open spec fn execute_sell(self, transfer: AMMTransfer) -> Result<LbpState, Error> {
        let pool_id = spec_pair_id(transfer.assets.asset_in, transfer.assets.asset_out);
        self.apply_trade(
            transfer,
            self.pools[pool_id].data,
            Some(
                Event::SellExecuted(
                    transfer.origin,
                    transfer.assets.asset_in,
                    transfer.assets.asset_out,
                    transfer.amount,
                    transfer.amount_out,
                ),
            ),
        )
    }

    /// Executes a priced purchase and records it.
    pub open spec fn execute_buy(self, transfer: AMMTransfer) -> Result<LbpState, Error> {
        let pool_id = spec_pair_id(transfer.assets.asset_in, transfer.assets.asset_out);
        self.apply_trade(
            transfer,
            self.pools[pool_id].data,
            Some(
                Event::BuyExecuted(
                    transfer.origin,
                    transfer.assets.asset_out,
                    transfer.assets.asset_in,
                    transfer.amount,
                    transfer.amount_out,
                ),
            ),
        )
    }

    /// Prices a sale of `amount` of `assets.asset_in` by `who` at time
    /// `now`, with the weights of that time.
    ///
    /// Refused, in this order: for an amount of zero; where no pool trades
    /// the pair; where `who` can spend less than `amount`; where the pool
    /// does not trade at `now`; where the pricing refuses.
    pub open spec fn validate_sell(
        self,
        who: AccountId,
        assets: AssetPair,
        amount: Balance,
        min_bought: Balance,
        now: BlockNumber,
    ) -> Result<AMMTransfer, Error> {
        let pool_id = spec_pair_id(assets.asset_in, assets.asset_out);
        if amount == 0 {
            Err(Error::ZeroAmount)
        } else if !self.pools.contains_key(pool_id) {
            Err(Error::PoolNotFound)
        } else if self.holdings[(who, assets.asset_in)].free < amount {
            Err(Error::InsufficientAssetBalance)
        } else if !self.pools[pool_id].data.spec_is_running(now) {
            Err(Error::SaleIsNotRunning)
        } else {
            let market = self.pools[pool_id].spec_market(
                assets.asset_in,
                self.pools[pool_id].data.spec_refreshed(now),
            );
            match spec_calculate_sell(
                market.reserve_in,
                market.reserve_out,
                market.weight_in,
                market.weight_out,
                amount,
                min_bought,
            ) {
                Err(e) => Err(e),
                Ok(amount_out) => Ok(
                    AMMTransfer {
                        origin: who,
                        assets,
                        amount,
                        amount_out,
                        discount: false,
                        discount_amount: 0,
                    },
                ),
            }
        }
    }

    /// Prices a purchase of `amount` of `assets.asset_out` by `who` at time
    /// `now`, with the weights of that time.
    ///
    /// Refused, in this order: for an amount of zero; where no pool trades
    /// the pair; where `who` can spend less than `max_sold`, the most that
    /// the purchase may cost; where the pool does not trade at `now`; where
    /// the pricing refuses.
    pub open spec fn validate_buy(
        self,
        who: AccountId,
        assets: AssetPair,
        amount: Balance,
        max_sold: Balance,
        now: BlockNumber,
    ) -> Result<AMMTransfer, Error> {
        let pool_id = spec_pair_id(assets.asset_in, assets.asset_out);
        if amount == 0 {
            Err(Error::ZeroAmount)
        } else if !self.pools.contains_key(pool_id) {
            Err(Error::PoolNotFound)
        } else if self.holdings[(who, assets.asset_in)].free < max_sold {
            Err(Error::InsufficientAssetBalance)
        } else if !self.pools[pool_id].data.spec_is_running(now) {
            Err(Error::SaleIsNotRunning)
        } else {
            let market = self.pools[pool_id].spec_market(
                assets.asset_in,
                self.pools[pool_id].data.spec_refreshed(now),
            );
            match spec_calculate_buy(
                market.reserve_in,
                market.reserve_out,
                market.weight_in,
                market.weight_out,
                amount,
                max_sold,
            ) {
                Err(e) => Err(e),
                Ok(amount_in) => Ok(
                    AMMTransfer {
                        origin: who,
                        assets,
                        amount: amount_in,
                        amount_out: amount,
                        discount: false,
                        discount_amount: 0,
                    },
                ),
            }
        }
    }

    /// What `amount` of `asset_a` is worth in `asset_b` in their pool at the
    /// weights of time `now`, whatever the size of the trade and the phase
    /// of the pool; nothing where there is no such pool or no price.
    pub open spec fn spot_price(
        self,
        asset_a: AssetId,
        asset_b: AssetId,
        amount: Balance,
        now: BlockNumber,
    ) -> Balance {
        let pool_id = spec_pair_id(asset_a, asset_b);
        if !self.pools.contains_key(pool_id) {
            0
        } else {
            let market = self.pools[pool_id].spec_market(
                asset_a,
                self.pools[pool_id].data.spec_refreshed(now),
            );
            spec_spot_price_or_zero(
                market.reserve_in,
                market.reserve_out,
                market.weight_in,
                market.weight_out,
                amount,
            )
        }
    }

    /// Sells `amount` of `asset_in` for `asset_out`: prices the sale, then
    /// executes it with the refreshed weights in place.
    pub open spec fn sell(
        self,
        origin: Origin,
        asset_in: AssetId,
        asset_out: AssetId,
        amount: Balance,
        min_bought: Balance,
        now: BlockNumber,
    ) -> Result<LbpState, Error> {
        let assets = AssetPair { asset_in, asset_out };
        let pool_id = spec_pair_id(asset_in, asset_out);
        if origin.spec_signer() is None {
            Err(Error::BadOrigin)
        } else {
            match self.validate_sell(origin.spec_signer()->Some_0, assets, amount, min_bought, now) {
                Err(e) => Err(e),
                Ok(transfer) => self.apply_trade(
                    transfer,
                    self.pools[pool_id].data.spec_refreshed(now),
                    Some(
                        Event::SellExecuted(
                            transfer.origin,
                            asset_in,
                            asset_out,
                            transfer.amount,
                            transfer.amount_out,
                        ),
                    ),
                ),
            }
        }
    }

    /// Buys `amount` of `asset_out` for `asset_in`: prices the purchase,
    /// then executes it with the refreshed weights in place.
    pub open spec fn buy(
        self,
        origin: Origin,
        asset_out: AssetId,
        asset_in: AssetId,
        amount: Balance,
        max_sold: Balance,
        now: BlockNumber,
    ) -> Result<LbpState, Error> {
        let assets = AssetPair { asset_in, asset_out };
        let pool_id = spec_pair_id(asset_in, asset_out);
        if origin.spec_signer() is None {
            Err(Error::BadOrigin)
        } else {
            match self.validate_buy(origin.spec_signer()->Some_0, assets, amount, max_sold, now) {
                Err(e) => Err(e),
                Ok(transfer) => self.apply_trade(
                    transfer,
                    self.pools[pool_id].data.spec_refreshed(now),
                    Some(
                        Event::BuyExecuted(
                            transfer.origin,
                            asset_out,
                            asset_in,
                            transfer.amount,
                            transfer.amount_out,
                        ),
                    ),
                ),
            }
        }
    }
}

} // verus!
