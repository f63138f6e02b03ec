//! The engine: the pools, the ledger and the event log, with the
//! operations on them. Each operation either does all of its work or
//! refuses and leaves everything as it was.

use std::collections::HashMap;
use vstd::prelude::*;

use crate::events::Event;
use crate::ledger::{
    lemma_deposit_both_undoes_withdraw_both, lemma_withdraw_both_undoes_deposit_both, Ledger,
};
use crate::pool::{validate_pool_data, LBPAssetInfo, Pool, WeightPair};
use crate::pricing::{calculate_buy, calculate_sell, spot_price};
use crate::state::{
    get_pair_id, spec_fund_pool, spec_pair_id, spec_release_pool, LbpState, PoolRecord,
};
use crate::types::{
    AMMTransfer, AccountId, AssetId, AssetPair, Balance, BlockNumber, Error, Origin, PoolId,
};
use crate::weights::WeightCurveType;

verus! {

broadcast use vstd::std_specs::hash::group_hash_axioms;

/// Pays the two initial amounts of a new pool out of what the owner can
/// spend and sets the deposit aside, or does nothing.
fn fund_pool(
    ledger: &mut Ledger,
    owner: AccountId,
    asset_a: AssetId,
    amount_a: Balance,
    asset_b: AssetId,
    amount_b: Balance,
    native_asset: AssetId,
    deposit: Balance,
) -> (result: Result<(), Error>)
    ensures
        match spec_fund_pool(
            old(ledger)@,
            owner,
            asset_a,
            amount_a,
            asset_b,
            amount_b,
            native_asset,
            deposit,
        ) {
            Ok(holdings) => result == Ok::<(), Error>(()) && final(ledger)@ == holdings,
            Err(e) => result == Err::<(), Error>(e) && final(ledger)@ == old(ledger)@,
        },
{
    match ledger.withdraw_both(owner, asset_a, amount_a, asset_b, amount_b) {
        Err(_) => {
            return Err(Error::InsufficientAssetBalance);
        },
        Ok(()) => {},
    }
    match ledger.reserve(native_asset, owner, deposit) {
        Ok(()) => Ok(()),
        Err(e) => {
            proof {
                old(ledger).lemma_holdings_total();
                lemma_deposit_both_undoes_withdraw_both(
                    old(ledger)@,
                    owner,
                    asset_a,
                    amount_a,
                    asset_b,
                    amount_b,
                );
            }
            let undone = ledger.deposit_both(owner, asset_a, amount_a, asset_b, amount_b);
            match e {
                Error::Overflow => Err(Error::Overflow),
                _ => Err(Error::InsufficientAssetBalance),
            }
        },
    }
}

/// Pays what a pool held to its owner and releases the deposit, or does
/// nothing.
fn release_pool(
    ledger: &mut Ledger,
    owner: AccountId,
    asset_a: AssetId,
    amount_a: Balance,
    asset_b: AssetId,
    amount_b: Balance,
    native_asset: AssetId,
    deposit: Balance,
) -> (result: Result<(), Error>)
    ensures
        match spec_release_pool(
            old(ledger)@,
            owner,
            asset_a,
            amount_a,
            asset_b,
            amount_b,
            native_asset,
            deposit,
        ) {
            Ok(holdings) => result == Ok::<(), Error>(()) && final(ledger)@ == holdings,
            Err(e) => result == Err::<(), Error>(e) && final(ledger)@ == old(ledger)@,
        },
{
    ledger.deposit_both(owner, asset_a, amount_a, asset_b, amount_b)?;
    match ledger.unreserve(native_asset, owner, deposit) {
        Ok(()) => Ok(()),
        Err(e) => {
            proof {
                old(ledger).lemma_holdings_total();
                lemma_withdraw_both_undoes_deposit_both(
                    old(ledger)@,
                    owner,
                    asset_a,
                    amount_a,
                    asset_b,
                    amount_b,
                );
            }
            let undone = ledger.withdraw_both(owner, asset_a, amount_a, asset_b, amount_b);
            Err(e)
        },
    }
}

/// A liquidity bootstrapping pool engine with its own ledger.
#[derive(Debug, PartialEq, Eq)]
pub struct Lbp {
    native_asset: AssetId,
    pool_deposit: Balance,
    pools: HashMap<PoolId, PoolRecord>,
    ledger: Ledger,
    events: Vec<Event>,
}

impl Clone for Lbp {
    /// A second engine in the same state.
    fn clone(&self) -> (copy: Self)
        ensures
            copy@ == self@,
    {
        let events = self.events.clone();
        assert(events@ =~= self.events@);
        Lbp {
            native_asset: self.native_asset,
            pool_deposit: self.pool_deposit,
            pools: self.pools.clone(),
            ledger: self.ledger.clone(),
            events,
        }
    }
}

impl View for Lbp {
    type V = LbpState;

    closed spec fn view(&self) -> LbpState {
        LbpState {
            native_asset: self.native_asset,
            pool_deposit: self.pool_deposit,
            pools: self.pools@,
            holdings: self.ledger@,
            events: self.events@,
        }
    }
}

impl Lbp {
    /// An engine without pools, holdings or events. The owner of a new pool
    /// will set `pool_deposit` of `native_asset` aside.
    pub fn new(native_asset: AssetId, pool_deposit: Balance) -> (lbp: Lbp)
        ensures
            lbp@.native_asset == native_asset,
            lbp@.pool_deposit == pool_deposit,
            lbp@.pools == Map::<PoolId, PoolRecord>::empty(),
            lbp@.holdings == crate::ledger::spec_no_holdings(),
            lbp@.events == Seq::<Event>::empty(),
            lbp@.wf(),
    {
        Lbp {
            native_asset,
            pool_deposit,
            pools: HashMap::new(),
            ledger: Ledger::new(),
            events: Vec::new(),
        }
    }

    /// What `who` can spend of `asset`.
    pub fn free_balance(&self, asset: AssetId, who: AccountId) -> (amount: Balance)
        ensures
            amount == self@.holdings[(who, asset)].free,
    {
        self.ledger.free_balance(asset, who)
    }

    /// What `who` has set aside of `asset`.
    pub fn reserved_balance(&self, asset: AssetId, who: AccountId) -> (amount: Balance)
        ensures
            amount == self@.holdings[(who, asset)].reserved,
    {
        self.ledger.reserved_balance(asset, who)
    }

    /// The events so far, oldest first.
    pub fn events(&self) -> (log: &Vec<Event>)
        ensures
            log@ == self@.events,
    {
        &self.events
    }

    /// Adds `amount` of `asset` to what `who` can spend.
    pub fn deposit(&mut self, asset: AssetId, who: AccountId, amount: Balance) -> (result: Result<
        (),
        Error,
    >)
        ensures
            match old(self)@.deposit(asset, who, amount) {
                Ok(state) => result == Ok::<(), Error>(()) && final(self)@ == state,
                Err(e) => result == Err::<(), Error>(e) && final(self)@ == old(self)@,
            },
            old(self)@.wf() ==> final(self)@.wf(),
    {
        self.ledger.deposit(asset, who, amount)
    }

    /// The record of a pool.
    pub fn pool(&self, pool_id: PoolId) -> (record: Option<PoolRecord>)
        ensures
            record == if self@.pools.contains_key(pool_id) {
                Some(self@.pools[pool_id])
            } else {
                None
            },
    {
        match self.pools.get(&pool_id) {
            Some(record) => Some(*record),
            None => None,
        }
    }

    fn owned_pool(&self, origin: Origin, pool_id: PoolId) -> (result: Result<PoolRecord, Error>)
        ensures
            result == self@.owned_pool(origin, pool_id),
    {
        match origin.signer() {
            None => Err(Error::BadOrigin),
            Some(who) => match self.pool(pool_id) {
                None => Err(Error::PoolNotFound),
                Some(record) => if record.owner != who {
                    Err(Error::NotOwner)
                } else {
                    Ok(record)
                },
            },
        }
    }

    /// Pauses a pool.
    pub fn pause_pool(&mut self, origin: Origin, pool_id: PoolId, now: BlockNumber) -> (result:
        Result<(), Error>)
        ensures
            match old(self)@.pause_pool(origin, pool_id, now) {
                Ok(state) => result == Ok::<(), Error>(()) && final(self)@ == state,
                Err(e) => result == Err::<(), Error>(e) && final(self)@ == old(self)@,
            },
            old(self)@.wf() ==> final(self)@.wf(),
    {
        let record = self.owned_pool(origin, pool_id)?;
        if !record.data.pausable {
            return Err(Error::PoolIsNotPausable);
        }
        if record.data.paused {
            return Err(Error::CannotPausePausedPool);
        }
        if record.data.has_ended(now) {
            return Err(Error::CannotPauseEndedPool);
        }
        let mut updated = record;
        updated.data.paused = true;
        self.pools.insert(pool_id, updated);
        self.events.push(Event::Paused(record.owner, pool_id));
        Ok(())
    }

    /// Lets a paused pool trade again.
    pub fn unpause_pool(&mut self, origin: Origin, pool_id: PoolId, now: BlockNumber) -> (result:
        Result<(), Error>)
        ensures
            match old(self)@.unpause_pool(origin, pool_id, now) {
                Ok(state) => result == Ok::<(), Error>(()) && final(self)@ == state,
                Err(e) => result == Err::<(), Error>(e) && final(self)@ == old(self)@,
            },
            old(self)@.wf() ==> final(self)@.wf(),
    {
        let record = self.owned_pool(origin, pool_id)?;
        if !record.data.paused {
            return Err(Error::PoolIsNotPaused);
        }
        if record.data.has_ended(now) {
            return Err(Error::CannotUnpauseEndedPool);
        }
        let mut updated = record;
        updated.data.paused = false;
        self.pools.insert(pool_id, updated);
        self.events.push(Event::Unpaused(record.owner, pool_id));
        Ok(())
    }

    /// Changes the parameters of a pool before its sale starts: each value
    /// that is given replaces the old one.
    pub fn update_pool_data(
        &mut self,
        origin: Origin,
        pool_id: PoolId,
        start: Option<BlockNumber>,
        end: Option<BlockNumber>,
        initial_weights: Option<WeightPair>,
        final_weights: Option<WeightPair>,
        now: BlockNumber,
    ) -> (result: Result<(), Error>)
        ensures
            match old(self)@.update_pool_data(
                origin,
                pool_id,
                start,
                end,
                initial_weights,
                final_weights,
                now,
            ) {
                Ok(state) => result == Ok::<(), Error>(()) && final(self)@ == state,
                Err(e) => result == Err::<(), Error>(e) && final(self)@ == old(self)@,
            },
            old(self)@.wf() ==> final(self)@.wf(),
    {
        let record = self.owned_pool(origin, pool_id)?;
        if record.data.has_started(now) {
            return Err(Error::SaleStarted);
        }
        if start.is_none() && end.is_none() && initial_weights.is_none() && final_weights.is_none() {
            return Err(Error::NothingToUpdate);
        }
        let mut updated = record;
        if let Some(value) = start {
            updated.data.start = value;
        }
        if let Some(value) = end {
            updated.data.end = value;
        }
        if let Some(value) = initial_weights {
            updated.data.initial_weights = value;
        }
        if let Some(value) = final_weights {
            updated.data.final_weights = value;
        }
        validate_pool_data(&updated.data)?;
        self.pools.insert(pool_id, updated);
        self.events.push(Event::PoolUpdated(record.owner, pool_id));
        Ok(())
    }

    /// Brings the cached weights of a pool up to `now`. A second call at
    /// the same time changes nothing.
    pub fn update_weights(&mut self, pool_id: PoolId, now: BlockNumber) -> (result: Result<
        (),
        Error,
    >)
        ensures
            match old(self)@.update_weights(pool_id, now) {
                Ok(state) => result == Ok::<(), Error>(()) && final(self)@ == state,
                Err(e) => result == Err::<(), Error>(e) && final(self)@ == old(self)@,
            },
            old(self)@.wf() ==> final(self)@.wf(),
    {
        match self.pool(pool_id) {
            None => Err(Error::PoolNotFound),
            Some(record) => {
                let mut updated = record;
                updated.data.update_weights(now);
                self.pools.insert(pool_id, updated);
                Ok(())
            },
        }
    }

    /// Creates the pool of two assets for `pool_owner`, who pays the two
    /// initial amounts and sets the deposit aside. A pool that can be
    /// paused starts paused.
    pub fn create_pool(
        &mut self,
        origin: Origin,
        pool_owner: AccountId,
        asset_a: LBPAssetInfo,
        asset_b: LBPAssetInfo,
        sale_duration: (BlockNumber, BlockNumber),
        weight_curve: WeightCurveType,
        pausable: bool,
    ) -> (result: Result<(), Error>)
        ensures
            match old(self)@.create_pool(
                origin,
                pool_owner,
                asset_a,
                asset_b,
                sale_duration,
                weight_curve,
                pausable,
            ) {
                Ok(state) => result == Ok::<(), Error>(()) && final(self)@ == state,
                Err(e) => result == Err::<(), Error>(e) && final(self)@ == old(self)@,
            },
            old(self)@.wf() ==> final(self)@.wf(),
    {
        if !origin.can_create_pool() {
            return Err(Error::BadOrigin);
        }
        if asset_a.id == asset_b.id {
            return Err(Error::CannotCreatePoolWithSameAssets);
        }
        let pool_id = get_pair_id(AssetPair { asset_in: asset_a.id, asset_out: asset_b.id });
        if self.pools.contains_key(&pool_id) {
            return Err(Error::PoolAlreadyExists);
        }
        let data = Pool::new(asset_a, asset_b, sale_duration, weight_curve, pausable);
        validate_pool_data(&data)?;
        fund_pool(
            &mut self.ledger,
            pool_owner,
            asset_a.id,
            asset_a.amount,
            asset_b.id,
            asset_b.amount,
            self.native_asset,
            self.pool_deposit,
        )?;
        self.pools.insert(
            pool_id,
            PoolRecord {
                owner: pool_owner,
                deposit: self.pool_deposit,
                assets: (asset_a.id, asset_b.id),
                balances: (asset_a.amount, asset_b.amount),
                data,
            },
        );
        self.events.push(
            Event::PoolCreated(
                pool_owner,
                pool_id,
                asset_a.id,
                asset_b.id,
                asset_a.amount,
                asset_b.amount,
            ),
        );
        Ok(())
    }

    /// Moves assets of the owner into a pool before its sale starts. Either
    /// amount may be zero, not both.
    pub fn add_liquidity(
        &mut self,
        origin: Origin,
        pool_id: PoolId,
        amount_a: Balance,
        amount_b: Balance,
        now: BlockNumber,
    ) -> (result: Result<(), Error>)
        ensures
            match old(self)@.add_liquidity(origin, pool_id, amount_a, amount_b, now) {
                Ok(state) => result == Ok::<(), Error>(()) && final(self)@ == state,
                Err(e) => result == Err::<(), Error>(e) && final(self)@ == old(self)@,
            },
            old(self)@.wf() ==> final(self)@.wf(),
    {
        let record = self.owned_pool(origin, pool_id)?;
        if amount_a == 0 && amount_b == 0 {
            return Err(Error::CannotAddZeroLiquidity);
        }
        if record.data.has_started(now) {
            return Err(Error::SaleStarted);
        }
        match self.ledger.withdraw_both(
            record.owner,
            record.assets.0,
            amount_a,
            record.assets.1,
            amount_b,
        ) {
            Err(_) => {
                return Err(Error::InsufficientAssetBalance);
            },
            Ok(()) => {},
        }
        if amount_a > Balance::MAX - record.balances.0 || amount_b > Balance::MAX
            - record.balances.1 {
            proof {
                old(self).ledger.lemma_holdings_total();
                lemma_deposit_both_undoes_withdraw_both(
                    old(self)@.holdings,
                    record.owner,
                    record.assets.0,
                    amount_a,
                    record.assets.1,
                    amount_b,
                );
            }
            let undone = self.ledger.deposit_both(
                record.owner,
                record.assets.0,
                amount_a,
                record.assets.1,
                amount_b,
            );
            return Err(Error::Overflow);
        }
        let mut updated = record;
        updated.balances = (record.balances.0 + amount_a, record.balances.1 + amount_b);
        self.pools.insert(pool_id, updated);
        self.events.push(
            Event::LiquidityAdded(pool_id, record.assets.0, record.assets.1, amount_a, amount_b),
        );
        Ok(())
    }

    /// Moves assets of a pool back to its owner after the sale. Either
    /// amount may be zero, not both.
    pub fn remove_liquidity(
        &mut self,
        origin: Origin,
        pool_id: PoolId,
        amount_a: Balance,
        amount_b: Balance,
        now: BlockNumber,
    ) -> (result: Result<(), Error>)
        ensures
            match old(self)@.remove_liquidity(origin, pool_id, amount_a, amount_b, now) {
                Ok(state) => result == Ok::<(), Error>(()) && final(self)@ == state,
                Err(e) => result == Err::<(), Error>(e) && final(self)@ == old(self)@,
            },
            old(self)@.wf() ==> final(self)@.wf(),
    {
        let record = self.owned_pool(origin, pool_id)?;
        if amount_a == 0 && amount_b == 0 {
            return Err(Error::CannotRemoveZeroLiquidity);
        }
        if !record.data.has_ended(now) {
            return Err(Error::SaleNotEnded);
        }
        if amount_a > record.balances.0 || amount_b > record.balances.1 {
            return Err(Error::LiquidityUnderflow);
        }
        self.ledger.deposit_both(
            record.owner,
            record.assets.0,
            amount_a,
            record.assets.1,
            amount_b,
        )?;
        let mut updated = record;
        updated.balances = (record.balances.0 - amount_a, record.balances.1 - amount_b);
        self.pools.insert(pool_id, updated);
        self.events.push(
            Event::LiquidityRemoved(pool_id, record.assets.0, record.assets.1, amount_a, amount_b),
        );
        Ok(())
    }

    /// Ends a pool after its sale: the owner receives all that the pool
    /// holds, the deposit is released, and nothing of the pool is left.
    pub fn destroy_pool(&mut self, origin: Origin, pool_id: PoolId, now: BlockNumber) -> (result:
        Result<(), Error>)
        ensures
            match old(self)@.destroy_pool(origin, pool_id, now) {
                Ok(state) => result == Ok::<(), Error>(()) && final(self)@ == state,
                Err(e) => result == Err::<(), Error>(e) && final(self)@ == old(self)@,
            },
            old(self)@.wf() ==> final(self)@.wf(),
    {
        let record = self.owned_pool(origin, pool_id)?;
        if !record.data.has_ended(now) {
            return Err(Error::SaleNotEnded);
        }
        release_pool(
            &mut self.ledger,
            record.owner,
            record.assets.0,
            record.balances.0,
            record.assets.1,
            record.balances.1,
            self.native_asset,
            record.deposit,
        )?;
        self.pools.remove(&pool_id);
        self.events.push(
            Event::PoolDestroyed(
                pool_id,
                record.assets.0,
                record.assets.1,
                record.balances.0,
                record.balances.1,
            ),
        );
        Ok(())
    }

    fn apply_trade(&mut self, transfer: &AMMTransfer, data: Pool, event: Option<Event>) -> (result:
        Result<(), Error>)
        ensures
            match old(self)@.apply_trade(*transfer, data, event) {
                Ok(state) => result == Ok::<(), Error>(()) && final(self)@ == state,
                Err(e) => result == Err::<(), Error>(e) && final(self)@ == old(self)@,
            },
            old(self)@.wf() && data.spec_well_formed() ==> final(self)@.wf(),
    {
        let asset_in = transfer.assets.asset_in;
        let asset_out = transfer.assets.asset_out;
        let who = transfer.origin;
        let pool_id = get_pair_id(transfer.assets);
        let record = match self.pool(pool_id) {
            None => {
                return Err(Error::PoolNotFound);
            },
            Some(record) => record,
        };
        let market = record.market(asset_in, &data);
        let pays = self.ledger.free_balance(asset_in, who);
        let receives = self.ledger.free_balance(asset_out, who);
        if pays < transfer.amount || market.reserve_out < transfer.amount_out {
            return Err(Error::BalanceTooLow);
        }
        if transfer.amount > Balance::MAX - market.reserve_in || transfer.amount_out > Balance::MAX
            - receives {
            return Err(Error::Overflow);
        }
        let mut updated = record;
        updated.data = data;
        if asset_in == record.assets.0 {
            updated.balances = (
                record.balances.0 + transfer.amount,
                record.balances.1 - transfer.amount_out,
            );
        } else {
            updated.balances = (
                record.balances.0 - transfer.amount_out,
                record.balances.1 + transfer.amount,
            );
        }
        let paid = self.ledger.withdraw(asset_in, who, transfer.amount);
        let received = self.ledger.deposit(asset_out, who, transfer.amount_out);
        self.pools.insert(pool_id, updated);
        if let Some(e) = event {
            self.events.push(e);
        }
        Ok(())
    }

    /// Executes a priced trade: the trader pays `transfer.amount` of the
    /// input asset into the pool and receives `transfer.amount_out` of the
    /// output asset from it. Nothing is recorded in the event log.
    pub fn execute_trade(&mut self, transfer: &AMMTransfer) -> (result: Result<(), Error>)
        ensures
            match old(self)@.execute_trade(*transfer) {
                Ok(state) => result == Ok::<(), Error>(()) && final(self)@ == state,
                Err(e) => result == Err::<(), Error>(e) && final(self)@ == old(self)@,
            },
            old(self)@.wf() ==> final(self)@.wf(),
    {
        match self.pool(get_pair_id(transfer.assets)) {
            None => Err(Error::PoolNotFound),
            Some(record) => self.apply_trade(transfer, record.data, None),
        }
    }

    /// Executes a priced sale and records it.
    pub fn execute_sell(&mut self, transfer: &AMMTransfer) -> (result: Result<(), Error>)
        ensures
            match old(self)@.execute_sell(*transfer) {
                Ok(state) => result == Ok::<(), Error>(()) && final(self)@ == state,
                Err(e) => result == Err::<(), Error>(e) && final(self)@ == old(self)@,
            },
            old(self)@.wf() ==> final(self)@.wf(),
    {
        match self.pool(get_pair_id(transfer.assets)) {
            None => Err(Error::PoolNotFound),
            Some(record) => self.apply_trade(
                transfer,
                record.data,
                Some(
                    Event::SellExecuted(
                        transfer.origin,
                        transfer.assets.asset_in,
                        transfer.assets.asset_out,
                        transfer.amount,
                        transfer.amount_out,
                    ),
                ),
            ),
        }
    }

    /// Executes a priced purchase and records it.
    pub fn execute_buy(&mut self, transfer: &AMMTransfer) -> (result: Result<(), Error>)
        ensures
            match old(self)@.execute_buy(*transfer) {
                Ok(state) => result == Ok::<(), Error>(()) && final(self)@ == state,
                Err(e) => result == Err::<(), Error>(e) && final(self)@ == old(self)@,
            },
            old(self)@.wf() ==> final(self)@.wf(),
    {
        match self.pool(get_pair_id(transfer.assets)) {
            None => Err(Error::PoolNotFound),
            Some(record) => self.apply_trade(
                transfer,
                record.data,
                Some(
                    Event::BuyExecuted(
                        transfer.origin,
                        transfer.assets.asset_out,
                        transfer.assets.asset_in,
                        transfer.amount,
                        transfer.amount_out,
                    ),
                ),
            ),
        }
    }

    /// Prices a sale of `amount` of `assets.asset_in` by `who` at time
    /// `now`, with the weights of that time. Nothing changes.
    pub fn validate_sell(
        &self,
        who: AccountId,
        assets: AssetPair,
        amount: Balance,
        min_bought: Balance,
        now: BlockNumber,
    ) -> (result: Result<AMMTransfer, Error>)
        ensures
            result == self@.validate_sell(who, assets, amount, min_bought, now),
    {
        if amount == 0 {
            return Err(Error::ZeroAmount);
        }
        let record = match self.pool(get_pair_id(assets)) {
            None => {
                return Err(Error::PoolNotFound);
            },
            Some(record) => record,
        };
        if self.ledger.free_balance(assets.asset_in, who) < amount {
            return Err(Error::InsufficientAssetBalance);
        }
        if !record.data.is_running(now) {
            return Err(Error::SaleIsNotRunning);
        }
        let mut data = record.data;
        data.update_weights(now);
        let market = record.market(assets.asset_in, &data);
        let amount_out = calculate_sell(
            market.reserve_in,
            market.reserve_out,
            market.weight_in,
            market.weight_out,
            amount,
            min_bought,
        )?;
        Ok(
            AMMTransfer {
                origin: who,
                assets,
                amount,
                amount_out,
                discount: false,
                discount_amount: 0,
            },
        )
    }

    /// Prices a purchase of `amount` of `assets.asset_out` by `who` at time
    /// `now`, with the weights of that time. Nothing changes.
    pub fn validate_buy(
        &self,
        who: AccountId,
        assets: AssetPair,
        amount: Balance,
        max_sold: Balance,
        now: BlockNumber,
    ) -> (result: Result<AMMTransfer, Error>)
        ensures
            result == self@.validate_buy(who, assets, amount, max_sold, now),
    {
        if amount == 0 {
            return Err(Error::ZeroAmount);
        }
        let record = match self.pool(get_pair_id(assets)) {
            None => {
                return Err(Error::PoolNotFound);
            },
            Some(record) => record,
        };
        if self.ledger.free_balance(assets.asset_in, who) < max_sold {
            return Err(Error::InsufficientAssetBalance);
        }
        if !record.data.is_running(now) {
            return Err(Error::SaleIsNotRunning);
        }
        let mut data = record.data;
        data.update_weights(now);
        let market = record.market(assets.asset_in, &data);
        let amount_in = calculate_buy(
            market.reserve_in,
            market.reserve_out,
            market.weight_in,
            market.weight_out,
            amount,
            max_sold,
        )?;
        Ok(
            AMMTransfer {
                origin: who,
                assets,
                amount: amount_in,
                amount_out: amount,
                discount: false,
                discount_amount: 0,
            },
        )
    }

    /// Sells `amount` of `asset_in` for at least `min_bought` of
    /// `asset_out`, at the weights of time `now`, which the pool keeps.
    pub fn sell(
        &mut self,
        origin: Origin,
        asset_in: AssetId,
        asset_out: AssetId,
        amount: Balance,
        min_bought: Balance,
        now: BlockNumber,
    ) -> (result: Result<(), Error>)
        ensures
            match old(self)@.sell(origin, asset_in, asset_out, amount, min_bought, now) {
                Ok(state) => result == Ok::<(), Error>(()) && final(self)@ == state,
                Err(e) => result == Err::<(), Error>(e) && final(self)@ == old(self)@,
            },
            old(self)@.wf() ==> final(self)@.wf(),
    {
        let who = match origin.signer() {
            None => {
                return Err(Error::BadOrigin);
            },
            Some(who) => who,
        };
        let assets = AssetPair { asset_in, asset_out };
        let transfer = self.validate_sell(who, assets, amount, min_bought, now)?;
        let mut data = match self.pool(get_pair_id(assets)) {
            None => {
                return Err(Error::PoolNotFound);
            },
            Some(record) => record.data,
        };
        data.update_weights(now);
        self.apply_trade(
            &transfer,
            data,
            Some(
                Event::SellExecuted(who, asset_in, asset_out, transfer.amount, transfer.amount_out),
            ),
        )
    }

    /// Buys `amount` of `asset_out` for at most `max_sold` of `asset_in`,
    /// at the weights of time `now`, which the pool keeps.
    pub fn buy(
        &mut self,
        origin: Origin,
        asset_out: AssetId,
        asset_in: AssetId,
        amount: Balance,
        max_sold: Balance,
        now: BlockNumber,
    ) -> (result: Result<(), Error>)
        ensures
            match old(self)@.buy(origin, asset_out, asset_in, amount, max_sold, now) {
                Ok(state) => result == Ok::<(), Error>(()) && final(self)@ == state,
                Err(e) => result == Err::<(), Error>(e) && final(self)@ == old(self)@,
            },
            old(self)@.wf() ==> final(self)@.wf(),
    {
        let who = match origin.signer() {
            None => {
                return Err(Error::BadOrigin);
            },
            Some(who) => who,
        };
        let assets = AssetPair { asset_in, asset_out };
        let transfer = self.validate_buy(who, assets, amount, max_sold, now)?;
        let mut data = match self.pool(get_pair_id(assets)) {
            None => {
                return Err(Error::PoolNotFound);
            },
            Some(record) => record.data,
        };
        data.update_weights(now);
        self.apply_trade(
            &transfer,
            data,
            Some(
                Event::BuyExecuted(who, asset_out, asset_in, transfer.amount, transfer.amount_out),
            ),
        )
    }

    /// What `amount` of `asset_a` is worth in `asset_b` in their pool at the
    /// weights of time `now`, whatever the size of the trade and the phase
    /// of the pool; nothing where there is no such pool or no price.
    pub fn get_spot_price_unchecked(
        &self,
        asset_a: AssetId,
        asset_b: AssetId,
        amount: Balance,
        now: BlockNumber,
    ) -> (price: Balance)
        ensures
            price == self@.spot_price(asset_a, asset_b, amount, now),
    {
        match self.pool(get_pair_id(AssetPair { asset_in: asset_a, asset_out: asset_b })) {
            None => 0,
            Some(record) => {
                let mut data = record.data;
                data.update_weights(now);
                let market = record.market(asset_a, &data);
                spot_price(
                    market.reserve_in,
                    market.reserve_out,
                    market.weight_in,
                    market.weight_out,
                    amount,
                )
            },
        }
    }

    /// Whether a pool trades the two assets, in either direction.
    pub fn pool_exists(&self, assets: AssetPair) -> (found: bool)
        ensures
            found == self@.pool_exists(assets),
    {
        self.pools.contains_key(&get_pair_id(assets))
    }

    /// The parameters of a pool.
    pub fn pool_data(&self, pool_id: PoolId) -> (data: Option<Pool>)
        ensures
            data == if self@.pools.contains_key(pool_id) {
                Some(self@.pools[pool_id].data)
            } else {
                None
            },
    {
        match self.pool(pool_id) {
            Some(record) => Some(record.data),
            None => None,
        }
    }

    /// The owner of a pool.
    pub fn pool_owner(&self, pool_id: PoolId) -> (owner: Option<AccountId>)
        ensures
            owner == if self@.pools.contains_key(pool_id) {
                Some(self@.pools[pool_id].owner)
            } else {
                None
            },
    {
        match self.pool(pool_id) {
            Some(record) => Some(record.owner),
            None => None,
        }
    }

    /// What the owner of a pool has set aside for it.
    pub fn pool_deposit(&self, pool_id: PoolId) -> (deposit: Option<Balance>)
        ensures
            deposit == if self@.pools.contains_key(pool_id) {
                Some(self@.pools[pool_id].deposit)
            } else {
                None
            },
    {
        match self.pool(pool_id) {
            Some(record) => Some(record.deposit),
            None => None,
        }
    }

    /// The two assets of a pool, in the order of creation.
    pub fn pool_assets(&self, pool_id: PoolId) -> (assets: Option<(AssetId, AssetId)>)
        ensures
            assets == if self@.pools.contains_key(pool_id) {
                Some(self@.pools[pool_id].assets)
            } else {
                None
            },
    {
        match self.pool(pool_id) {
            Some(record) => Some(record.assets),
            None => None,
        }
    }

    /// The two assets of a pool as a list.
    pub fn get_pool_assets(&self, pool_id: PoolId) -> (assets: Option<Vec<AssetId>>)
        ensures
            assets is Some == self@.pools.contains_key(pool_id),
            assets is Some ==> assets->Some_0@ == seq![
                self@.pools[pool_id].assets.0,
                self@.pools[pool_id].assets.1,
            ],
    {
        match self.pool(pool_id) {
            Some(record) => {
                let mut list: Vec<AssetId> = Vec::new();
                list.push(record.assets.0);
                list.push(record.assets.1);
                proof {
                    assert(list@ =~= seq![record.assets.0, record.assets.1]);
                }
                Some(list)
            },
            None => None,
        }
    }

    /// What a pool holds of its two assets; nothing where there is no such
    /// pool.
    pub fn pool_balances(&self, pool_id: PoolId) -> (balances: (Balance, Balance))
        ensures
            balances == self@.pool_balances(pool_id),
    {
        match self.pool(pool_id) {
            Some(record) => record.balances,
            None => (0, 0),
        }
    }
}

} // verus!
