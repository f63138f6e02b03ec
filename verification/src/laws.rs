//! What holds of the operations of the engine, whatever the state and the
//! arguments: statements over [`LbpState`], proved once for all.

use vstd::prelude::*;

use crate::events::Event;
use crate::pool::Pool;
use crate::pricing::{in_given_out, out_given_in, spec_fee};
use crate::state::{lemma_pair_id_injective, spec_pair_id, LbpState};
use crate::types::{
    AMMTransfer, AccountId, AssetId, AssetPair, Balance, BlockNumber, Error, Origin, PoolId,
    MAX_IN_RATIO, MAX_OUT_RATIO,
};

verus! {

/// A pool is found under its pair of assets in either order.
pub proof fn lemma_pool_exists_symmetric(state: LbpState, asset_a: AssetId, asset_b: AssetId)
    ensures
        state.pool_exists(AssetPair { asset_in: asset_a, asset_out: asset_b })
            == state.pool_exists(AssetPair { asset_in: asset_b, asset_out: asset_a }),
{
}

/// The pool that trades a pair of assets holds exactly these two assets.
pub proof fn lemma_pool_holds_its_pair(state: LbpState, assets: AssetPair)
    requires
        state.wf(),
        state.pool_exists(assets),
    ensures
        assets.asset_in != assets.asset_out,
        ({
            let held = state.pools[spec_pair_id(assets.asset_in, assets.asset_out)].assets;
            held == (assets.asset_in, assets.asset_out) || held == (
                assets.asset_out,
                assets.asset_in,
            )
        }),
{
    let held = state.pools[spec_pair_id(assets.asset_in, assets.asset_out)].assets;
    lemma_pair_id_injective(held.0, held.1, assets.asset_in, assets.asset_out);
}

/// Refreshing the weights of a pool twice at one time leaves the state
/// that refreshing them once leaves.
pub proof fn lemma_update_weights_idempotent(state: LbpState, pool_id: PoolId, now: BlockNumber)
    requires
        state.update_weights(pool_id, now) is Ok,
    ensures
        state.update_weights(pool_id, now)->Ok_0.update_weights(pool_id, now)
            == state.update_weights(pool_id, now),
{
    let once = state.update_weights(pool_id, now)->Ok_0;
    let twice = once.update_weights(pool_id, now)->Ok_0;
    assert(twice.pools =~= once.pools);
}

/// A trade that is executed adds exactly the amount paid to the reserve of
/// the asset paid in and takes exactly the amount received from the
/// reserve of the asset paid out; the trader's free balances move by the
/// same amounts the other way, and nobody else's holdings change.
pub proof fn lemma_trade_conserves_reserves(
    state: LbpState,
    transfer: AMMTransfer,
    data: Pool,
    event: Option<Event>,
)
    requires
        state.wf(),
        state.apply_trade(transfer, data, event) is Ok,
    ensures
        ({
            let after = state.apply_trade(transfer, data, event)->Ok_0;
            let assets = transfer.assets;
            let who = transfer.origin;
            &&& after.reserve_of(assets, assets.asset_in) == state.reserve_of(
                assets,
                assets.asset_in,
            ) + transfer.amount
            &&& after.reserve_of(assets, assets.asset_out) == state.reserve_of(
                assets,
                assets.asset_out,
            ) - transfer.amount_out
            &&& after.holdings[(who, assets.asset_in)].free == state.holdings[(
                who,
                assets.asset_in,
            )].free - transfer.amount
            &&& after.holdings[(who, assets.asset_out)].free == state.holdings[(
                who,
                assets.asset_out,
            )].free + transfer.amount_out
            &&& forall|k: (AccountId, AssetId)|
                k != (who, assets.asset_in) && k != (who, assets.asset_out)
                    ==> #[trigger] after.holdings[k] == state.holdings[k]
            &&& forall|id: PoolId|
                id != spec_pair_id(assets.asset_in, assets.asset_out) ==> (
                #[trigger] after.pools.contains_key(id) == state.pools.contains_key(id)
                    && after.pools[id] == state.pools[id])
            &&& data.spec_well_formed() ==> after.wf()
        }),
{
    lemma_pool_holds_its_pair(state, transfer.assets);
}

/// A sale that goes through adds exactly the amount sold to the reserve of
/// the asset sold and takes exactly the amount bought from the other
/// reserve; it records both amounts, and leaves the weights of its time in
/// the pool.
pub proof fn lemma_sell_conserves_reserves(
    state: LbpState,
    who: AccountId,
    asset_in: AssetId,
    asset_out: AssetId,
    amount: Balance,
    min_bought: Balance,
    now: BlockNumber,
)
    requires
        state.wf(),
        state.sell(Origin::Signed(who), asset_in, asset_out, amount, min_bought, now) is Ok,
    ensures
        ({
            let assets = AssetPair { asset_in, asset_out };
            let after = state.sell(
                Origin::Signed(who),
                asset_in,
                asset_out,
                amount,
                min_bought,
                now,
            )->Ok_0;
            let priced = state.validate_sell(who, assets, amount, min_bought, now);
            let pool_id = spec_pair_id(asset_in, asset_out);
            &&& priced is Ok
            &&& priced->Ok_0.amount == amount
            &&& priced->Ok_0.amount_out >= min_bought
            &&& after.reserve_of(assets, asset_in) == state.reserve_of(assets, asset_in) + amount
            &&& after.reserve_of(assets, asset_out) == state.reserve_of(assets, asset_out)
                - priced->Ok_0.amount_out
            &&& after.holdings[(who, asset_in)].free == state.holdings[(who, asset_in)].free
                - amount
            &&& after.holdings[(who, asset_out)].free == state.holdings[(who, asset_out)].free
                + priced->Ok_0.amount_out
            &&& after.events == state.events.push(
                Event::SellExecuted(who, asset_in, asset_out, amount, priced->Ok_0.amount_out),
            )
            &&& after.pools[pool_id].data == state.pools[pool_id].data.spec_refreshed(now)
            &&& after.wf()
        }),
{
    let assets = AssetPair { asset_in, asset_out };
    let priced = state.validate_sell(who, assets, amount, min_bought, now);
    let pool_id = spec_pair_id(asset_in, asset_out);
    lemma_trade_conserves_reserves(
        state,
        priced->Ok_0,
        state.pools[pool_id].data.spec_refreshed(now),
        Some(Event::SellExecuted(who, asset_in, asset_out, amount, priced->Ok_0.amount_out)),
    );
}

/// A purchase that goes through takes exactly the amount bought from the
/// reserve of the asset bought and adds exactly the amount paid to the
/// other reserve; it records both amounts, and leaves the weights of its
/// time in the pool.
pub proof fn lemma_buy_conserves_reserves(
    state: LbpState,
    who: AccountId,
    asset_out: AssetId,
    asset_in: AssetId,
    amount: Balance,
    max_sold: Balance,
    now: BlockNumber,
)
    requires
        state.wf(),
        state.buy(Origin::Signed(who), asset_out, asset_in, amount, max_sold, now) is Ok,
    ensures
        ({
            let assets = AssetPair { asset_in, asset_out };
            let after = state.buy(
                Origin::Signed(who),
                asset_out,
                asset_in,
                amount,
                max_sold,
                now,
            )->Ok_0;
            let priced = state.validate_buy(who, assets, amount, max_sold, now);
            let pool_id = spec_pair_id(asset_in, asset_out);
            &&& priced is Ok
            &&& priced->Ok_0.amount_out == amount
            &&& priced->Ok_0.amount <= max_sold
            &&& after.reserve_of(assets, asset_in) == state.reserve_of(assets, asset_in)
                + priced->Ok_0.amount
            &&& after.reserve_of(assets, asset_out) == state.reserve_of(assets, asset_out)
                - amount
            &&& after.holdings[(who, asset_in)].free == state.holdings[(who, asset_in)].free
                - priced->Ok_0.amount
            &&& after.holdings[(who, asset_out)].free == state.holdings[(who, asset_out)].free
                + amount
            &&& after.events == state.events.push(
                Event::BuyExecuted(who, asset_out, asset_in, priced->Ok_0.amount, amount),
            )
            &&& after.pools[pool_id].data == state.pools[pool_id].data.spec_refreshed(now)
            &&& after.wf()
        }),
{
    let assets = AssetPair { asset_in, asset_out };
    let priced = state.validate_buy(who, assets, amount, max_sold, now);
    let pool_id = spec_pair_id(asset_in, asset_out);
    lemma_trade_conserves_reserves(
        state,
        priced->Ok_0,
        state.pools[pool_id].data.spec_refreshed(now),
        Some(Event::BuyExecuted(who, asset_out, asset_in, priced->Ok_0.amount, amount)),
    );
}

/// On a pool that trades, a sale of exactly the limit on the input
/// reserve, by a trader who can pay it, is not refused for its size: it is
/// priced where the swap formula's answer is within the limit on the
/// output reserve and the trader's own, and it goes through where the
/// amounts moved fit the balances that receive them. A sale of one unit
/// more, by a trader who can pay that, is refused for its size.
pub proof fn lemma_sell_at_ratio_limit(
    state: LbpState,
    who: AccountId,
    assets: AssetPair,
    min_bought: Balance,
    now: BlockNumber,
)
    requires
        state.wf(),
        state.pool_exists(assets),
        state.pools[spec_pair_id(assets.asset_in, assets.asset_out)].data.spec_is_running(now),
        state.reserve_of(assets, assets.asset_in) / MAX_IN_RATIO > 0,
        state.holdings[(who, assets.asset_in)].free > state.reserve_of(assets, assets.asset_in)
            / MAX_IN_RATIO,
    ensures
        ({
            let limit = (state.reserve_of(assets, assets.asset_in) / MAX_IN_RATIO) as Balance;
            let record = state.pools[spec_pair_id(assets.asset_in, assets.asset_out)];
            let market = record.spec_market(assets.asset_in, record.data.spec_refreshed(now));
            let quote = out_given_in(
                market.reserve_in,
                market.reserve_out,
                market.weight_in,
                market.weight_out,
                (limit - spec_fee(limit)) as Balance,
            );
            &&& state.validate_sell(who, assets, limit, min_bought, now) != Err::<
                AMMTransfer,
                Error,
            >(Error::MaxInRatioExceeded)
            &&& quote is Some && min_bought <= quote->Some_0 <= state.reserve_of(
                assets,
                assets.asset_out,
            ) / MAX_OUT_RATIO ==> state.validate_sell(who, assets, limit, min_bought, now)
                == Ok::<AMMTransfer, Error>(
                AMMTransfer {
                    origin: who,
                    assets,
                    amount: limit,
                    amount_out: quote->Some_0,
                    discount: false,
                    discount_amount: 0,
                },
            )
            &&& state.validate_sell(who, assets, (limit + 1) as Balance, min_bought, now)
                == Err::<AMMTransfer, Error>(Error::MaxInRatioExceeded)
            &&& state.sell(
                Origin::Signed(who),
                assets.asset_in,
                assets.asset_out,
                (limit + 1) as Balance,
                min_bought,
                now,
            ) == Err::<LbpState, Error>(Error::MaxInRatioExceeded)
            &&& quote is Some && min_bought <= quote->Some_0 <= state.reserve_of(
                assets,
                assets.asset_out,
            ) / MAX_OUT_RATIO && state.reserve_of(assets, assets.asset_in) + limit <= Balance::MAX
                && state.holdings[(who, assets.asset_out)].free + quote->Some_0 <= Balance::MAX
                ==> state.sell(
                Origin::Signed(who),
                assets.asset_in,
                assets.asset_out,
                limit,
                min_bought,
                now,
            ) is Ok
        }),
{
    lemma_pool_holds_its_pair(state, assets);
}

/// On a pool that trades, a purchase of exactly the limit on the output
/// reserve, by a trader who can pay `max_sold`, is not refused for its
/// size: it is priced where the swap formula's answer is within the limit
/// on the input reserve and the trader's own, and it goes through where
/// the amounts moved fit the balances that receive them. A purchase of
/// one unit more is refused for its size.
pub proof fn lemma_buy_at_ratio_limit(
    state: LbpState,
    who: AccountId,
    assets: AssetPair,
    max_sold: Balance,
    now: BlockNumber,
)
    requires
        state.wf(),
        state.pool_exists(assets),
        state.pools[spec_pair_id(assets.asset_in, assets.asset_out)].data.spec_is_running(now),
        state.reserve_of(assets, assets.asset_out) / MAX_OUT_RATIO > 0,
        state.holdings[(who, assets.asset_in)].free >= max_sold,
    ensures
        ({
            let limit = (state.reserve_of(assets, assets.asset_out) / MAX_OUT_RATIO) as Balance;
            let record = state.pools[spec_pair_id(assets.asset_in, assets.asset_out)];
            let market = record.spec_market(assets.asset_in, record.data.spec_refreshed(now));
            let quote = in_given_out(
                market.reserve_in,
                market.reserve_out,
                market.weight_in,
                market.weight_out,
                (limit + spec_fee(limit)) as Balance,
            );
            &&& state.validate_buy(who, assets, limit, max_sold, now) != Err::<
                AMMTransfer,
                Error,
            >(Error::MaxOutRatioExceeded)
            &&& quote is Some && quote->Some_0 <= max_sold && quote->Some_0 <= state.reserve_of(
                assets,
                assets.asset_in,
            ) / MAX_IN_RATIO ==> state.validate_buy(who, assets, limit, max_sold, now) == Ok::<
                AMMTransfer,
                Error,
            >(
                AMMTransfer {
                    origin: who,
                    assets,
                    amount: quote->Some_0,
                    amount_out: limit,
                    discount: false,
                    discount_amount: 0,
                },
            )
            &&& state.validate_buy(who, assets, (limit + 1) as Balance, max_sold, now) == Err::<
                AMMTransfer,
                Error,
            >(Error::MaxOutRatioExceeded)
            &&& state.buy(
                Origin::Signed(who),
                assets.asset_out,
                assets.asset_in,
                (limit + 1) as Balance,
                max_sold,
                now,
            ) == Err::<LbpState, Error>(Error::MaxOutRatioExceeded)
            &&& quote is Some && quote->Some_0 <= max_sold && quote->Some_0 <= state.reserve_of(
                assets,
                assets.asset_in,
            ) / MAX_IN_RATIO && state.reserve_of(assets, assets.asset_in) + quote->Some_0
                <= Balance::MAX && state.holdings[(who, assets.asset_out)].free + limit
                <= Balance::MAX ==> state.buy(
                Origin::Signed(who),
                assets.asset_out,
                assets.asset_in,
                limit,
                max_sold,
                now,
            ) is Ok
        }),
{
    lemma_pool_holds_its_pair(state, assets);
}

/// A pool cannot be destroyed before the end of its sale, and destroying
/// it afterwards leaves no record of it.
pub proof fn lemma_destroy_needs_ended_sale(
    state: LbpState,
    origin: Origin,
    pool_id: PoolId,
    now: BlockNumber,
)
    requires
        state.owned_pool(origin, pool_id) is Ok,
    ensures
        now < state.pools[pool_id].data.end ==> state.destroy_pool(origin, pool_id, now) == Err::<
            LbpState,
            Error,
        >(Error::SaleNotEnded),
        state.destroy_pool(origin, pool_id, now) is Ok ==> {
            let after = state.destroy_pool(origin, pool_id, now)->Ok_0;
            &&& !after.pools.contains_key(pool_id)
            &&& after.pool_balances(pool_id) == (0u128, 0u128)
            &&& now >= state.pools[pool_id].data.end
        },
{
}

} // verus!
