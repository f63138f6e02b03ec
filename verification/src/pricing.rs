//! Swap pricing of the weighted constant-value market maker: the fee, the
//! limits on the size of a trade, and the amounts that a sale or a purchase
//! moves.
//!
//! The swap formula itself, a power with a fractional exponent in
//! fixed-point arithmetic, is computed by the crate `hydra_dx_math`. Its
//! results enter the contracts under the names [`out_given_in`] and
//! [`in_given_out`]; the rules around them are stated and proved for every
//! result that could come back. The spot price, a quotient of products, is
//! computed by the same crate and stated in full.

use vstd::arithmetic::power2::pow2;
use vstd::prelude::*;

use crate::types::{
    Balance, Error, LBPWeight, FEE_DENOMINATOR, FEE_NUMERATOR, MAX_IN_RATIO, MAX_OUT_RATIO,
};
use crate::weights::{scale, spec_scale};

verus! {

/// The amount of the output asset that the weighted swap formula gives for
/// `amount` of the input asset, as `hydra_dx_math::lbp::calculate_out_given_in`
/// computes it; `None` where that function reports an error.
pub uninterp spec fn out_given_in(
    in_reserve: Balance,
    out_reserve: Balance,
    in_weight: LBPWeight,
    out_weight: LBPWeight,
    amount: Balance,
) -> Option<Balance>;

/// The amount of the input asset that the weighted swap formula asks for
/// `amount` of the output asset, as `hydra_dx_math::lbp::calculate_in_given_out`
/// computes it; `None` where that function reports an error.
pub uninterp spec fn in_given_out(
    in_reserve: Balance,
    out_reserve: Balance,
    in_weight: LBPWeight,
    out_weight: LBPWeight,
    amount: Balance,
) -> Option<Balance>;

/// Calls `hydra_dx_math::lbp::calculate_out_given_in`, which works in
/// checked integer arithmetic on its five arguments alone and returns for
/// all of them. Nothing is claimed of the result but that it is the named
/// one, with `None` for an error.
#[verifier::external_body]
pub(crate) fn calculate_out_given_in(
    in_reserve: Balance,
    out_reserve: Balance,
    in_weight: LBPWeight,
    out_weight: LBPWeight,
    amount: Balance,
) -> (result: Option<Balance>)
    ensures
        result == out_given_in(in_reserve, out_reserve, in_weight, out_weight, amount),
{
    hydra_dx_math::lbp::calculate_out_given_in(
        in_reserve,
        out_reserve,
        in_weight,
        out_weight,
        amount,
    ).ok()
}

/// Calls `hydra_dx_math::lbp::calculate_in_given_out`, which works in
/// checked integer arithmetic on its five arguments alone and returns for
/// all of them. Nothing is claimed of the result but that it is the named
/// one, with `None` for an error.
#[verifier::external_body]
pub(crate) fn calculate_in_given_out(
    in_reserve: Balance,
    out_reserve: Balance,
    in_weight: LBPWeight,
    out_weight: LBPWeight,
    amount: Balance,
) -> (result: Option<Balance>)
    ensures
        result == in_given_out(in_reserve, out_reserve, in_weight, out_weight, amount),
{
    hydra_dx_math::lbp::calculate_in_given_out(
        in_reserve,
        out_reserve,
        in_weight,
        out_weight,
        amount,
    ).ok()
}

/// What `amount` of the input asset is worth in the output asset at the
/// reserves and weights as they are, whatever the size of the trade:
/// `amount * out_reserve * in_weight / (in_reserve * out_weight)`, rounded
/// down.
///
/// There is no price where the input reserve is empty, where the output
/// weight is zero, where the product of the three factors takes more than
/// 256 bits, or where the quotient is more than a balance can hold. Nothing
/// of an asset, and any amount against an empty output reserve, is worth
/// nothing.
pub open spec fn spec_spot_price(
    in_reserve: Balance,
    out_reserve: Balance,
    in_weight: LBPWeight,
    out_weight: LBPWeight,
    amount: Balance,
) -> Option<Balance> {
    let numerator = amount as int * out_reserve as int * in_weight as int;
    let denominator = in_reserve as int * out_weight as int;
    if in_reserve == 0 {
        None
    } else if amount == 0 || out_reserve == 0 {
        Some(0)
    } else if numerator >= pow2(256) || denominator == 0 || numerator / denominator
        > Balance::MAX {
        None
    } else {
        Some((numerator / denominator) as Balance)
    }
}

/// Calls `hydra_dx_math::lbp::calculate_spot_price`, with `None` for an
/// error. That function refuses an empty input reserve, answers zero for
/// an amount of zero or an empty output reserve, and else computes the
/// quotient above in checked 256-bit arithmetic, with an error where a
/// product overflows, the divisor is zero or the quotient does not fit.
#[verifier::external_body]
pub(crate) fn calculate_spot_price(
    in_reserve: Balance,
    out_reserve: Balance,
    in_weight: LBPWeight,
    out_weight: LBPWeight,
    amount: Balance,
) -> (result: Option<Balance>)
    ensures
        result == spec_spot_price(in_reserve, out_reserve, in_weight, out_weight, amount),
{
    hydra_dx_math::lbp::calculate_spot_price(
        in_reserve,
        out_reserve,
        in_weight,
        out_weight,
        amount,
    ).ok()
}

/// What `amount` of the input asset is worth in the output asset at the
/// reserves and weights as they are; nothing where there is no price.
pub open spec fn spec_spot_price_or_zero(
    in_reserve: Balance,
    out_reserve: Balance,
    in_weight: LBPWeight,
    out_weight: LBPWeight,
    amount: Balance,
) -> Balance {
    match spec_spot_price(in_reserve, out_reserve, in_weight, out_weight, amount) {
        Some(price) => price,
        None => 0,
    }
}

/// What `amount` of the input asset is worth in the output asset at the
/// reserves and weights as they are; nothing where there is no price.
pub fn spot_price(
    in_reserve: Balance,
    out_reserve: Balance,
    in_weight: LBPWeight,
    out_weight: LBPWeight,
    amount: Balance,
) -> (price: Balance)
    ensures
        price == spec_spot_price_or_zero(in_reserve, out_reserve, in_weight, out_weight, amount),
{
    match calculate_spot_price(in_reserve, out_reserve, in_weight, out_weight, amount) {
        Some(price) => price,
        None => 0,
    }
}

/// The fee on a traded amount, rounded down.
pub open spec fn spec_fee(amount: Balance) -> int {
    (amount * FEE_NUMERATOR) / (FEE_DENOMINATOR as int)
}

/// The fee on a traded amount.
pub fn calculate_fee(amount: Balance) -> (fee: Balance)
    ensures
        fee == spec_fee(amount),
        fee <= amount,
{
    let fee = scale(amount, 2, 1000);
    assert(spec_scale(amount as int, 2, 1000) == spec_fee(amount));
    fee
}

/// The largest amount that one trade may pay into a reserve.
pub open spec fn spec_max_in(reserve_in: Balance) -> Balance {
    reserve_in / MAX_IN_RATIO
}

/// The largest amount that one trade may take out of a reserve.
pub open spec fn spec_max_out(reserve_out: Balance) -> Balance {
    reserve_out / MAX_OUT_RATIO
}

/// What a sale of `amount` gives, where the swap formula answered `quote`.
///
/// The sale is refused if it pays in more than the limit on the input
/// reserve, if the formula gave no result, if it would take out more than
/// the limit on the output reserve, or if it gives less than `min_bought`;
/// the first of these that applies decides.
pub open spec fn spec_sell_outcome(
    reserve_in: Balance,
    reserve_out: Balance,
    amount: Balance,
    min_bought: Balance,
    quote: Option<Balance>,
) -> Result<Balance, Error> {
    if amount > spec_max_in(reserve_in) {
        Err(Error::MaxInRatioExceeded)
    } else {
        match quote {
            None => Err(Error::Overflow),
            Some(amount_out) => if amount_out > spec_max_out(reserve_out) {
                Err(Error::MaxOutRatioExceeded)
            } else if amount_out < min_bought {
                Err(Error::AssetBalanceLimitExceeded)
            } else {
                Ok(amount_out)
            },
        }
    }
}

/// Decides a sale of `amount` for which the swap formula answered `quote`:
/// the amount that the trader receives, or why the sale is refused.
pub fn sell_outcome(
    reserve_in: Balance,
    reserve_out: Balance,
    amount: Balance,
    min_bought: Balance,
    quote: Option<Balance>,
) -> (result: Result<Balance, Error>)
    ensures
        result == spec_sell_outcome(reserve_in, reserve_out, amount, min_bought, quote),
{
    if amount > reserve_in / MAX_IN_RATIO {
        return Err(Error::MaxInRatioExceeded);
    }
    match quote {
        None => Err(Error::Overflow),
        Some(amount_out) => {
            if amount_out > reserve_out / MAX_OUT_RATIO {
                Err(Error::MaxOutRatioExceeded)
            } else if amount_out < min_bought {
                Err(Error::AssetBalanceLimitExceeded)
            } else {
                Ok(amount_out)
            }
        },
    }
}

/// What a sale of `amount` gives: the outcome for the answer of the swap
/// formula to `amount` less the fee, which stays in the pool.
pub open spec fn spec_calculate_sell(
    reserve_in: Balance,
    reserve_out: Balance,
    weight_in: LBPWeight,
    weight_out: LBPWeight,
    amount: Balance,
    min_bought: Balance,
) -> Result<Balance, Error> {
    spec_sell_outcome(
        reserve_in,
        reserve_out,
        amount,
        min_bought,
        out_given_in(
            reserve_in,
            reserve_out,
            weight_in,
            weight_out,
            (amount - spec_fee(amount)) as Balance,
        ),
    )
}

/// Prices a sale of `amount`: the amount that the trader receives, or why
/// the sale is refused.
pub fn calculate_sell(
    reserve_in: Balance,
    reserve_out: Balance,
    weight_in: LBPWeight,
    weight_out: LBPWeight,
    amount: Balance,
    min_bought: Balance,
) -> (result: Result<Balance, Error>)
    ensures
        result == spec_calculate_sell(
            reserve_in,
            reserve_out,
            weight_in,
            weight_out,
            amount,
            min_bought,
        ),
{
    if amount > reserve_in / MAX_IN_RATIO {
        return Err(Error::MaxInRatioExceeded);
    }
    let fee: Balance = calculate_fee(amount);
    let quote = calculate_out_given_in(reserve_in, reserve_out, weight_in, weight_out, amount - fee);
    sell_outcome(reserve_in, reserve_out, amount, min_bought, quote)
}

/// What a purchase of `amount_out` costs, where the swap formula answered
/// `quote`.
///
/// The purchase is refused if it takes out more than the limit on the
/// output reserve, if the formula gave no result, if it would pay in more
/// than the limit on the input reserve, or if it costs more than
/// `max_sold`; the first of these that applies decides.
pub open spec fn spec_buy_outcome(
    reserve_in: Balance,
    reserve_out: Balance,
    amount_out: Balance,
    max_sold: Balance,
    quote: Option<Balance>,
) -> Result<Balance, Error> {
    if amount_out > spec_max_out(reserve_out) {
        Err(Error::MaxOutRatioExceeded)
    } else {
        match quote {
            None => Err(Error::Overflow),
            Some(amount_in) => if amount_in > spec_max_in(reserve_in) {
                Err(Error::MaxInRatioExceeded)
            } else if amount_in > max_sold {
                Err(Error::AssetBalanceLimitExceeded)
            } else {
                Ok(amount_in)
            },
        }
    }
}

/// Decides a purchase of `amount_out` for which the swap formula answered
/// `quote`: the amount that the trader pays, or why the purchase is refused.
pub fn buy_outcome(
    reserve_in: Balance,
    reserve_out: Balance,
    amount_out: Balance,
    max_sold: Balance,
    quote: Option<Balance>,
) -> (result: Result<Balance, Error>)
    ensures
        result == spec_buy_outcome(reserve_in, reserve_out, amount_out, max_sold, quote),
{
    if amount_out > reserve_out / MAX_OUT_RATIO {
        return Err(Error::MaxOutRatioExceeded);
    }
    match quote {
        None => Err(Error::Overflow),
        Some(amount_in) => {
            if amount_in > reserve_in / MAX_IN_RATIO {
                Err(Error::MaxInRatioExceeded)
            } else if amount_in > max_sold {
                Err(Error::AssetBalanceLimitExceeded)
            } else {
                Ok(amount_in)
            }
        },
    }
}

/// What a purchase of `amount_out` costs: the outcome for the answer of the
/// swap formula to `amount_out` plus the fee, which stays in the pool.
pub open spec fn spec_calculate_buy(
    reserve_in: Balance,
    reserve_out: Balance,
    weight_in: LBPWeight,
    weight_out: LBPWeight,
    amount_out: Balance,
    max_sold: Balance,
) -> Result<Balance, Error> {
    spec_buy_outcome(
        reserve_in,
        reserve_out,
        amount_out,
        max_sold,
        in_given_out(
            reserve_in,
            reserve_out,
            weight_in,
            weight_out,
            (amount_out + spec_fee(amount_out)) as Balance,
        ),
    )
}

/// Prices a purchase of `amount_out`: the amount that the trader pays, or
/// why the purchase is refused.
pub fn calculate_buy(
    reserve_in: Balance,
    reserve_out: Balance,
    weight_in: LBPWeight,
    weight_out: LBPWeight,
    amount_out: Balance,
    max_sold: Balance,
) -> (result: Result<Balance, Error>)
    ensures
        result == spec_calculate_buy(
            reserve_in,
            reserve_out,
            weight_in,
            weight_out,
            amount_out,
            max_sold,
        ),
{
    if amount_out > reserve_out / MAX_OUT_RATIO {
        return Err(Error::MaxOutRatioExceeded);
    }
    let fee: Balance = calculate_fee(amount_out);
    let quote = calculate_in_given_out(
        reserve_in,
        reserve_out,
        weight_in,
        weight_out,
        amount_out + fee,
    );
    buy_outcome(reserve_in, reserve_out, amount_out, max_sold, quote)
}

/// A sale of exactly the limit on the input reserve is not refused for its
/// size, and goes through where the swap formula's answer is within the
/// limit on the output reserve and the trader's own; a sale of one unit
/// more is refused for its size, whatever the formula answers.
pub proof fn lemma_sell_ratio_boundary(
    reserve_in: Balance,
    reserve_out: Balance,
    min_bought: Balance,
    quote: Option<Balance>,
)
    ensures
        spec_sell_outcome(
            reserve_in,
            reserve_out,
            (reserve_in / MAX_IN_RATIO) as Balance,
            min_bought,
            quote,
        ) != Err::<Balance, Error>(Error::MaxInRatioExceeded),
        quote is Some && min_bought <= quote->Some_0 <= reserve_out / MAX_OUT_RATIO
            ==> spec_sell_outcome(
            reserve_in,
            reserve_out,
            (reserve_in / MAX_IN_RATIO) as Balance,
            min_bought,
            quote,
        ) == Ok::<Balance, Error>(quote->Some_0),
        spec_sell_outcome(
            reserve_in,
            reserve_out,
            (reserve_in / MAX_IN_RATIO + 1) as Balance,
            min_bought,
            quote,
        ) == Err::<Balance, Error>(Error::MaxInRatioExceeded),
{
}

/// A purchase of exactly the limit on the output reserve is not refused for
/// its size, and goes through where the swap formula's answer is within the
/// limit on the input reserve and the trader's own; a purchase of one unit
/// more is refused for its size, whatever the formula answers.
pub proof fn lemma_buy_ratio_boundary(
    reserve_in: Balance,
    reserve_out: Balance,
    max_sold: Balance,
    quote: Option<Balance>,
)
    ensures
        spec_buy_outcome(
            reserve_in,
            reserve_out,
            (reserve_out / MAX_OUT_RATIO) as Balance,
            max_sold,
            quote,
        ) != Err::<Balance, Error>(Error::MaxOutRatioExceeded),
        quote is Some && quote->Some_0 <= max_sold && quote->Some_0 <= reserve_in / MAX_IN_RATIO
            ==> spec_buy_outcome(
            reserve_in,
            reserve_out,
            (reserve_out / MAX_OUT_RATIO) as Balance,
            max_sold,
            quote,
        ) == Ok::<Balance, Error>(quote->Some_0),
        spec_buy_outcome(
            reserve_in,
            reserve_out,
            (reserve_out / MAX_OUT_RATIO + 1) as Balance,
            max_sold,
            quote,
        ) == Err::<Balance, Error>(Error::MaxOutRatioExceeded),
{
}

} // verus!
