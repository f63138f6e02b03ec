//! The events that the pool engine records, in call order.

use vstd::prelude::*;

use crate::types::{AccountId, AssetId, Balance, PoolId};

verus! {

/// One record of the event log.
#[derive(Clone, Copy, Debug, PartialEq, Eq, Structural)]
pub enum Event {
    /// A pool was created: owner, pool, the two assets, the two amounts.
    PoolCreated(AccountId, PoolId, AssetId, AssetId, Balance, Balance),
    /// The owner changed the parameters of a pool.
    PoolUpdated(AccountId, PoolId),
    /// The owner paused a pool.
    Paused(AccountId, PoolId),
    /// The owner unpaused a pool.
    Unpaused(AccountId, PoolId),
    /// Liquidity was added: pool, the two assets, the two amounts.
    LiquidityAdded(PoolId, AssetId, AssetId, Balance, Balance),
    /// Liquidity was removed: pool, the two assets, the two amounts.
    LiquidityRemoved(PoolId, AssetId, AssetId, Balance, Balance),
    /// A pool was destroyed: pool, the two assets, the reserves handed back.
    PoolDestroyed(PoolId, AssetId, AssetId, Balance, Balance),
    /// A sale: trader, asset sold, asset received, amount sold, amount received.
    SellExecuted(AccountId, AssetId, AssetId, Balance, Balance),
    /// A purchase: trader, asset bought, asset paid, amount paid, amount bought.
    BuyExecuted(AccountId, AssetId, AssetId, Balance, Balance),
}

/// The last `n` entries of `log`, or all of it where it is shorter.
pub open spec fn spec_last_events(log: Seq<Event>, n: nat) -> Seq<Event> {
    if n >= log.len() {
        log
    } else {
        log.subrange(log.len() - n, log.len() as int)
    }
}

/// The last `n` events of the log, oldest first.
pub fn last_events(log: &Vec<Event>, n: usize) -> (result: Vec<Event>)
    ensures
        result@ == spec_last_events(log@, n as nat),
{
    let len: usize = log.len();
    let start: usize = if n >= len { 0 } else { len - n };
    let mut out: Vec<Event> = Vec::new();
    let mut i: usize = start;
    while i < len
        invariant
            len == log.len(),
            start <= i <= len,
            out@ == log@.subrange(start as int, i as int),
        decreases len - i,
    {
        out.push(log[i]);
        i += 1;
        proof {
            assert(out@ =~= log@.subrange(start as int, i as int));
        }
    }
    proof {
        assert(log@.subrange(0, len as int) =~= log@);
    }
    out
}

/// Whether the log ends with exactly the events `expected`, in that order.
pub fn expect_events(log: &Vec<Event>, expected: &Vec<Event>) -> (result: bool)
    ensures
        result == (spec_last_events(log@, expected@.len()) == expected@),
{
    let tail: Vec<Event> = last_events(log, expected.len());
    if tail.len() != expected.len() {
        return false;
    }
    let mut i: usize = 0;
    while i < tail.len()
        invariant
            tail@ == spec_last_events(log@, expected@.len()),
            tail@.len() == expected@.len(),
            i <= tail@.len(),
            forall|j: int| 0 <= j < i ==> tail@[j] == expected@[j],
        decreases tail@.len() - i,
    {
        if tail[i] != expected[i] {
            return false;
        }
        i += 1;
    }
    proof {
        assert(tail@ =~= expected@);
    }
    true
}

} // verus!
