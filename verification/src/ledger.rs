//! The ledger: what every account holds of every asset, free and reserved.

use std::collections::HashMap;
use vstd::prelude::*;

use crate::types::{AccountId, AssetId, Balance, Error};

verus! {

broadcast use vstd::std_specs::hash::group_hash_axioms;

/// What one account holds of one asset.
#[derive(Clone, Copy, Debug, PartialEq, Eq, Structural)]
pub struct AccountData {
    /// What the account can spend.
    pub free: Balance,
    /// What is set aside and cannot be spent until it is released.
    pub reserved: Balance,
}

/// The holdings of all accounts: for every account and asset, what the
/// account holds of the asset.
pub type Holdings = Map<(AccountId, AssetId), AccountData>;

/// The holdings in which nobody holds anything.
pub open spec fn spec_no_holdings() -> Holdings {
    Map::new(
        |k: (AccountId, AssetId)| true,
        |k: (AccountId, AssetId)| (AccountData { free: 0, reserved: 0 }),
    )
}

/// The holdings after `amount` of `asset` was added to what `who` can
/// spend; refused where the sum does not fit.
pub open spec fn spec_deposit(
    holdings: Holdings,
    asset: AssetId,
    who: AccountId,
    amount: Balance,
) -> Result<Holdings, Error> {
    let account = holdings[(who, asset)];
    if account.free + amount > Balance::MAX {
        Err(Error::Overflow)
    } else {
        Ok(
            holdings.insert(
                (who, asset),
                AccountData { free: (account.free + amount) as Balance, reserved: account.reserved },
            ),
        )
    }
}

/// The holdings after `amount` of `asset` was taken from what `who` can
/// spend; refused where `who` can spend less.
pub open spec fn spec_withdraw(
    holdings: Holdings,
    asset: AssetId,
    who: AccountId,
    amount: Balance,
) -> Result<Holdings, Error> {
    let account = holdings[(who, asset)];
    if account.free < amount {
        Err(Error::BalanceTooLow)
    } else {
        Ok(
            holdings.insert(
                (who, asset),
                AccountData { free: (account.free - amount) as Balance, reserved: account.reserved },
            ),
        )
    }
}

/// The holdings after `who` set `amount` of `asset` aside; refused as a
/// whole where `who` can spend less, or the reserved sum does not fit.
pub open spec fn spec_reserve(
    holdings: Holdings,
    asset: AssetId,
    who: AccountId,
    amount: Balance,
) -> Result<Holdings, Error> {
    let account = holdings[(who, asset)];
    if account.free < amount {
        Err(Error::BalanceTooLow)
    } else if account.reserved + amount > Balance::MAX {
        Err(Error::Overflow)
    } else {
        Ok(
            holdings.insert(
                (who, asset),
                AccountData {
                    free: (account.free - amount) as Balance,
                    reserved: (account.reserved + amount) as Balance,
                },
            ),
        )
    }
}

/// The holdings after `amount` of `asset` that `who` had set aside was
/// released; refused as a whole where less is set aside, or the free sum
/// does not fit.
pub open spec fn spec_unreserve(
    holdings: Holdings,
    asset: AssetId,
    who: AccountId,
    amount: Balance,
) -> Result<Holdings, Error> {
    let account = holdings[(who, asset)];
    if account.reserved < amount {
        Err(Error::BalanceTooLow)
    } else if account.free + amount > Balance::MAX {
        Err(Error::Overflow)
    } else {
        Ok(
            holdings.insert(
                (who, asset),
                AccountData {
                    free: (account.free + amount) as Balance,
                    reserved: (account.reserved - amount) as Balance,
                },
            ),
        )
    }
}

/// The holdings after `who` paid two amounts out of what it can spend;
/// refused as a whole where either cannot be paid.
pub open spec fn spec_withdraw_both(
    holdings: Holdings,
    who: AccountId,
    asset_a: AssetId,
    amount_a: Balance,
    asset_b: AssetId,
    amount_b: Balance,
) -> Result<Holdings, Error> {
    match spec_withdraw(holdings, asset_a, who, amount_a) {
        Err(e) => Err(e),
        Ok(after_a) => spec_withdraw(after_a, asset_b, who, amount_b),
    }
}

/// The holdings after `who` received two amounts; refused as a whole where
/// either does not fit.
pub open spec fn spec_deposit_both(
    holdings: Holdings,
    who: AccountId,
    asset_a: AssetId,
    amount_a: Balance,
    asset_b: AssetId,
    amount_b: Balance,
) -> Result<Holdings, Error> {
    match spec_deposit(holdings, asset_a, who, amount_a) {
        Err(e) => Err(e),
        Ok(after_a) => spec_deposit(after_a, asset_b, who, amount_b),
    }
}

/// The holdings after `amount` of `asset` moved from what `from` can spend
/// to what `to` can spend; refused as a whole where `from` can spend less,
/// or the sum does not fit.
pub open spec fn spec_transfer(
    holdings: Holdings,
    asset: AssetId,
    from: AccountId,
    to: AccountId,
    amount: Balance,
) -> Result<Holdings, Error> {
    match spec_withdraw(holdings, asset, from, amount) {
        Err(e) => Err(e),
        Ok(taken) => spec_deposit(taken, asset, to, amount),
    }
}

/// The key under which the holdings of `who` in `asset` are stored.
pub open spec fn spec_account_key(who: AccountId, asset: AssetId) -> u128 {
    (who as u128 * 0x1_0000_0000 + asset as u128) as u128
}

fn account_key(who: AccountId, asset: AssetId) -> (key: u128)
    ensures
        key == spec_account_key(who, asset),
{
    who as u128 * 0x1_0000_0000 + asset as u128
}

/// An in-memory ledger of many assets. An account that holds nothing of an
/// asset takes no room in it.
#[derive(Debug, PartialEq, Eq)]
pub struct Ledger {
    accounts: HashMap<u128, AccountData>,
}

impl Clone for Ledger {
    /// A second ledger with the same holdings.
    fn clone(&self) -> (copy: Self)
        ensures
            copy@ == self@,
    {
        let copy = Ledger { accounts: self.accounts.clone() };
        assert(copy@ =~= self@);
        copy
    }
}

impl View for Ledger {
    type V = Holdings;

    closed spec fn view(&self) -> Holdings {
        Map::new(
            |k: (AccountId, AssetId)| true,
            |k: (AccountId, AssetId)|
                if self.accounts@.contains_key(spec_account_key(k.0, k.1)) {
                    self.accounts@[spec_account_key(k.0, k.1)]
                } else {
                    AccountData { free: 0, reserved: 0 }
                },
        )
    }
}

impl Ledger {
    /// A ledger in which nobody holds anything.
    pub fn new() -> (ledger: Ledger)
        ensures
            ledger@ == spec_no_holdings(),
    {
        let ledger = Ledger { accounts: HashMap::new() };
        assert(ledger@ =~= spec_no_holdings());
        ledger
    }

    /// The ledger answers for every account and every asset.
    pub proof fn lemma_holdings_total(&self)
        ensures
            forall|k: (AccountId, AssetId)| #[trigger] self@.dom().contains(k),
    {
    }

    /// What `who` holds of `asset`.
    pub fn account(&self, asset: AssetId, who: AccountId) -> (data: AccountData)
        ensures
            data == self@[(who, asset)],
    {
        let key: u128 = account_key(who, asset);
        match self.accounts.get(&key) {
            Some(data) => *data,
            None => AccountData { free: 0, reserved: 0 },
        }
    }

    /// What `who` can spend of `asset`.
    pub fn free_balance(&self, asset: AssetId, who: AccountId) -> (amount: Balance)
        ensures
            amount == self@[(who, asset)].free,
    {
        self.account(asset, who).free
    }

    /// What `who` has set aside of `asset`.
    pub fn reserved_balance(&self, asset: AssetId, who: AccountId) -> (amount: Balance)
        ensures
            amount == self@[(who, asset)].reserved,
    {
        self.account(asset, who).reserved
    }

    fn set_account(&mut self, asset: AssetId, who: AccountId, data: AccountData)
        ensures
            final(self)@ == old(self)@.insert((who, asset), data),
    {
        let key: u128 = account_key(who, asset);
        if data.free == 0 && data.reserved == 0 {
            self.accounts.remove(&key);
        } else {
            self.accounts.insert(key, data);
        }
        assert forall|k: (AccountId, AssetId)| k != (who, asset) implies spec_account_key(k.0, k.1)
            != key by {
            assert(spec_account_key(k.0, k.1) == k.0 as int * 0x1_0000_0000 + k.1 as int);
        }
        assert(self@ =~= old(self)@.insert((who, asset), data));
    }

    /// Adds `amount` of `asset` to what `who` can spend.
    pub fn deposit(&mut self, asset: AssetId, who: AccountId, amount: Balance) -> (result: Result<
        (),
        Error,
    >)
        ensures
            match spec_deposit(old(self)@, asset, who, amount) {
                Ok(holdings) => result == Ok::<(), Error>(()) && final(self)@ == holdings,
                Err(e) => result == Err::<(), Error>(e) && final(self)@ == old(self)@,
            },
    {
        let account = self.account(asset, who);
        if amount > Balance::MAX - account.free {
            return Err(Error::Overflow);
        }
        self.set_account(
            asset,
            who,
            AccountData { free: account.free + amount, reserved: account.reserved },
        );
        Ok(())
    }

    /// Takes `amount` of `asset` from what `who` can spend.
    pub fn withdraw(&mut self, asset: AssetId, who: AccountId, amount: Balance) -> (result: Result<
        (),
        Error,
    >)
        ensures
            match spec_withdraw(old(self)@, asset, who, amount) {
                Ok(holdings) => result == Ok::<(), Error>(()) && final(self)@ == holdings,
                Err(e) => result == Err::<(), Error>(e) && final(self)@ == old(self)@,
            },
    {
        let account = self.account(asset, who);
        if account.free < amount {
            return Err(Error::BalanceTooLow);
        }
        self.set_account(
            asset,
            who,
            AccountData { free: account.free - amount, reserved: account.reserved },
        );
        Ok(())
    }

    /// Sets `amount` of `asset` aside from what `who` can spend.
    pub fn reserve(&mut self, asset: AssetId, who: AccountId, amount: Balance) -> (result: Result<
        (),
        Error,
    >)
        ensures
            match spec_reserve(old(self)@, asset, who, amount) {
                Ok(holdings) => result == Ok::<(), Error>(()) && final(self)@ == holdings,
                Err(e) => result == Err::<(), Error>(e) && final(self)@ == old(self)@,
            },
    {
        let account = self.account(asset, who);
        if account.free < amount {
            return Err(Error::BalanceTooLow);
        }
        if amount > Balance::MAX - account.reserved {
            return Err(Error::Overflow);
        }
        self.set_account(
            asset,
            who,
            AccountData { free: account.free - amount, reserved: account.reserved + amount },
        );
        Ok(())
    }

    /// Releases `amount` of `asset` that `who` had set aside.
    pub fn unreserve(&mut self, asset: AssetId, who: AccountId, amount: Balance) -> (result: Result<
        (),
        Error,
    >)
        ensures
            match spec_unreserve(old(self)@, asset, who, amount) {
                Ok(holdings) => result == Ok::<(), Error>(()) && final(self)@ == holdings,
                Err(e) => result == Err::<(), Error>(e) && final(self)@ == old(self)@,
            },
    {
        let account = self.account(asset, who);
        if account.reserved < amount {
            return Err(Error::BalanceTooLow);
        }
        if amount > Balance::MAX - account.free {
            return Err(Error::Overflow);
        }
        self.set_account(
            asset,
            who,
            AccountData { free: account.free + amount, reserved: account.reserved - amount },
        );
        Ok(())
    }

    /// Moves `amount` of `asset` from what `from` can spend to what `to`
    /// can spend.
    pub fn transfer(
        &mut self,
        asset: AssetId,
        from: AccountId,
        to: AccountId,
        amount: Balance,
    ) -> (result: Result<(), Error>)
        ensures
            match spec_transfer(old(self)@, asset, from, to, amount) {
                Ok(holdings) => result == Ok::<(), Error>(()) && final(self)@ == holdings,
                Err(e) => result == Err::<(), Error>(e) && final(self)@ == old(self)@,
            },
    {
        self.withdraw(asset, from, amount)?;
        match self.deposit(asset, to, amount) {
            Ok(()) => Ok(()),
            Err(e) => {
                let undone = self.deposit(asset, from, amount);
                assert(self@ =~= old(self)@);
                Err(e)
            },
        }
    }

    /// Takes two amounts from what `who` can spend, or neither.
    pub fn withdraw_both(
        &mut self,
        who: AccountId,
        asset_a: AssetId,
        amount_a: Balance,
        asset_b: AssetId,
        amount_b: Balance,
    ) -> (result: Result<(), Error>)
        ensures
            match spec_withdraw_both(old(self)@, who, asset_a, amount_a, asset_b, amount_b) {
                Ok(holdings) => result == Ok::<(), Error>(()) && final(self)@ == holdings,
                Err(e) => result == Err::<(), Error>(e) && final(self)@ == old(self)@,
            },
    {
        self.withdraw(asset_a, who, amount_a)?;
        match self.withdraw(asset_b, who, amount_b) {
            Ok(()) => Ok(()),
            Err(e) => {
                let undone = self.deposit(asset_a, who, amount_a);
                assert(self@ =~= old(self)@);
                Err(e)
            },
        }
    }

    /// Adds two amounts to what `who` can spend, or neither.
    pub fn deposit_both(
        &mut self,
        who: AccountId,
        asset_a: AssetId,
        amount_a: Balance,
        asset_b: AssetId,
        amount_b: Balance,
    ) -> (result: Result<(), Error>)
        ensures
            match spec_deposit_both(old(self)@, who, asset_a, amount_a, asset_b, amount_b) {
                Ok(holdings) => result == Ok::<(), Error>(()) && final(self)@ == holdings,
                Err(e) => result == Err::<(), Error>(e) && final(self)@ == old(self)@,
            },
    {
        self.deposit(asset_a, who, amount_a)?;
        match self.deposit(asset_b, who, amount_b) {
            Ok(()) => Ok(()),
            Err(e) => {
                let undone = self.withdraw(asset_a, who, amount_a);
                assert(self@ =~= old(self)@);
                Err(e)
            },
        }
    }
}

/// Paying two amounts back restores the holdings from which they were
/// taken.
pub proof fn lemma_deposit_both_undoes_withdraw_both(
    holdings: Holdings,
    who: AccountId,
    asset_a: AssetId,
    amount_a: Balance,
    asset_b: AssetId,
    amount_b: Balance,
)
    requires
        holdings.dom().contains((who, asset_a)),
        holdings.dom().contains((who, asset_b)),
        spec_withdraw_both(holdings, who, asset_a, amount_a, asset_b, amount_b) is Ok,
    ensures
        spec_deposit_both(
            spec_withdraw_both(holdings, who, asset_a, amount_a, asset_b, amount_b)->Ok_0,
            who,
            asset_a,
            amount_a,
            asset_b,
            amount_b,
        ) == Ok::<Holdings, Error>(holdings),
{
    let taken = spec_withdraw_both(holdings, who, asset_a, amount_a, asset_b, amount_b)->Ok_0;
    let back = spec_deposit_both(taken, who, asset_a, amount_a, asset_b, amount_b);
    assert(back is Ok);
    assert(back->Ok_0 =~= holdings);
}

/// Taking two amounts away again restores the holdings to which they were
/// added.
pub proof fn lemma_withdraw_both_undoes_deposit_both(
    holdings: Holdings,
    who: AccountId,
    asset_a: AssetId,
    amount_a: Balance,
    asset_b: AssetId,
    amount_b: Balance,
)
    requires
        holdings.dom().contains((who, asset_a)),
        holdings.dom().contains((who, asset_b)),
        spec_deposit_both(holdings, who, asset_a, amount_a, asset_b, amount_b) is Ok,
    ensures
        spec_withdraw_both(
            spec_deposit_both(holdings, who, asset_a, amount_a, asset_b, amount_b)->Ok_0,
            who,
            asset_a,
            amount_a,
            asset_b,
            amount_b,
        ) == Ok::<Holdings, Error>(holdings),
{
    let added = spec_deposit_both(holdings, who, asset_a, amount_a, asset_b, amount_b)->Ok_0;
    let back = spec_withdraw_both(added, who, asset_a, amount_a, asset_b, amount_b);
    assert(back is Ok);
    assert(back->Ok_0 =~= holdings);
}

} // verus!
