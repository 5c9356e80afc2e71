//! The staking pool: accounts deposit collateral into a common pool.
use vstd::prelude::*;
use std::collections::HashMap;
use crate::{AccountId, Balance};
use crate::error::DispatchError;
use crate::origin::{Origin, ensure_signed};
use crate::sum::{map_sum, lemma_map_sum_insert};

verus! {

broadcast use vstd::std_specs::hash::group_hash_axioms;

/// What one account has in the pool.
#[derive(Debug, Clone, Copy, PartialEq, Eq, Structural)]
pub struct UserAssets {
    /// The amount deposited.
    pub staking_amount: Balance,
    /// The amount locked by exchanges.
    pub locked_amount: Balance,
    /// The amount lent by exchanges.
    pub lending_amount: Balance,
}

/// The assets of an account that never deposited.
pub open spec fn no_assets() -> UserAssets {
    UserAssets { staking_amount: 0, locked_amount: 0, lending_amount: 0 }
}

impl Default for UserAssets {
    /// All three amounts zero.
    fn default() -> (r: UserAssets)
        ensures
            r == no_assets(),
    {
        UserAssets { staking_amount: 0, locked_amount: 0, lending_amount: 0 }
    }
}

/// The assets recorded for `who`, or none.
pub open spec fn assets_of(m: Map<AccountId, UserAssets>, who: AccountId) -> UserAssets {
    if m.contains_key(who) { m[who] } else { no_assets() }
}

/// The sum of all deposits.
pub open spec fn total_staked(m: Map<AccountId, UserAssets>) -> int {
    map_sum(m.map_values(|u: UserAssets| u.staking_amount as int))
}

/// What the module reports.
#[derive(Debug, Clone, Copy, PartialEq, Eq, Structural)]
pub enum Event {
    /// The account deposited the first amount; the pool then held the second.
    Deposit(AccountId, Balance, Balance),
    /// The account exchanged the amount, for the given fee.
    Exchange(AccountId, Balance, u128),
}

/// What the module holds.
pub struct PoolView {
    /// The account that may set the fee.
    pub owner: AccountId,
    /// The sum deposited into the pool.
    pub pool_assets: Balance,
    /// What each account has in the pool.
    pub user_assets: Map<AccountId, UserAssets>,
    /// The fee rate, per thousand.
    pub rate_fee1k: u8,
    /// The events reported so far, oldest first.
    pub events: Seq<Event>,
}

impl PoolView {
    /// The module after `deposit` signed by `who`, and its outcome. The new
    /// deposit of the account is written before the pool total is checked.
    pub open spec fn deposit(self, who: AccountId, amount: Balance) -> (PoolView, Result<(), DispatchError>) {
        let ua = assets_of(self.user_assets, who);
        if ua.staking_amount + amount > u64::MAX {
            (self, Err(DispatchError::StakingOverflow))
        } else {
            let staked = PoolView {
                user_assets: self.user_assets.insert(
                    who,
                    UserAssets { staking_amount: (ua.staking_amount + amount) as Balance, ..ua },
                ),
                ..self
            };
            if self.pool_assets + amount > u64::MAX {
                (staked, Err(DispatchError::PoolOverflow))
            } else {
                let pool = (self.pool_assets + amount) as Balance;
                (
                    PoolView {
                        pool_assets: pool,
                        events: self.events.push(Event::Deposit(who, amount, pool)),
                        ..staked
                    },
                    Ok(()),
                )
            }
        }
    }

    /// The module after `exchange` signed by `who`, and its outcome: it
    /// succeeds only for a zero amount, which records the account's assets
    /// unchanged.
    pub open spec fn exchange(self, who: AccountId, amount: Balance) -> (PoolView, Result<(), DispatchError>) {
        let ua = assets_of(self.user_assets, who);
        if amount != 0 {
            (self, Err(DispatchError::NotEnoughStake))
        } else {
            (
                PoolView {
                    user_assets: self.user_assets.insert(who, ua),
                    events: self.events.push(Event::Exchange(who, amount, 1)),
                    ..self
                },
                Ok(()),
            )
        }
    }

    /// The pool total less the sum of all deposits.
    pub open spec fn unaccounted(self) -> int {
        self.pool_assets - total_staked(self.user_assets)
    }
}

/// The state of the pool module.
pub struct Module {
    owner: AccountId,
    pool_assets: Balance,
    user_assets: HashMap<AccountId, UserAssets>,
    rate_fee1k: u8,
    events: Vec<Event>,
}

impl View for Module {
    type V = PoolView;

    closed spec fn view(&self) -> PoolView {
        PoolView {
            owner: self.owner,
            pool_assets: self.pool_assets,
            user_assets: self.user_assets@,
            rate_fee1k: self.rate_fee1k,
            events: self.events@,
        }
    }
}

impl Module {
    /// The module as its genesis configuration sets it up: an empty pool and
    /// a fee rate of 1 per thousand.
    pub fn new(owner: AccountId) -> (r: Module)
        ensures
            r@ == (PoolView {
                owner,
                pool_assets: 0,
                user_assets: Map::empty(),
                rate_fee1k: 1,
                events: Seq::empty(),
            }),
    {
        Module { owner, pool_assets: 0, user_assets: HashMap::new(), rate_fee1k: 1, events: Vec::new() }
    }

    /// The deposits form a finite map.
    pub proof fn lemma_finite(&self)
        ensures
            self@.user_assets.dom().finite(),
    {
    }

    /// The account that may set the fee.
    pub fn owner(&self) -> (r: AccountId)
        ensures
            r == self@.owner,
    {
        self.owner
    }

    /// The sum deposited into the pool.
    pub fn pool_assets(&self) -> (r: Balance)
        ensures
            r == self@.pool_assets,
    {
        self.pool_assets
    }

    /// What `who` has in the pool.
    pub fn user_assets_info(&self, who: AccountId) -> (r: UserAssets)
        ensures
            r == assets_of(self@.user_assets, who),
    {
        match self.user_assets.get(&who) {
            Some(u) => *u,
            None => UserAssets::default(),
        }
    }

    /// The fee rate, per thousand.
    pub fn rate_fee1k(&self) -> (r: u8)
        ensures
            r == self@.rate_fee1k,
    {
        self.rate_fee1k
    }

    /// The events reported so far, oldest first.
    pub fn events(&self) -> (r: &[Event])
        ensures
            r@ == self@.events,
    {
        self.events.as_slice()
    }

    /// Adds `amount` to the signer's deposit and to the pool.
    pub fn deposit(&mut self, origin: Origin, amount: Balance) -> (r: Result<(), DispatchError>)
        ensures
            match origin {
                Origin::Signed(who) => (final(self)@, r) == old(self)@.deposit(who, amount),
                _ => r == Err::<(), DispatchError>(DispatchError::BadOrigin) && final(self)@ == old(self)@,
            },
            r is Ok ==> final(self)@.unaccounted() == old(self)@.unaccounted(),
    {
        let who = ensure_signed(origin)?;
        let mut ua = self.user_assets_info(who);
        ua.staking_amount = match ua.staking_amount.checked_add(amount) {
            Some(v) => v,
            None => return Err(DispatchError::StakingOverflow),
        };
        let ghost before = self.user_assets@;
        self.user_assets.insert(who, ua);
        let pool = match self.pool_assets.checked_add(amount) {
            Some(v) => v,
            None => return Err(DispatchError::PoolOverflow),
        };
        self.pool_assets = pool;
        self.events.push(Event::Deposit(who, amount, pool));
        proof {
            lemma_total_staked_insert(before, who, ua);
        }
        Ok(())
    }

    /// Exchanges `amount` of the signer's stake: only a zero amount passes
    /// the stake check, and it records the signer's assets unchanged.
    pub fn exchange(&mut self, origin: Origin, amount: Balance) -> (r: Result<(), DispatchError>)
        requires
            origin matches Origin::Signed(who) ==> assets_of(old(self)@.user_assets, who).lending_amount + amount
                <= u64::MAX,
        ensures
            match origin {
                Origin::Signed(who) => (final(self)@, r) == old(self)@.exchange(who, amount),
                _ => r == Err::<(), DispatchError>(DispatchError::BadOrigin) && final(self)@ == old(self)@,
            },
    {
        let who = ensure_signed(origin)?;
        let mut ua = self.user_assets_info(who);
        let pre_locked = ua.locked_amount;
        let pre_lending = ua.lending_amount;
        if !(pre_lending >= pre_lending + amount) {
            return Err(DispatchError::NotEnoughStake);
        }
        ua.lending_amount = pre_lending + amount;
        ua.locked_amount = pre_locked + amount;
        let fee: u128 = 1;
        self.user_assets.insert(who, ua);
        self.events.push(Event::Exchange(who, amount, fee));
        Ok(())
    }

    /// The owner sets the fee rate, per thousand.
    pub fn set_fee(&mut self, origin: Origin, fee: u8) -> (r: Result<(), DispatchError>)
        ensures
            match origin {
                Origin::Signed(who) => if who == old(self)@.owner {
                    r is Ok && final(self)@ == (PoolView { rate_fee1k: fee, ..old(self)@ })
                } else {
                    r == Err::<(), DispatchError>(DispatchError::OnlyOwner) && final(self)@ == old(self)@
                },
                _ => r == Err::<(), DispatchError>(DispatchError::BadOrigin) && final(self)@ == old(self)@,
            },
    {
        let who = ensure_signed(origin)?;
        if who != self.owner {
            return Err(DispatchError::OnlyOwner);
        }
        self.rate_fee1k = fee;
        Ok(())
    }
}

/// The sum of the deposits after the record of `who` becomes `u`.
proof fn lemma_total_staked_insert(m: Map<AccountId, UserAssets>, who: AccountId, u: UserAssets)
    requires
        m.dom().finite(),
    ensures
        total_staked(m.insert(who, u)) == total_staked(m) - assets_of(m, who).staking_amount + u.staking_amount,
{
    let f = |x: UserAssets| x.staking_amount as int;
    let mi = m.map_values(f);
    assert(mi.dom() =~= m.dom());
    lemma_map_sum_insert(mi, who, u.staking_amount as int);
    assert(m.insert(who, u).map_values(f) =~= mi.insert(who, u.staking_amount as int));
}

/// Law: a deposit fails only when the account's stake or the pool total
/// would overflow. A success raises both by `amount`, reports the deposit
/// with the new pool total, and changes no other account's assets. When only
/// the pool total would overflow, the raised stake is kept.
pub proof fn lemma_deposit_law(v: PoolView, who: AccountId, amount: Balance)
    ensures
        ({
            let (w, r) = v.deposit(who, amount);
            let ua = assets_of(v.user_assets, who);
            &&& r is Ok <==> ua.staking_amount + amount <= u64::MAX && v.pool_assets + amount <= u64::MAX
            &&& ua.staking_amount + amount > u64::MAX ==> r == Err::<(), DispatchError>(DispatchError::StakingOverflow) && w == v
            &&& ua.staking_amount + amount <= u64::MAX && v.pool_assets + amount > u64::MAX ==> {
                &&& r == Err::<(), DispatchError>(DispatchError::PoolOverflow)
                &&& w == (PoolView { user_assets: v.user_assets.insert(who, UserAssets { staking_amount: (ua.staking_amount + amount) as Balance, ..ua }), ..v })
            }
            &&& r is Ok ==> {
                &&& w.pool_assets == v.pool_assets + amount
                &&& assets_of(w.user_assets, who) == (UserAssets { staking_amount: (ua.staking_amount + amount) as Balance, ..ua })
                &&& forall|b: AccountId| b != who ==> assets_of(#[trigger] w.user_assets, b) == assets_of(v.user_assets, b)
                &&& w.events == v.events.push(Event::Deposit(who, amount, (v.pool_assets + amount) as Balance))
                &&& w.owner == v.owner && w.rate_fee1k == v.rate_fee1k
            }
        }),
{
}

/// Law: an exchange succeeds exactly for a zero amount, and then leaves
/// every account's assets and the pool total as they were; otherwise it
/// changes nothing.
pub proof fn lemma_exchange_law(v: PoolView, who: AccountId, amount: Balance)
    ensures
        ({
            let (w, r) = v.exchange(who, amount);
            &&& r is Ok <==> amount == 0
            &&& r is Err ==> r == Err::<(), DispatchError>(DispatchError::NotEnoughStake) && w == v
            &&& r is Ok ==> {
                &&& forall|b: AccountId| assets_of(#[trigger] w.user_assets, b) == assets_of(v.user_assets, b)
                &&& w.pool_assets == v.pool_assets
                &&& w.events == v.events.push(Event::Exchange(who, 0, 1))
                &&& w.owner == v.owner && w.rate_fee1k == v.rate_fee1k
            }
        }),
{
}

} // verus!
