//! The token module: an owned ledger with mint, burn and transfer, and a
//! staking pool counted in `u128`.
use vstd::prelude::*;
use std::collections::HashMap;
use crate::{AccountId, Balance};
use crate::error::DispatchError;
use crate::origin::{Origin, ensure_signed};
use crate::ledger::{Ledger, LedgerView, balance_in};
use crate::sum::{map_sum, lemma_map_sum_insert};

verus! {

broadcast use vstd::std_specs::hash::group_hash_axioms;

/// What one account has in the pool.
#[derive(Debug, Clone, Copy, PartialEq, Eq, Structural)]
pub struct UserAssets {
    /// The amount deposited.
    pub staking_amount: u128,
    /// The amount locked by exchanges.
    pub locked_amount: u128,
    /// The amount lent by exchanges.
    pub lending_amount: u128,
}

/// The assets of an account that never deposited.
pub open spec fn no_assets() -> UserAssets {
    UserAssets { staking_amount: 0, locked_amount: 0, lending_amount: 0 }
}

impl Default for UserAssets {
    /// All three amounts zero.
    fn default() -> (r: UserAssets)
        ensures
            r == no_assets(),
    {
        UserAssets { staking_amount: 0, locked_amount: 0, lending_amount: 0 }
    }
}

/// The assets recorded for `who`, or none.
pub open spec fn assets_of(m: Map<AccountId, UserAssets>, who: AccountId) -> UserAssets {
    if m.contains_key(who) { m[who] } else { no_assets() }
}

/// The sum of all deposits.
pub open spec fn total_staked(m: Map<AccountId, UserAssets>) -> int {
    map_sum(m.map_values(|u: UserAssets| u.staking_amount as int))
}

/// What the module reports.
#[derive(Debug, Clone, Copy, PartialEq, Eq, Structural)]
pub enum Event {
    /// `value` was created for the account.
    Mint(AccountId, Balance),
    /// `value` was destroyed from the account.
    Burn(AccountId, Balance),
    /// `value` moved from the first account to the second.
    Transfer(AccountId, AccountId, Balance),
    /// The account deposited the first amount; the pool then held the second.
    Deposit(AccountId, u128, u128),
    /// The account exchanged the first amount, for the fee given second.
    Exchange(AccountId, u128, u128),
}

/// What the module holds.
pub struct TokenView {
    /// The balances, owner and circulation.
    pub ledger: LedgerView,
    /// The sum deposited into the pool.
    pub pool_assets: u128,
    /// What each account has in the pool.
    pub user_assets: Map<AccountId, UserAssets>,
    /// The fee rate, per thousand.
    pub rate_fee1k: u8,
    /// The events reported so far, oldest first.
    pub events: Seq<Event>,
}

impl TokenView {
    /// The module after `deposit` signed by `who`, and its outcome. The new
    /// deposit of the account is written before the pool total is checked.
    pub open spec fn deposit(self, who: AccountId, amount: u128) -> (TokenView, Result<(), DispatchError>) {
        let ua = assets_of(self.user_assets, who);
        if ua.staking_amount + amount > u128::MAX {
            (self, Err(DispatchError::StakingOverflow))
        } else {
            let staked = TokenView {
                user_assets: self.user_assets.insert(
                    who,
                    UserAssets { staking_amount: (ua.staking_amount + amount) as u128, ..ua },
                ),
                ..self
            };
            if self.pool_assets + amount > u128::MAX {
                (staked, Err(DispatchError::PoolOverflow))
            } else {
                let pool = (self.pool_assets + amount) as u128;
                (
                    TokenView {
                        pool_assets: pool,
                        events: self.events.push(Event::Deposit(who, amount, pool)),
                        ..staked
                    },
                    Ok(()),
                )
            }
        }
    }

    /// The module after `exchange` signed by `who`, and its outcome: it
    /// succeeds only for a zero amount, which records the account's assets
    /// unchanged.
    pub open spec fn exchange(self, who: AccountId, amount: u128) -> (TokenView, Result<(), DispatchError>) {
        let ua = assets_of(self.user_assets, who);
        if amount != 0 {
            (self, Err(DispatchError::NotEnoughStake))
        } else {
            (
                TokenView {
                    user_assets: self.user_assets.insert(who, ua),
                    events: self.events.push(Event::Exchange(who, amount, 1)),
                    ..self
                },
                Ok(()),
            )
        }
    }

    /// The pool total less the sum of all deposits.
    pub open spec fn unaccounted(self) -> int {
        self.pool_assets - total_staked(self.user_assets)
    }
}

/// The state of the token module.
pub struct Module {
    ledger: Ledger,
    pool_assets: u128,
    user_assets: HashMap<AccountId, UserAssets>,
    rate_fee1k: u8,
    events: Vec<Event>,
}

impl View for Module {
    type V = TokenView;

    closed spec fn view(&self) -> TokenView {
        TokenView {
            ledger: self.ledger@,
            pool_assets: self.pool_assets,
            user_assets: self.user_assets@,
            rate_fee1k: self.rate_fee1k,
            events: self.events@,
        }
    }
}

impl Module {
    /// The module as its genesis configuration sets it up: not initialised,
    /// no balances, an empty pool and a fee rate of 1 per thousand.
    pub fn new(owner: AccountId, circulation: Balance) -> (r: Module)
        ensures
            r@ == (TokenView {
                ledger: LedgerView { initialized: false, owner, circulation, balances: Map::empty() },
                pool_assets: 0,
                user_assets: Map::empty(),
                rate_fee1k: 1,
                events: Seq::empty(),
            }),
    {
        Module {
            ledger: Ledger::new(owner, circulation),
            pool_assets: 0,
            user_assets: HashMap::new(),
            rate_fee1k: 1,
            events: Vec::new(),
        }
    }

    /// The deposits form a finite map.
    pub proof fn lemma_finite(&self)
        ensures
            self@.user_assets.dom().finite(),
    {
    }

    /// Whether `init` has run.
    pub fn is_init(&self) -> (r: bool)
        ensures
            r == self@.ledger.initialized,
    {
        self.ledger.is_init()
    }

    /// The account that may initialise, mint, burn and set the fee.
    pub fn owner(&self) -> (r: AccountId)
        ensures
            r == self@.ledger.owner,
    {
        self.ledger.owner()
    }

    /// The amount in circulation.
    pub fn circulation(&self) -> (r: Balance)
        ensures
            r == self@.ledger.circulation,
    {
        self.ledger.circulation()
    }

    /// The balance of `who`; 0 for an account without an entry.
    pub fn balance_of(&self, who: AccountId) -> (r: Balance)
        ensures
            r == balance_in(self@.ledger.balances, who),
    {
        self.ledger.balance_of(&who)
    }

    /// The sum deposited into the pool.
    pub fn pool_assets(&self) -> (r: u128)
        ensures
            r == self@.pool_assets,
    {
        self.pool_assets
    }

    /// What `who` has in the pool.
    pub fn user_assets_info(&self, who: AccountId) -> (r: UserAssets)
        ensures
            r == assets_of(self@.user_assets, who),
    {
        match self.user_assets.get(&who) {
            Some(u) => *u,
            None => UserAssets::default(),
        }
    }

    /// The fee rate, per thousand.
    pub fn rate_fee1k(&self) -> (r: u8)
        ensures
            r == self@.rate_fee1k,
    {
        self.rate_fee1k
    }

    /// The events reported so far, oldest first.
    pub fn events(&self) -> (r: &[Event])
        ensures
            r@ == self@.events,
    {
        self.events.as_slice()
    }

    /// Gives the owner the whole circulation; only the owner may call it,
    /// and only once.
    pub fn init(&mut self, origin: Origin) -> (r: Result<(), DispatchError>)
        ensures
            match origin {
                Origin::Signed(sender) => (final(self)@.ledger, r) == old(self)@.ledger.init(sender)
                    && final(self)@ == (TokenView { ledger: final(self)@.ledger, ..old(self)@ }),
                _ => r == Err::<(), DispatchError>(DispatchError::BadOrigin) && final(self)@ == old(self)@,
            },
    {
        let sender = ensure_signed(origin)?;
        self.ledger.init(sender)
    }

    /// The owner creates `value` for `to`.
    pub fn mint(&mut self, origin: Origin, to: AccountId, value: Balance) -> (r: Result<(), DispatchError>)
        ensures
            match origin {
                Origin::Signed(sender) => if sender != old(self)@.ledger.owner {
                    r == Err::<(), DispatchError>(DispatchError::OnlyOwner) && final(self)@ == old(self)@
                } else {
                    &&& (final(self)@.ledger, r) == old(self)@.ledger.mint(to, value)
                    &&& final(self)@ == (TokenView {
                        ledger: final(self)@.ledger,
                        events: if r is Ok { old(self)@.events.push(Event::Mint(to, value)) } else { old(self)@.events },
                        ..old(self)@
                    })
                },
                _ => r == Err::<(), DispatchError>(DispatchError::BadOrigin) && final(self)@ == old(self)@,
            },
    {
        let sender = ensure_signed(origin)?;
        if sender != self.ledger.owner() {
            return Err(DispatchError::OnlyOwner);
        }
        let r = self.ledger.mint(&to, value);
        if r.is_ok() {
            self.events.push(Event::Mint(to, value));
        }
        r
    }

    /// The owner destroys `value` held by `to`.
    pub fn burn(&mut self, origin: Origin, to: AccountId, value: Balance) -> (r: Result<(), DispatchError>)
        ensures
            match origin {
                Origin::Signed(sender) => if sender != old(self)@.ledger.owner {
                    r == Err::<(), DispatchError>(DispatchError::OnlyOwner) && final(self)@ == old(self)@
                } else {
                    &&& (final(self)@.ledger, r) == old(self)@.ledger.burn(to, value)
                    &&& final(self)@ == (TokenView {
                        ledger: final(self)@.ledger,
                        events: if r is Ok { old(self)@.events.push(Event::Burn(to, value)) } else { old(self)@.events },
                        ..old(self)@
                    })
                },
                _ => r == Err::<(), DispatchError>(DispatchError::BadOrigin) && final(self)@ == old(self)@,
            },
    {
        let sender = ensure_signed(origin)?;
        if sender != self.ledger.owner() {
            return Err(DispatchError::OnlyOwner);
        }
        let r = self.ledger.burn(&to, value);
        if r.is_ok() {
            self.events.push(Event::Burn(to, value));
        }
        r
    }

    /// Moves `value` from the signer to `to`; the signer must have a balance
    /// entry.
    pub fn transfer(&mut self, origin: Origin, to: AccountId, value: Balance) -> (r: Result<(), DispatchError>)
        ensures
            match origin {
                Origin::Signed(sender) => if !old(self)@.ledger.balances.contains_key(sender) {
                    r == Err::<(), DispatchError>(DispatchError::NoAccount) && final(self)@ == old(self)@
                } else {
                    &&& (final(self)@.ledger, r) == old(self)@.ledger.transfer(sender, to, value)
                    &&& final(self)@ == (TokenView {
                        ledger: final(self)@.ledger,
                        events: if r is Ok {
                            old(self)@.events.push(Event::Transfer(sender, to, value))
                        } else {
                            old(self)@.events
                        },
                        ..old(self)@
                    })
                },
                _ => r == Err::<(), DispatchError>(DispatchError::BadOrigin) && final(self)@ == old(self)@,
            },
    {
        let sender = ensure_signed(origin)?;
        if !self.ledger.has_account(&sender) {
            return Err(DispatchError::NoAccount);
        }
        let r = self.ledger.transfer(&sender, &to, value);
        if r.is_ok() {
            self.events.push(Event::Transfer(sender, to, value));
        }
        r
    }

    /// Adds `amount` to the signer's deposit and to the pool.
    pub fn deposit(&mut self, origin: Origin, amount: u128) -> (r: Result<(), DispatchError>)
        ensures
            match origin {
                Origin::Signed(who) => (final(self)@, r) == old(self)@.deposit(who, amount),
                _ => r == Err::<(), DispatchError>(DispatchError::BadOrigin) && final(self)@ == old(self)@,
            },
            r is Ok ==> final(self)@.unaccounted() == old(self)@.unaccounted(),
    {
        let who = ensure_signed(origin)?;
        let mut ua = self.user_assets_info(who);
        ua.staking_amount = match ua.staking_amount.checked_add(amount) {
            Some(v) => v,
            None => return Err(DispatchError::StakingOverflow),
        };
        let ghost before = self.user_assets@;
        self.user_assets.insert(who, ua);
        let pool = match self.pool_assets.checked_add(amount) {
            Some(v) => v,
            None => return Err(DispatchError::PoolOverflow),
        };
        self.pool_assets = pool;
        self.events.push(Event::Deposit(who, amount, pool));
        proof {
            lemma_total_staked_insert(before, who, ua);
        }
        Ok(())
    }

    /// Exchanges `amount` of the signer's stake: only a zero amount passes
    /// the stake check, and it records the signer's assets unchanged.
    pub fn exchange(&mut self, origin: Origin, amount: u128) -> (r: Result<(), DispatchError>)
        requires
            origin matches Origin::Signed(who) ==> assets_of(old(self)@.user_assets, who).lending_amount + amount
                <= u128::MAX,
        ensures
            match origin {
                Origin::Signed(who) => (final(self)@, r) == old(self)@.exchange(who, amount),
                _ => r == Err::<(), DispatchError>(DispatchError::BadOrigin) && final(self)@ == old(self)@,
            },
    {
        let who = ensure_signed(origin)?;
        let mut ua = self.user_assets_info(who);
        let pre_locked = ua.locked_amount;
        let pre_lending = ua.lending_amount;
        if !(pre_lending >= pre_lending + amount) {
            return Err(DispatchError::NotEnoughStake);
        }
        ua.lending_amount = pre_lending + amount;
        ua.locked_amount = pre_locked + amount;
        let fee: u128 = 1;
        self.user_assets.insert(who, ua);
        self.events.push(Event::Exchange(who, amount, fee));
        Ok(())
    }

    /// The owner sets the fee rate, per thousand.
    pub fn set_fee(&mut self, origin: Origin, fee: u8) -> (r: Result<(), DispatchError>)
        ensures
            match origin {
                Origin::Signed(who) => if who == old(self)@.ledger.owner {
                    r is Ok && final(self)@ == (TokenView { rate_fee1k: fee, ..old(self)@ })
                } else {
                    r == Err::<(), DispatchError>(DispatchError::OnlyOwner) && final(self)@ == old(self)@
                },
                _ => r == Err::<(), DispatchError>(DispatchError::BadOrigin) && final(self)@ == old(self)@,
            },
    {
        let who = ensure_signed(origin)?;
        if who != self.ledger.owner() {
            return Err(DispatchError::OnlyOwner);
        }
        self.rate_fee1k = fee;
        Ok(())
    }
}

/// The sum of the deposits after the record of `who` becomes `u`.
proof fn lemma_total_staked_insert(m: Map<AccountId, UserAssets>, who: AccountId, u: UserAssets)
    requires
        m.dom().finite(),
    ensures
        total_staked(m.insert(who, u)) == total_staked(m) - assets_of(m, who).staking_amount + u.staking_amount,
{
    let f = |x: UserAssets| x.staking_amount as int;
    let mi = m.map_values(f);
    assert(mi.dom() =~= m.dom());
    lemma_map_sum_insert(mi, who, u.staking_amount as int);
    assert(m.insert(who, u).map_values(f) =~= mi.insert(who, u.staking_amount as int));
}

/// Law: a deposit fails only when the account's stake or the pool total
/// would overflow. A success raises both by `amount`, reports the deposit
/// with the new pool total, and changes no other account's assets. When only
/// the pool total would overflow, the raised stake is kept.
pub proof fn lemma_deposit_law(v: TokenView, who: AccountId, amount: u128)
    ensures
        ({
            let (w, r) = v.deposit(who, amount);
            let ua = assets_of(v.user_assets, who);
            &&& r is Ok <==> ua.staking_amount + amount <= u128::MAX && v.pool_assets + amount <= u128::MAX
            &&& ua.staking_amount + amount > u128::MAX ==> r == Err::<(), DispatchError>(DispatchError::StakingOverflow) && w == v
            &&& ua.staking_amount + amount <= u128::MAX && v.pool_assets + amount > u128::MAX ==> {
                &&& r == Err::<(), DispatchError>(DispatchError::PoolOverflow)
                &&& w == (TokenView { user_assets: v.user_assets.insert(who, UserAssets { staking_amount: (ua.staking_amount + amount) as u128, ..ua }), ..v })
            }
            &&& r is Ok ==> {
                &&& w.pool_assets == v.pool_assets + amount
                &&& assets_of(w.user_assets, who) == (UserAssets { staking_amount: (ua.staking_amount + amount) as u128, ..ua })
                &&& forall|b: AccountId| b != who ==> assets_of(#[trigger] w.user_assets, b) == assets_of(v.user_assets, b)
                &&& w.events == v.events.push(Event::Deposit(who, amount, (v.pool_assets + amount) as u128))
                &&& w.ledger == v.ledger && w.rate_fee1k == v.rate_fee1k
            }
        }),
{
}

/// Law: an exchange succeeds exactly for a zero amount, and then leaves
/// every account's assets and the pool total as they were; otherwise it
/// changes nothing.
pub proof fn lemma_exchange_law(v: TokenView, who: AccountId, amount: u128)
    ensures
        ({
            let (w, r) = v.exchange(who, amount);
            &&& r is Ok <==> amount == 0
            &&& r is Err ==> r == Err::<(), DispatchError>(DispatchError::NotEnoughStake) && w == v
            &&& r is Ok ==> {
                &&& forall|b: AccountId| assets_of(#[trigger] w.user_assets, b) == assets_of(v.user_assets, b)
                &&& w.pool_assets == v.pool_assets
                &&& w.events == v.events.push(Event::Exchange(who, 0, 1))
                &&& w.ledger == v.ledger && w.rate_fee1k == v.rate_fee1k
            }
        }),
{
}

} // verus!
