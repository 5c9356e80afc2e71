//! Collateral positions ("cups"): an account locks SKR collateral in a cup
//! and draws the stable coin against it.
use vstd::prelude::*;
use std::collections::HashMap;
use crate::{AccountId, Balance};
use crate::error::DispatchError;
use crate::origin::{Origin, ensure_signed};
use crate::storage::{DoubleMap, pair_or_zero};
use crate::runtime::traits::{Token, MintableToken};
use crate::node::cdp::{transfer_effect, mint_effect, burn_effect};

verus! {

broadcast use vstd::std_specs::hash::group_hash_axioms;

/// A cup: the collateral locked in it and the stable coin drawn from it.
#[derive(Debug, Clone, Copy, PartialEq, Eq, Structural)]
pub struct Cup {
    /// The index of the cup.
    pub id: u64,
    /// The SKR collateral locked.
    pub locked_collaterals: Balance,
    /// The stable coin drawn.
    pub debts: Balance,
    /// The tax owed, in the stable coin.
    pub art: Balance,
}

/// The empty cup with index `id`.
pub open spec fn empty_cup(id: u64) -> Cup {
    Cup { id, locked_collaterals: 0, debts: 0, art: 0 }
}

impl Default for Cup {
    /// The empty cup with index 0.
    fn default() -> (r: Cup)
        ensures
            r == empty_cup(0),
    {
        Cup { id: 0, locked_collaterals: 0, debts: 0, art: 0 }
    }
}

/// The cup stored at `i`, or the empty cup with index 0 where none is.
pub open spec fn cup_or_default(m: Map<u64, Cup>, i: u64) -> Cup {
    if m.contains_key(i) { m[i] } else { empty_cup(0) }
}

/// The count recorded for `who`, or 0.
pub open spec fn u32_or_zero(m: Map<AccountId, u32>, who: AccountId) -> u32 {
    if m.contains_key(who) { m[who] } else { 0 }
}

/// What the module holds.
pub struct CupsView {
    /// The account that holds the locked collateral.
    pub owner: AccountId,
    /// The price of SKR.
    pub skr_price: u64,
    /// The owner of each cup.
    pub cup_owner: Map<u64, AccountId>,
    /// The cups by index.
    pub cups: Map<u64, Cup>,
    /// The number of cups opened.
    pub all_cups_count: u64,
    /// The index of each account's n-th cup.
    pub owned_cups: Map<(AccountId, u64), u64>,
    /// The number of cups each account opened.
    pub owned_cup_count: Map<AccountId, u32>,
}

impl CupsView {
    /// The index of the cup that `sender` addresses with `owned_cup_index`;
    /// 0 where `sender` has no such cup.
    pub open spec fn target(self, sender: AccountId, owned_cup_index: u32) -> u64 {
        pair_or_zero(self.owned_cups, sender, owned_cup_index as u64)
    }

    /// The cup that `sender` addresses with `owned_cup_index`.
    pub open spec fn target_cup(self, sender: AccountId, owned_cup_index: u32) -> Cup {
        cup_or_default(self.cups, self.target(sender, owned_cup_index))
    }

    /// Every account's cups are recorded with that account as owner, and
    /// every cup below the count has an owner and a record.
    pub open spec fn ownership_consistent(self) -> bool {
        &&& forall|p: u64| p < self.all_cups_count ==> #[trigger] self.cup_owner.contains_key(p) && self.cups.contains_key(p)
        &&& forall|a: AccountId, i: u64|
            #![trigger self.owned_cups.contains_key((a, i))]
            i < u32_or_zero(self.owned_cup_count, a) ==> {
                &&& self.owned_cups.contains_key((a, i))
                &&& self.owned_cups[(a, i)] < self.all_cups_count
                &&& self.cup_owner[self.owned_cups[(a, i)]] == a
            }
    }

    /// The module after `open` signed by `sender`, and its outcome.
    pub open spec fn open(self, sender: AccountId) -> (CupsView, Result<(), DispatchError>) {
        let c = self.all_cups_count;
        let oc = u32_or_zero(self.owned_cup_count, sender);
        if c == u64::MAX {
            (self, Err(DispatchError::CupCountOverflow))
        } else {
            let created = CupsView {
                cups: self.cups.insert(c, empty_cup(c)),
                all_cups_count: (c + 1) as u64,
                cup_owner: self.cup_owner.insert(c, sender),
                ..self
            };
            if oc == u32::MAX {
                (created, Err(DispatchError::OwnedCupCountOverflow))
            } else {
                (
                    CupsView {
                        owned_cups: created.owned_cups.insert((sender, oc as u64), c),
                        owned_cup_count: created.owned_cup_count.insert(sender, (oc + 1) as u32),
                        ..created
                    },
                    Ok(()),
                )
            }
        }
    }

    /// The module with the addressed cup replaced by `cup`.
    pub open spec fn store(self, sender: AccountId, owned_cup_index: u32, cup: Cup) -> CupsView {
        CupsView { cups: self.cups.insert(self.target(sender, owned_cup_index), cup), ..self }
    }

    /// Replacing a cup keeps the ownership records consistent.
    pub proof fn lemma_store_keeps_ownership(self, sender: AccountId, owned_cup_index: u32, cup: Cup)
        requires
            self.ownership_consistent(),
        ensures
            self.store(sender, owned_cup_index, cup).ownership_consistent(),
    {
        let after = self.store(sender, owned_cup_index, cup);
        assert forall|p: u64| p < after.all_cups_count implies #[trigger] after.cup_owner.contains_key(p)
            && after.cups.contains_key(p) by {
            assert(self.cup_owner.contains_key(p));
        }
    }

    /// The module after `lock`, and its outcome. Nothing checks that the
    /// addressed cup exists or belongs to `sender`.
    pub open spec fn lock(self, sender: AccountId, owned_cup_index: u32, amount: Balance) -> (CupsView, Result<(), DispatchError>) {
        let cup = self.target_cup(sender, owned_cup_index);
        if cup.locked_collaterals + amount > u64::MAX {
            (self, Err(DispatchError::CollateralOverflow))
        } else {
            (
                self.store(
                    sender,
                    owned_cup_index,
                    Cup { locked_collaterals: (cup.locked_collaterals + amount) as Balance, ..cup },
                ),
                Ok(()),
            )
        }
    }

    /// The collateral left after freeing `amount`: it stops at zero.
    pub open spec fn freed_collateral(self, sender: AccountId, owned_cup_index: u32, amount: Balance) -> Balance {
        let cup = self.target_cup(sender, owned_cup_index);
        if cup.locked_collaterals >= amount { (cup.locked_collaterals - amount) as Balance } else { 0 }
    }

    /// The module after `free`, where `safe` is the safety verdict on the
    /// lowered collateral, and its outcome.
    pub open spec fn free(self, sender: AccountId, owned_cup_index: u32, amount: Balance, safe: bool) -> (
        CupsView,
        Result<(), DispatchError>,
    ) {
        let cup = self.target_cup(sender, owned_cup_index);
        if self.cup_owner[self.target(sender, owned_cup_index)] != sender {
            (self, Err(DispatchError::OnlyPositionOwner))
        } else if !safe {
            (self, Err(DispatchError::CupUnsafe))
        } else {
            (
                self.store(
                    sender,
                    owned_cup_index,
                    Cup { locked_collaterals: self.freed_collateral(sender, owned_cup_index, amount), ..cup },
                ),
                Ok(()),
            )
        }
    }

    /// The module after `draw`, where `safe` is the safety verdict on the
    /// raised debt, and its outcome.
    pub open spec fn draw(self, sender: AccountId, owned_cup_index: u32, amount: Balance, safe: bool) -> (
        CupsView,
        Result<(), DispatchError>,
    ) {
        let cup = self.target_cup(sender, owned_cup_index);
        if self.cup_owner[self.target(sender, owned_cup_index)] != sender {
            (self, Err(DispatchError::OnlyPositionOwner))
        } else if cup.debts + amount > u64::MAX {
            (self, Err(DispatchError::DebtsOverflow))
        } else if !safe {
            (self, Err(DispatchError::CupUnsafe))
        } else {
            (self.store(sender, owned_cup_index, Cup { debts: (cup.debts + amount) as Balance, ..cup }), Ok(()))
        }
    }

    /// The module after `wipe`, and its outcome. Nothing checks that the
    /// addressed cup belongs to `sender`.
    pub open spec fn wipe(self, sender: AccountId, owned_cup_index: u32, amount: Balance) -> (CupsView, Result<(), DispatchError>) {
        let cup = self.target_cup(sender, owned_cup_index);
        if cup.debts < amount {
            (self, Err(DispatchError::DebtUnderflow))
        } else {
            (self.store(sender, owned_cup_index, Cup { debts: (cup.debts - amount) as Balance, ..cup }), Ok(()))
        }
    }
}

/// The state of the cup module.
pub struct Module {
    owner: AccountId,
    skr_price: u64,
    cup_owner: HashMap<u64, AccountId>,
    cups: HashMap<u64, Cup>,
    all_cups_count: u64,
    owned_cups: DoubleMap,
    owned_cup_count: HashMap<AccountId, u32>,
}

impl View for Module {
    type V = CupsView;

    closed spec fn view(&self) -> CupsView {
        CupsView {
            owner: self.owner,
            skr_price: self.skr_price,
            cup_owner: self.cup_owner@,
            cups: self.cups@,
            all_cups_count: self.all_cups_count,
            owned_cups: self.owned_cups@,
            owned_cup_count: self.owned_cup_count@,
        }
    }
}


impl Module {
    /// The module as its genesis configuration sets it up: SKR priced at 1,
    /// no cups.
    pub fn new(owner: AccountId) -> (r: Module)
        ensures
            r@ == (CupsView {
                owner,
                skr_price: 1,
                cup_owner: Map::empty(),
                cups: Map::empty(),
                all_cups_count: 0,
                owned_cups: Map::empty(),
                owned_cup_count: Map::empty(),
            }),
            r@.ownership_consistent(),
    {
        Module {
            owner,
            skr_price: 1,
            cup_owner: HashMap::new(),
            cups: HashMap::new(),
            all_cups_count: 0,
            owned_cups: DoubleMap::new(),
            owned_cup_count: HashMap::new(),
        }
    }

    /// The account that holds the locked collateral.
    pub fn owner(&self) -> (r: AccountId)
        ensures
            r == self@.owner,
    {
        self.owner
    }

    /// The price of SKR.
    pub fn skr_price(&self) -> (r: u64)
        ensures
            r == self@.skr_price,
    {
        self.skr_price
    }

    /// The owner of cup `index`, if it has one.
    pub fn owner_of(&self, index: u64) -> (r: Option<AccountId>)
        ensures
            r == (if self@.cup_owner.contains_key(index) {
                Some(self@.cup_owner[index])
            } else {
                None
            }),
    {
        match self.cup_owner.get(&index) {
            Some(a) => Some(*a),
            None => None,
        }
    }

    /// The cup at `index`; the empty cup with index 0 where there is none.
    pub fn cup_by_index(&self, index: u64) -> (r: Cup)
        ensures
            r == cup_or_default(self@.cups, index),
    {
        match self.cups.get(&index) {
            Some(c) => *c,
            None => Cup::default(),
        }
    }

    /// The number of cups opened.
    pub fn all_cups_count(&self) -> (r: u64)
        ensures
            r == self@.all_cups_count,
    {
        self.all_cups_count
    }

    /// The index of the `owned_cup_index`-th cup of `who`; 0 where there is none.
    pub fn cup_of_owner_by_index(&self, who: AccountId, owned_cup_index: u32) -> (r: u64)
        ensures
            r == pair_or_zero(self@.owned_cups, who, owned_cup_index as u64),
    {
        self.owned_cups.get(who, owned_cup_index as u64)
    }

    /// The number of cups `who` opened.
    pub fn owned_cup_count(&self, who: AccountId) -> (r: u32)
        ensures
            r == u32_or_zero(self@.owned_cup_count, who),
    {
        match self.owned_cup_count.get(&who) {
            Some(c) => *c,
            None => 0,
        }
    }

    /// Opens an empty cup owned by the signer.
    pub fn open(&mut self, origin: Origin) -> (r: Result<(), DispatchError>)
        ensures
            match origin {
                Origin::Signed(sender) => (final(self)@, r) == old(self)@.open(sender),
                _ => r == Err::<(), DispatchError>(DispatchError::BadOrigin) && final(self)@ == old(self)@,
            },
            old(self)@.ownership_consistent() ==> final(self)@.ownership_consistent(),
    {
        let sender = ensure_signed(origin)?;
        let count = self.all_cups_count;
        if count == u64::MAX {
            return Err(DispatchError::CupCountOverflow);
        }
        let cup = Cup { id: count, locked_collaterals: 0, debts: 0, art: 0 };
        self.cups.insert(count, cup);
        self.all_cups_count = count + 1;
        self.cup_owner.insert(count, sender);
        let owned_count = self.owned_cup_count(sender);
        if owned_count == u32::MAX {
            proof {
                self.lemma_open_keeps_ownership(old(self)@, sender);
            }
            return Err(DispatchError::OwnedCupCountOverflow);
        }
        self.owned_cups.insert(sender, owned_count as u64, count);
        self.owned_cup_count.insert(sender, owned_count + 1);
        proof {
            self.lemma_open_keeps_ownership(old(self)@, sender);
        }
        Ok(())
    }

    proof fn lemma_open_keeps_ownership(&self, before: CupsView, sender: AccountId)
        requires
            before.all_cups_count < u64::MAX,
            self@ == before.open(sender).0,
        ensures
            before.ownership_consistent() ==> self@.ownership_consistent(),
    {
        if before.ownership_consistent() {
            let after = self@;
            assert forall|a: AccountId, i: u64|
                #![trigger after.owned_cups.contains_key((a, i))]
                i < u32_or_zero(after.owned_cup_count, a) implies {
                    &&& after.owned_cups.contains_key((a, i))
                    &&& after.owned_cups[(a, i)] < after.all_cups_count
                    &&& after.cup_owner[after.owned_cups[(a, i)]] == a
                } by {
                if !(a == sender && i == u32_or_zero(before.owned_cup_count, sender) as u64) {
                    assert(before.owned_cups.contains_key((a, i)));
                }
            }
        }
    }

    /// Locks `amount` of the signer's SKR in the cup it addresses with
    /// `owned_cup_index` and sends the SKR to the module's owner. The cup is
    /// not checked to exist or to belong to the signer (an index the signer
    /// has no cup for addresses cup 0), and the outcome of the transfer is
    /// not looked at.
    pub fn lock<S: Token>(&mut self, origin: Origin, owned_cup_index: u32, amount: Balance, skr: &mut S) -> (r: Result<
        (),
        DispatchError,
    >)
        ensures
            match origin {
                Origin::Signed(sender) => {
                    &&& (final(self)@, r) == old(self)@.lock(sender, owned_cup_index, amount)
                    &&& transfer_effect(*old(skr), *final(skr), r is Ok, sender, old(self)@.owner, amount)
                },
                _ => r == Err::<(), DispatchError>(DispatchError::BadOrigin) && final(self)@ == old(self)@ && *final(skr)
                    == *old(skr),
            },
            old(self)@.ownership_consistent() ==> final(self)@.ownership_consistent(),
    {
        let sender = ensure_signed(origin)?;
        let cup_index = self.owned_cups.get(sender, owned_cup_index as u64);
        let mut cup = self.cup_by_index(cup_index);
        cup.locked_collaterals = match cup.locked_collaterals.checked_add(amount) {
            Some(v) => v,
            None => return Err(DispatchError::CollateralOverflow),
        };
        proof {
            if old(self)@.ownership_consistent() {
                old(self)@.lemma_store_keeps_ownership(sender, owned_cup_index, cup);
            }
        }
        self.cups.insert(cup_index, cup);
        let _ = skr.transfer(&sender, &self.owner, amount);
        Ok(())
    }

    /// Frees `amount` of the collateral in the signer's addressed cup (the
    /// collateral stops at zero) and sends `amount` back from the module's
    /// owner, provided the signer owns the cup and `is_safe` accepts it with
    /// the lowered collateral (arguments: collateral, debt, SKR price). The
    /// outcome of the transfer is not looked at. The addressed cup must have
    /// an owner.
    pub fn free<S: Token, F: Fn(Balance, Balance, u64) -> bool>(
        &mut self,
        origin: Origin,
        owned_cup_index: u32,
        amount: Balance,
        skr: &mut S,
        is_safe: F,
    ) -> (r: Result<(), DispatchError>)
        requires
            forall|c: Balance, d: Balance, p: u64| is_safe.requires((c, d, p)),
            origin matches Origin::Signed(sender) ==> old(self)@.cup_owner.contains_key(
                old(self)@.target(sender, owned_cup_index),
            ),
        ensures
            match origin {
                Origin::Signed(sender) => {
                    let cup = old(self)@.target_cup(sender, owned_cup_index);
                    let args = (old(self)@.freed_collateral(sender, owned_cup_index, amount), cup.debts, old(self)@.skr_price);
                    &&& (final(self)@, r) == old(self)@.free(sender, owned_cup_index, amount, r != Err::<(), DispatchError>(DispatchError::CupUnsafe))
                    &&& r is Ok ==> is_safe.ensures(args, true)
                    &&& r == Err::<(), DispatchError>(DispatchError::CupUnsafe) ==> is_safe.ensures(args, false)
                    &&& transfer_effect(*old(skr), *final(skr), r is Ok, old(self)@.owner, sender, amount)
                    &&& r is Ok ==> old(self)@.cup_owner[old(self)@.target(sender, owned_cup_index)] == sender
                },
                _ => r == Err::<(), DispatchError>(DispatchError::BadOrigin) && final(self)@ == old(self)@ && *final(skr)
                    == *old(skr),
            },
            old(self)@.ownership_consistent() ==> final(self)@.ownership_consistent(),
    {
        let sender = ensure_signed(origin)?;
        let cup_index = self.owned_cups.get(sender, owned_cup_index as u64);
        let cup_owner = match self.cup_owner.get(&cup_index) {
            Some(a) => *a,
            None => {
                proof {
                    assert(false);
                }
                return Err(DispatchError::OnlyPositionOwner);
            },
        };
        if sender != cup_owner {
            return Err(DispatchError::OnlyPositionOwner);
        }
        let mut cup = self.cup_by_index(cup_index);
        cup.locked_collaterals = match cup.locked_collaterals.checked_sub(amount) {
            Some(v) => v,
            None => 0,
        };
        if !is_safe(cup.locked_collaterals, cup.debts, self.skr_price) {
            return Err(DispatchError::CupUnsafe);
        }
        self.cups.insert(cup_index, cup);
        let _ = skr.transfer(&self.owner, &sender, amount);
        Ok(())
    }

    /// Adds `amount` to the debt of the signer's addressed cup and mints it
    /// to the signer, provided the signer owns the cup and `is_safe` accepts
    /// it with the raised debt (arguments: collateral, debt, SKR price). The
    /// outcome of the mint is not looked at. The addressed cup must have an
    /// owner.
    pub fn draw<B: MintableToken, F: Fn(Balance, Balance, u64) -> bool>(
        &mut self,
        origin: Origin,
        owned_cup_index: u32,
        amount: Balance,
        sai: &mut B,
        is_safe: F,
    ) -> (r: Result<(), DispatchError>)
        requires
            forall|c: Balance, d: Balance, p: u64| is_safe.requires((c, d, p)),
            origin matches Origin::Signed(sender) ==> old(self)@.cup_owner.contains_key(
                old(self)@.target(sender, owned_cup_index),
            ),
        ensures
            match origin {
                Origin::Signed(sender) => {
                    let cup = old(self)@.target_cup(sender, owned_cup_index);
                    let args = (cup.locked_collaterals, (cup.debts + amount) as Balance, old(self)@.skr_price);
                    &&& (final(self)@, r) == old(self)@.draw(sender, owned_cup_index, amount, r != Err::<(), DispatchError>(DispatchError::CupUnsafe))
                    &&& r is Ok ==> is_safe.ensures(args, true)
                    &&& r == Err::<(), DispatchError>(DispatchError::CupUnsafe) ==> is_safe.ensures(args, false)
                    &&& mint_effect(*old(sai), *final(sai), r is Ok, sender, amount)
                    &&& r is Ok ==> old(self)@.cup_owner[old(self)@.target(sender, owned_cup_index)] == sender
                },
                _ => r == Err::<(), DispatchError>(DispatchError::BadOrigin) && final(self)@ == old(self)@ && *final(sai)
                    == *old(sai),
            },
            old(self)@.ownership_consistent() ==> final(self)@.ownership_consistent(),
    {
        let sender = ensure_signed(origin)?;
        let cup_index = self.owned_cups.get(sender, owned_cup_index as u64);
        let cup_owner = match self.cup_owner.get(&cup_index) {
            Some(a) => *a,
            None => {
                proof {
                    assert(false);
                }
                return Err(DispatchError::OnlyPositionOwner);
            },
        };
        if sender != cup_owner {
            return Err(DispatchError::OnlyPositionOwner);
        }
        let mut cup = self.cup_by_index(cup_index);
        cup.debts = match cup.debts.checked_add(amount) {
            Some(v) => v,
            None => return Err(DispatchError::DebtsOverflow),
        };
        if !is_safe(cup.locked_collaterals, cup.debts, self.skr_price) {
            return Err(DispatchError::CupUnsafe);
        }
        self.cups.insert(cup_index, cup);
        let _ = sai.mint(&sender, amount);
        Ok(())
    }

    /// Lowers the debt of the addressed cup by `amount` and burns it from
    /// the signer. The cup is not checked to belong to the signer, and the
    /// outcome of the burn is not looked at.
    pub fn wipe<B: MintableToken>(&mut self, origin: Origin, owned_cup_index: u32, amount: Balance, sai: &mut B) -> (r: Result<
        (),
        DispatchError,
    >)
        ensures
            match origin {
                Origin::Signed(sender) => {
                    &&& (final(self)@, r) == old(self)@.wipe(sender, owned_cup_index, amount)
                    &&& burn_effect(*old(sai), *final(sai), r is Ok, sender, amount)
                },
                _ => r == Err::<(), DispatchError>(DispatchError::BadOrigin) && final(self)@ == old(self)@ && *final(sai)
                    == *old(sai),
            },
            old(self)@.ownership_consistent() ==> final(self)@.ownership_consistent(),
    {
        let sender = ensure_signed(origin)?;
        let cup_index = self.owned_cups.get(sender, owned_cup_index as u64);
        let mut cup = self.cup_by_index(cup_index);
        cup.debts = match cup.debts.checked_sub(amount) {
            Some(v) => v,
            None => return Err(DispatchError::DebtUnderflow),
        };
        proof {
            if old(self)@.ownership_consistent() {
                old(self)@.lemma_store_keeps_ownership(sender, owned_cup_index, cup);
            }
        }
        self.cups.insert(cup_index, cup);
        let _ = sai.burn(&sender, amount);
        Ok(())
    }
}

/// Law: paying back what a successful draw added always succeeds and gives
/// every cup its former collateral and debt.
pub proof fn lemma_wipe_undoes_draw(v: CupsView, sender: AccountId, owned_cup_index: u32, amount: Balance)
    requires
        v.draw(sender, owned_cup_index, amount, true).1 is Ok,
    ensures
        v.draw(sender, owned_cup_index, amount, true).0.wipe(sender, owned_cup_index, amount).1 is Ok,
        forall|q: u64|
            cup_or_default(#[trigger] v.draw(sender, owned_cup_index, amount, true).0.wipe(sender, owned_cup_index, amount).0.cups, q)
                == cup_or_default(v.cups, q),
{
}

/// Law: freeing, with the cup judged safe, what a successful lock added
/// gives every cup its former collateral and debt, where the signer owns
/// the cup.
pub proof fn lemma_free_undoes_lock(v: CupsView, sender: AccountId, owned_cup_index: u32, amount: Balance)
    requires
        v.lock(sender, owned_cup_index, amount).1 is Ok,
        v.cup_owner[v.target(sender, owned_cup_index)] == sender,
    ensures
        v.lock(sender, owned_cup_index, amount).0.free(sender, owned_cup_index, amount, true).1 is Ok,
        forall|q: u64|
            cup_or_default(#[trigger] v.lock(sender, owned_cup_index, amount).0.free(sender, owned_cup_index, amount, true).0.cups, q)
                == cup_or_default(v.cups, q),
{
}

/// Law: a lock fails only when the collateral would overflow; it then adds `amount` to the collateral of the cup that the signer's `owned_cup_index`-th record names (cup 0 where there is no such record) and changes nothing else.
pub proof fn lemma_lock_law(v: CupsView, sender: AccountId, owned_cup_index: u32, amount: Balance)
    ensures
        ({
            let (w, r) = v.lock(sender, owned_cup_index, amount);
            let p = pair_or_zero(v.owned_cups, sender, owned_cup_index as u64);
            let cup = cup_or_default(v.cups, p);
            &&& r is Ok <==> cup.locked_collaterals + amount <= u64::MAX
            &&& cup.locked_collaterals + amount > u64::MAX ==> r == Err::<(), DispatchError>(DispatchError::CollateralOverflow)
            &&& r is Err ==> w == v
            &&& r is Ok ==> {
                &&& cup_or_default(w.cups, p) == Cup { locked_collaterals: (cup.locked_collaterals + amount) as Balance, ..cup }
                &&& forall|q: u64| q != p ==> cup_or_default(#[trigger] w.cups, q) == cup_or_default(v.cups, q)
                &&& w.owner == v.owner && w.skr_price == v.skr_price
                &&& w.cup_owner == v.cup_owner && w.all_cups_count == v.all_cups_count
                &&& w.owned_cups == v.owned_cups && w.owned_cup_count == v.owned_cup_count
            }
        }),
{
}

/// Law: a free succeeds exactly when the signer owns the addressed cup and the cup is judged safe; it then lowers the collateral by `amount`, stopping at zero, and changes nothing else.
pub proof fn lemma_free_law(v: CupsView, sender: AccountId, owned_cup_index: u32, amount: Balance, safe: bool)
    ensures
        ({
            let (w, r) = v.free(sender, owned_cup_index, amount, safe);
            let p = pair_or_zero(v.owned_cups, sender, owned_cup_index as u64);
            let cup = cup_or_default(v.cups, p);
            &&& r is Ok <==> v.cup_owner[p] == sender && safe
            &&& v.cup_owner[p] != sender ==> r == Err::<(), DispatchError>(DispatchError::OnlyPositionOwner)
            &&& v.cup_owner[p] == sender && !safe ==> r == Err::<(), DispatchError>(DispatchError::CupUnsafe)
            &&& r is Err ==> w == v
            &&& r is Ok ==> {
                &&& cup_or_default(w.cups, p) == Cup { locked_collaterals: (if cup.locked_collaterals >= amount { cup.locked_collaterals - amount } else { 0 }) as Balance, ..cup }
                &&& forall|q: u64| q != p ==> cup_or_default(#[trigger] w.cups, q) == cup_or_default(v.cups, q)
                &&& w.owner == v.owner && w.skr_price == v.skr_price
                &&& w.cup_owner == v.cup_owner && w.all_cups_count == v.all_cups_count
                &&& w.owned_cups == v.owned_cups && w.owned_cup_count == v.owned_cup_count
            }
        }),
{
}

/// Law: a draw fails only when the signer does not own the addressed cup, the debt would overflow, or the cup is judged unsafe, whatever debt the cup already has; it then adds `amount` to the debt and changes nothing else.
pub proof fn lemma_draw_law(v: CupsView, sender: AccountId, owned_cup_index: u32, amount: Balance, safe: bool)
    ensures
        ({
            let (w, r) = v.draw(sender, owned_cup_index, amount, safe);
            let p = pair_or_zero(v.owned_cups, sender, owned_cup_index as u64);
            let cup = cup_or_default(v.cups, p);
            &&& r is Ok <==> v.cup_owner[p] == sender && cup.debts + amount <= u64::MAX && safe
            &&& v.cup_owner[p] != sender ==> r == Err::<(), DispatchError>(DispatchError::OnlyPositionOwner)
            &&& v.cup_owner[p] == sender && cup.debts + amount > u64::MAX ==> r == Err::<(), DispatchError>(DispatchError::DebtsOverflow)
            &&& v.cup_owner[p] == sender && cup.debts + amount <= u64::MAX && !safe ==> r == Err::<(), DispatchError>(DispatchError::CupUnsafe)
            &&& r is Err ==> w == v
            &&& r is Ok ==> {
                &&& cup_or_default(w.cups, p) == Cup { debts: (cup.debts + amount) as Balance, ..cup }
                &&& forall|q: u64| q != p ==> cup_or_default(#[trigger] w.cups, q) == cup_or_default(v.cups, q)
                &&& w.owner == v.owner && w.skr_price == v.skr_price
                &&& w.cup_owner == v.cup_owner && w.all_cups_count == v.all_cups_count
                &&& w.owned_cups == v.owned_cups && w.owned_cup_count == v.owned_cup_count
            }
        }),
{
}

/// Law: a wipe succeeds exactly when `amount` is at most the addressed cup's debt; it then takes `amount` off that debt and changes nothing else.
pub proof fn lemma_wipe_law(v: CupsView, sender: AccountId, owned_cup_index: u32, amount: Balance)
    ensures
        ({
            let (w, r) = v.wipe(sender, owned_cup_index, amount);
            let p = pair_or_zero(v.owned_cups, sender, owned_cup_index as u64);
            let cup = cup_or_default(v.cups, p);
            &&& r is Ok <==> amount <= cup.debts
            &&& amount > cup.debts ==> r == Err::<(), DispatchError>(DispatchError::DebtUnderflow)
            &&& r is Err ==> w == v
            &&& r is Ok ==> {
                &&& cup_or_default(w.cups, p) == Cup { debts: (cup.debts - amount) as Balance, ..cup }
                &&& forall|q: u64| q != p ==> cup_or_default(#[trigger] w.cups, q) == cup_or_default(v.cups, q)
                &&& w.owner == v.owner && w.skr_price == v.skr_price
                &&& w.cup_owner == v.cup_owner && w.all_cups_count == v.all_cups_count
                &&& w.owned_cups == v.owned_cups && w.owned_cup_count == v.owned_cup_count
            }
        }),
{
}

/// Law: opening fails only when a count would overflow. A success adds
/// cup number `all_cups_count`, empty and owned by the signer, records it as
/// the signer's next cup, and raises both counts by one.
pub proof fn lemma_open_law(v: CupsView, sender: AccountId)
    ensures
        ({
            let (w, r) = v.open(sender);
            let c = v.all_cups_count;
            let oc = u32_or_zero(v.owned_cup_count, sender);
            &&& r is Ok <==> c < u64::MAX && oc < u32::MAX
            &&& r is Ok ==> {
                &&& w.all_cups_count == c + 1
                &&& w.cups == v.cups.insert(c, empty_cup(c))
                &&& w.cup_owner == v.cup_owner.insert(c, sender)
                &&& w.owned_cups == v.owned_cups.insert((sender, oc as u64), c)
                &&& u32_or_zero(w.owned_cup_count, sender) == oc + 1
                &&& forall|a: AccountId| a != sender ==> u32_or_zero(#[trigger] w.owned_cup_count, a) == u32_or_zero(v.owned_cup_count, a)
                &&& w.owner == v.owner && w.skr_price == v.skr_price
            }
            &&& c == u64::MAX ==> r == Err::<(), DispatchError>(DispatchError::CupCountOverflow) && w == v
        }),
{
}

} // verus!
