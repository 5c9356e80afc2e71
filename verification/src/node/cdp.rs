//! Collateralised debt positions: an account locks SKR collateral in a
//! position and draws BDT against it, as long as the position stays safe.
use vstd::prelude::*;
use std::collections::HashMap;
use crate::{AccountId, Balance, BlockNumber};
use crate::error::DispatchError;
use crate::origin::{Origin, ensure_signed, ensure_root};
use crate::storage::{u64_or_zero, get_u64, DoubleMap, pair_or_zero};
use crate::ledger::{transfer_result, transferred, mint_result, minted, burn_result, burned, circulation_after};
use crate::node::traits::{Token, MintableToken};

verus! {

broadcast use vstd::std_specs::hash::group_hash_axioms;

/// An exchange rate that an account has set from a given block on.
#[derive(Debug, Clone, Copy, PartialEq, Eq, Structural)]
pub struct ExchangeRateItem {
    owner: AccountId,
    rate: u32,
    start_time: BlockNumber,
}

/// A position: the collateral locked in it and the stable coin lent from it.
#[derive(Debug, Clone, Copy, PartialEq, Eq, Structural)]
pub struct Pos {
    /// The index of the position.
    pub id: u64,
    /// The SKR collateral locked.
    pub lock_skr: Balance,
    /// The BDT lent.
    pub lend_bdt: Balance,
    /// The stability fee owed, in BDT.
    pub fee_bdt: Balance,
}

/// The empty position with index `id`.
pub open spec fn empty_pos(id: u64) -> Pos {
    Pos { id, lock_skr: 0, lend_bdt: 0, fee_bdt: 0 }
}

impl Default for Pos {
    /// The empty position with index 0.
    fn default() -> (r: Pos)
        ensures
            r == empty_pos(0),
    {
        Pos { id: 0, lock_skr: 0, lend_bdt: 0, fee_bdt: 0 }
    }
}

/// The position stored at `i`, or the empty position with index 0 where
/// none is.
pub open spec fn pos_or_default(m: Map<u64, Pos>, i: u64) -> Pos {
    if m.contains_key(i) { m[i] } else { empty_pos(0) }
}

/// What the module reports.
#[derive(Debug, Clone, Copy, PartialEq, Eq, Structural)]
pub enum Event {
    /// The account opened a position.
    Open(AccountId),
    /// The account locked the amount in its position with the given owned index.
    Lock(AccountId, u64, Balance),
    /// The account freed the amount from its position with the given owned index.
    Free(AccountId, u64, Balance),
    /// The account drew the amount from its position with the given owned index.
    Draw(AccountId, u64, Balance),
    /// The account paid back the amount to its position with the given owned index.
    Wipe(AccountId, u64, Balance),
}

/// What the module holds.
pub struct CdpView {
    /// The account that holds the locked collateral.
    pub owner: AccountId,
    /// The price of SKR.
    pub skr_price: u64,
    /// The stability fee.
    pub stability_fee: u32,
    /// The owner of each position.
    pub pos_owner: Map<u64, AccountId>,
    /// The number of positions opened.
    pub pos_count: u64,
    /// The positions by index.
    pub positions: Map<u64, Pos>,
    /// The number of positions each account opened.
    pub owned_pos_count: Map<AccountId, u64>,
    /// The index of each account's n-th position.
    pub owned_pos: Map<(AccountId, u64), u64>,
    /// The exchange rates by account.
    pub exchange_rates: Map<AccountId, ExchangeRateItem>,
    /// The events reported so far, oldest first.
    pub events: Seq<Event>,
}

impl CdpView {
    /// The index of the position that `sender` addresses with `owned_index`.
    pub open spec fn target(self, sender: AccountId, owned_index: u64) -> u64 {
        pair_or_zero(self.owned_pos, sender, owned_index)
    }

    /// The position that `sender` addresses with `owned_index`.
    pub open spec fn target_pos(self, sender: AccountId, owned_index: u64) -> Pos {
        pos_or_default(self.positions, self.target(sender, owned_index))
    }

    /// Whether `sender` has a position with owned index `owned_index`.
    pub open spec fn has_owned(self, sender: AccountId, owned_index: u64) -> bool {
        owned_index < u64_or_zero(self.owned_pos_count, sender)
    }

    /// Every account's positions are recorded with that account as owner,
    /// every position below the count has an owner and a record, and the
    /// count of each account's positions covers exactly its records.
    pub open spec fn ownership_consistent(self) -> bool {
        &&& forall|p: u64| p < self.pos_count ==> #[trigger] self.pos_owner.contains_key(p) && self.positions.contains_key(p)
        &&& forall|a: AccountId, i: u64|
            #![trigger self.owned_pos.contains_key((a, i))]
            i < u64_or_zero(self.owned_pos_count, a) ==> {
                &&& self.owned_pos.contains_key((a, i))
                &&& self.owned_pos[(a, i)] < self.pos_count
                &&& self.pos_owner[self.owned_pos[(a, i)]] == a
            }
    }

    /// The module after `open` signed by `sender`, and its outcome.
    pub open spec fn open(self, sender: AccountId) -> (CdpView, Result<(), DispatchError>) {
        let c = self.pos_count;
        let oc = u64_or_zero(self.owned_pos_count, sender);
        if c == u64::MAX {
            (self, Err(DispatchError::PositionCountOverflow))
        } else {
            let created = CdpView {
                positions: self.positions.insert(c, empty_pos(c)),
                pos_count: (c + 1) as u64,
                pos_owner: self.pos_owner.insert(c, sender),
                ..self
            };
            if oc == u64::MAX {
                (created, Err(DispatchError::OwnedPositionCountOverflow))
            } else {
                (
                    CdpView {
                        owned_pos: created.owned_pos.insert((sender, oc), c),
                        owned_pos_count: created.owned_pos_count.insert(sender, (oc + 1) as u64),
                        events: created.events.push(Event::Open(sender)),
                        ..created
                    },
                    Ok(()),
                )
            }
        }
    }

    /// The module with the addressed position replaced by `pos` and `event`
    /// reported.
    pub open spec fn store(self, sender: AccountId, owned_index: u64, pos: Pos, event: Event) -> CdpView {
        CdpView {
            positions: self.positions.insert(self.target(sender, owned_index), pos),
            events: self.events.push(event),
            ..self
        }
    }

    /// The module after `lock`, and its outcome.
    pub open spec fn lock(self, sender: AccountId, owned_index: u64, amount: Balance) -> (CdpView, Result<(), DispatchError>) {
        let pos = self.target_pos(sender, owned_index);
        if !self.has_owned(sender, owned_index) {
            (self, Err(DispatchError::OwnedIndexTooBig))
        } else if pos.lock_skr + amount > u64::MAX {
            (self, Err(DispatchError::LockOverflow))
        } else {
            (
                self.store(
                    sender,
                    owned_index,
                    Pos { lock_skr: (pos.lock_skr + amount) as Balance, ..pos },
                    Event::Lock(sender, owned_index, amount),
                ),
                Ok(()),
            )
        }
    }

    /// The module after `free`, where `safe` is the safety verdict on the
    /// lowered collateral, and its outcome.
    pub open spec fn free(self, sender: AccountId, owned_index: u64, amount: Balance, safe: bool) -> (
        CdpView,
        Result<(), DispatchError>,
    ) {
        let pos = self.target_pos(sender, owned_index);
        if !self.has_owned(sender, owned_index) {
            (self, Err(DispatchError::OwnedIndexTooBig))
        } else if amount >= pos.lock_skr {
            (self, Err(DispatchError::AmountNotBelowLock))
        } else if !safe {
            (self, Err(DispatchError::Unsafe))
        } else {
            (
                self.store(
                    sender,
                    owned_index,
                    Pos { lock_skr: (pos.lock_skr - amount) as Balance, ..pos },
                    Event::Free(sender, owned_index, amount),
                ),
                Ok(()),
            )
        }
    }

    /// The module after `draw`, where `safe` is the safety verdict on the
    /// raised debt, and its outcome.
    pub open spec fn draw(self, sender: AccountId, owned_index: u64, amount: Balance, safe: bool) -> (
        CdpView,
        Result<(), DispatchError>,
    ) {
        let pos = self.target_pos(sender, owned_index);
        if !self.has_owned(sender, owned_index) {
            (self, Err(DispatchError::OwnedIndexTooBig))
        } else if pos.lend_bdt + amount > u64::MAX {
            (self, Err(DispatchError::DebtOverflow))
        } else if !safe {
            (self, Err(DispatchError::Unsafe))
        } else {
            (
                self.store(
                    sender,
                    owned_index,
                    Pos { lend_bdt: (pos.lend_bdt + amount) as Balance, ..pos },
                    Event::Draw(sender, owned_index, amount),
                ),
                Ok(()),
            )
        }
    }

    /// The module after `wipe`, and its outcome.
    pub open spec fn wipe(self, sender: AccountId, owned_index: u64, amount: Balance) -> (CdpView, Result<(), DispatchError>) {
        let pos = self.target_pos(sender, owned_index);
        if !self.has_owned(sender, owned_index) {
            (self, Err(DispatchError::OwnedIndexTooBig))
        } else if amount >= pos.lend_bdt {
            (self, Err(DispatchError::AmountNotBelowDebt))
        } else {
            (
                self.store(
                    sender,
                    owned_index,
                    Pos { lend_bdt: (pos.lend_bdt - amount) as Balance, ..pos },
                    Event::Wipe(sender, owned_index, amount),
                ),
                Ok(()),
            )
        }
    }
}

/// `after` is `before` once a transfer of `value` from `source` to `dest`
/// was attempted where `attempted`, and `before` unchanged where not.
pub open spec fn transfer_effect<S: Token>(before: S, after: S, attempted: bool, source: AccountId, dest: AccountId, value: Balance) -> bool {
    if attempted {
        &&& after.supply() == before.supply()
        &&& after.balances() == if transfer_result(before.balances(), source, dest, value) is Ok {
            transferred(before.balances(), source, dest, value)
        } else {
            before.balances()
        }
    } else {
        after == before
    }
}

/// `after` is `before` once `value` was minted to `to` where `attempted`,
/// and `before` unchanged where not.
pub open spec fn mint_effect<B: MintableToken>(before: B, after: B, attempted: bool, to: AccountId, value: Balance) -> bool {
    if attempted {
        &&& after.balances() == minted(before.balances(), before.supply(), to, value)
        &&& after.supply() == circulation_after(
            before.supply(),
            value,
            mint_result(before.balances(), before.supply(), to, value),
            true,
        )
    } else {
        after == before
    }
}

/// `after` is `before` once `value` was burnt from `from` where `attempted`,
/// and `before` unchanged where not.
pub open spec fn burn_effect<B: MintableToken>(before: B, after: B, attempted: bool, from: AccountId, value: Balance) -> bool {
    if attempted {
        &&& after.balances() == burned(before.balances(), before.supply(), from, value)
        &&& after.supply() == circulation_after(
            before.supply(),
            value,
            burn_result(before.balances(), before.supply(), from, value),
            false,
        )
    } else {
        after == before
    }
}

/// The state of the position module.
pub struct Module {
    owner: AccountId,
    skr_price: u64,
    stability_fee: u32,
    pos_owner: HashMap<u64, AccountId>,
    pos_count: u64,
    positions: HashMap<u64, Pos>,
    owned_pos_count: HashMap<AccountId, u64>,
    owned_pos: DoubleMap,
    exchange_rates: HashMap<AccountId, ExchangeRateItem>,
    events: Vec<Event>,
}

impl View for Module {
    type V = CdpView;

    closed spec fn view(&self) -> CdpView {
        CdpView {
            owner: self.owner,
            skr_price: self.skr_price,
            stability_fee: self.stability_fee,
            pos_owner: self.pos_owner@,
            pos_count: self.pos_count,
            positions: self.positions@,
            owned_pos_count: self.owned_pos_count@,
            owned_pos: self.owned_pos@,
            exchange_rates: self.exchange_rates@,
            events: self.events@,
        }
    }
}


impl Module {
    /// The module as its genesis configuration sets it up: SKR priced at 1,
    /// a stability fee of 5000, no positions.
    pub fn new(owner: AccountId) -> (r: Module)
        ensures
            r@ == (CdpView {
                owner,
                skr_price: 1,
                stability_fee: 5000,
                pos_owner: Map::empty(),
                pos_count: 0,
                positions: Map::empty(),
                owned_pos_count: Map::empty(),
                owned_pos: Map::empty(),
                exchange_rates: Map::empty(),
                events: Seq::empty(),
            }),
            r@.ownership_consistent(),
    {
        Module {
            owner,
            skr_price: 1,
            stability_fee: 5000,
            pos_owner: HashMap::new(),
            pos_count: 0,
            positions: HashMap::new(),
            owned_pos_count: HashMap::new(),
            owned_pos: DoubleMap::new(),
            exchange_rates: HashMap::new(),
            events: Vec::new(),
        }
    }

    /// The account that holds the locked collateral.
    pub fn owner(&self) -> (r: AccountId)
        ensures
            r == self@.owner,
    {
        self.owner
    }

    /// The price of SKR.
    pub fn skr_price(&self) -> (r: u64)
        ensures
            r == self@.skr_price,
    {
        self.skr_price
    }

    /// The stability fee.
    pub fn stability_fee(&self) -> (r: u32)
        ensures
            r == self@.stability_fee,
    {
        self.stability_fee
    }

    /// The owner of position `index`, if it has one.
    pub fn owner_of(&self, index: u64) -> (r: Option<AccountId>)
        ensures
            r == (if self@.pos_owner.contains_key(index) {
                Some(self@.pos_owner[index])
            } else {
                None
            }),
    {
        match self.pos_owner.get(&index) {
            Some(a) => Some(*a),
            None => None,
        }
    }

    /// The number of positions opened.
    pub fn pos_count(&self) -> (r: u64)
        ensures
            r == self@.pos_count,
    {
        self.pos_count
    }

    /// The position at `index`; the empty position with index 0 where there
    /// is none.
    pub fn pos_index(&self, index: u64) -> (r: Pos)
        ensures
            r == pos_or_default(self@.positions, index),
    {
        match self.positions.get(&index) {
            Some(p) => *p,
            None => Pos::default(),
        }
    }

    /// The number of positions `who` opened.
    pub fn owned_pos_count(&self, who: AccountId) -> (r: u64)
        ensures
            r == u64_or_zero(self@.owned_pos_count, who),
    {
        get_u64(&self.owned_pos_count, who)
    }

    /// The index of the `owned_index`-th position of `who`; 0 where there is none.
    pub fn owned_pos_index(&self, who: AccountId, owned_index: u64) -> (r: u64)
        ensures
            r == pair_or_zero(self@.owned_pos, who, owned_index),
    {
        self.owned_pos.get(who, owned_index)
    }

    /// The exchange rate that `who` set, if any.
    pub fn exchange_rates(&self, who: AccountId) -> (r: Option<ExchangeRateItem>)
        ensures
            r == (if self@.exchange_rates.contains_key(who) {
                Some(self@.exchange_rates[who])
            } else {
                None
            }),
    {
        match self.exchange_rates.get(&who) {
            Some(e) => Some(*e),
            None => None,
        }
    }

    /// The events reported so far, oldest first.
    pub fn events(&self) -> (r: &[Event])
        ensures
            r@ == self@.events,
    {
        self.events.as_slice()
    }

    /// The root origin sets the price of SKR.
    pub fn update_price(&mut self, origin: Origin, price: u64) -> (r: Result<(), DispatchError>)
        ensures
            if origin == Origin::Root {
                r is Ok && final(self)@ == (CdpView { skr_price: price, ..old(self)@ })
            } else {
                r == Err::<(), DispatchError>(DispatchError::BadOrigin) && final(self)@ == old(self)@
            },
            old(self)@.ownership_consistent() ==> final(self)@.ownership_consistent(),
    {
        ensure_root(origin)?;
        self.skr_price = price;
        Ok(())
    }

    /// Opens an empty position owned by the signer.
    pub fn open(&mut self, origin: Origin) -> (r: Result<(), DispatchError>)
        ensures
            match origin {
                Origin::Signed(sender) => (final(self)@, r) == old(self)@.open(sender),
                _ => r == Err::<(), DispatchError>(DispatchError::BadOrigin) && final(self)@ == old(self)@,
            },
            old(self)@.ownership_consistent() ==> final(self)@.ownership_consistent(),
    {
        let sender = ensure_signed(origin)?;
        let pos_count = self.pos_count;
        if pos_count == u64::MAX {
            return Err(DispatchError::PositionCountOverflow);
        }
        let pos = Pos { id: pos_count, lock_skr: 0, lend_bdt: 0, fee_bdt: 0 };
        self.positions.insert(pos_count, pos);
        self.pos_count = pos_count + 1;
        self.pos_owner.insert(pos_count, sender);
        let owned_count = get_u64(&self.owned_pos_count, sender);
        if owned_count == u64::MAX {
            proof {
                self.lemma_open_keeps_ownership(old(self)@, sender);
            }
            return Err(DispatchError::OwnedPositionCountOverflow);
        }
        self.owned_pos.insert(sender, owned_count, pos_count);
        self.owned_pos_count.insert(sender, owned_count + 1);
        self.events.push(Event::Open(sender));
        proof {
            self.lemma_open_keeps_ownership(old(self)@, sender);
        }
        Ok(())
    }

    proof fn lemma_open_keeps_ownership(&self, before: CdpView, sender: AccountId)
        requires
            before.pos_count < u64::MAX,
            self@ == before.open(sender).0,
        ensures
            before.ownership_consistent() ==> self@.ownership_consistent(),
    {
        if before.ownership_consistent() {
            let after = self@;
            assert forall|a: AccountId, i: u64|
                #![trigger after.owned_pos.contains_key((a, i))]
                i < u64_or_zero(after.owned_pos_count, a) implies {
                    &&& after.owned_pos.contains_key((a, i))
                    &&& after.owned_pos[(a, i)] < after.pos_count
                    &&& after.pos_owner[after.owned_pos[(a, i)]] == a
                } by {
                if !(a == sender && i == u64_or_zero(before.owned_pos_count, sender)) {
                    assert(before.owned_pos.contains_key((a, i)));
                }
            }
        }
    }

    /// Locks `amount` of the signer's SKR in its `owned_index`-th position
    /// and sends the SKR to the module's owner. The outcome of that transfer
    /// is not looked at.
    pub fn lock<S: Token>(&mut self, origin: Origin, owned_index: u64, amount: Balance, skr: &mut S) -> (r: Result<
        (),
        DispatchError,
    >)
        ensures
            match origin {
                Origin::Signed(sender) => {
                    &&& (final(self)@, r) == old(self)@.lock(sender, owned_index, amount)
                    &&& transfer_effect(*old(skr), *final(skr), r is Ok, sender, old(self)@.owner, amount)
                    &&& r is Ok && old(self)@.ownership_consistent() ==> old(self)@.pos_owner[old(self)@.target(
                        sender,
                        owned_index,
                    )] == sender
                },
                _ => r == Err::<(), DispatchError>(DispatchError::BadOrigin) && final(self)@ == old(self)@ && *final(skr)
                    == *old(skr),
            },
            old(self)@.ownership_consistent() ==> final(self)@.ownership_consistent(),
    {
        let sender = ensure_signed(origin)?;
        if owned_index >= get_u64(&self.owned_pos_count, sender) {
            return Err(DispatchError::OwnedIndexTooBig);
        }
        let pos_index = self.owned_pos.get(sender, owned_index);
        let mut pos = self.pos_index(pos_index);
        pos.lock_skr = match pos.lock_skr.checked_add(amount) {
            Some(v) => v,
            None => return Err(DispatchError::LockOverflow),
        };
        self.positions.insert(pos_index, pos);
        let _ = skr.transfer(&sender, &self.owner, amount);
        self.events.push(Event::Lock(sender, owned_index, amount));
        Ok(())
    }

    /// Frees `amount` of the SKR locked in the signer's `owned_index`-th
    /// position and sends it back from the module's owner, provided `amount`
    /// is below the locked collateral and `is_safe` accepts the position with
    /// the lowered collateral (arguments: collateral, debt, SKR price). The
    /// outcome of the transfer is not looked at.
    pub fn free<S: Token, F: Fn(Balance, Balance, u64) -> bool>(
        &mut self,
        origin: Origin,
        owned_index: u64,
        amount: Balance,
        skr: &mut S,
        is_safe: F,
    ) -> (r: Result<(), DispatchError>)
        requires
            forall|c: Balance, d: Balance, p: u64| is_safe.requires((c, d, p)),
        ensures
            match origin {
                Origin::Signed(sender) => {
                    let pos = old(self)@.target_pos(sender, owned_index);
                    let args = ((pos.lock_skr - amount) as Balance, pos.lend_bdt, old(self)@.skr_price);
                    &&& (final(self)@, r) == old(self)@.free(sender, owned_index, amount, r != Err::<(), DispatchError>(DispatchError::Unsafe))
                    &&& r is Ok ==> is_safe.ensures(args, true)
                    &&& r == Err::<(), DispatchError>(DispatchError::Unsafe) ==> is_safe.ensures(args, false)
                    &&& transfer_effect(*old(skr), *final(skr), r is Ok, old(self)@.owner, sender, amount)
                    &&& r is Ok && old(self)@.ownership_consistent() ==> old(self)@.pos_owner[old(self)@.target(
                        sender,
                        owned_index,
                    )] == sender
                },
                _ => r == Err::<(), DispatchError>(DispatchError::BadOrigin) && final(self)@ == old(self)@ && *final(skr)
                    == *old(skr),
            },
            old(self)@.ownership_consistent() ==> final(self)@.ownership_consistent(),
    {
        let sender = ensure_signed(origin)?;
        if owned_index >= get_u64(&self.owned_pos_count, sender) {
            return Err(DispatchError::OwnedIndexTooBig);
        }
        let pos_index = self.owned_pos.get(sender, owned_index);
        let mut pos = self.pos_index(pos_index);
        if amount >= pos.lock_skr {
            return Err(DispatchError::AmountNotBelowLock);
        }
        let lock_skr = pos.lock_skr - amount;
        let lend_bdt = pos.lend_bdt;
        if !is_safe(lock_skr, lend_bdt, self.skr_price) {
            return Err(DispatchError::Unsafe);
        }
        pos.lock_skr = lock_skr;
        self.positions.insert(pos_index, pos);
        let _ = skr.transfer(&self.owner, &sender, amount);
        self.events.push(Event::Free(sender, owned_index, amount));
        Ok(())
    }

    /// Lends `amount` of BDT from the signer's `owned_index`-th position and
    /// mints it to the signer, provided `is_safe` accepts the position with
    /// the raised debt (arguments: collateral, debt, SKR price). The outcome
    /// of the mint is not looked at.
    pub fn draw<B: MintableToken, F: Fn(Balance, Balance, u64) -> bool>(
        &mut self,
        origin: Origin,
        owned_index: u64,
        amount: Balance,
        bdt: &mut B,
        is_safe: F,
    ) -> (r: Result<(), DispatchError>)
        requires
            forall|c: Balance, d: Balance, p: u64| is_safe.requires((c, d, p)),
        ensures
            match origin {
                Origin::Signed(sender) => {
                    let pos = old(self)@.target_pos(sender, owned_index);
                    let args = (pos.lock_skr, (pos.lend_bdt + amount) as Balance, old(self)@.skr_price);
                    &&& (final(self)@, r) == old(self)@.draw(sender, owned_index, amount, r != Err::<(), DispatchError>(DispatchError::Unsafe))
                    &&& r is Ok ==> is_safe.ensures(args, true)
                    &&& r == Err::<(), DispatchError>(DispatchError::Unsafe) ==> is_safe.ensures(args, false)
                    &&& mint_effect(*old(bdt), *final(bdt), r is Ok, sender, amount)
                    &&& r is Ok && old(self)@.ownership_consistent() ==> old(self)@.pos_owner[old(self)@.target(
                        sender,
                        owned_index,
                    )] == sender
                },
                _ => r == Err::<(), DispatchError>(DispatchError::BadOrigin) && final(self)@ == old(self)@ && *final(bdt)
                    == *old(bdt),
            },
            old(self)@.ownership_consistent() ==> final(self)@.ownership_consistent(),
    {
        let sender = ensure_signed(origin)?;
        if owned_index >= get_u64(&self.owned_pos_count, sender) {
            return Err(DispatchError::OwnedIndexTooBig);
        }
        let pos_index = self.owned_pos.get(sender, owned_index);
        let mut pos = self.pos_index(pos_index);
        let lock_skr = pos.lock_skr;
        let lend_bdt = match pos.lend_bdt.checked_add(amount) {
            Some(v) => v,
            None => return Err(DispatchError::DebtOverflow),
        };
        if !is_safe(lock_skr, lend_bdt, self.skr_price) {
            return Err(DispatchError::Unsafe);
        }
        pos.lend_bdt = lend_bdt;
        self.positions.insert(pos_index, pos);
        let _ = bdt.mint(&sender, amount);
        self.events.push(Event::Draw(sender, owned_index, amount));
        Ok(())
    }

    /// Pays back `amount` of the BDT lent from the signer's `owned_index`-th
    /// position, provided it is below the debt, and burns it from the signer.
    /// The outcome of the burn is not looked at.
    pub fn wipe<B: MintableToken>(&mut self, origin: Origin, owned_index: u64, amount: Balance, bdt: &mut B) -> (r: Result<
        (),
        DispatchError,
    >)
        ensures
            match origin {
                Origin::Signed(sender) => {
                    &&& (final(self)@, r) == old(self)@.wipe(sender, owned_index, amount)
                    &&& burn_effect(*old(bdt), *final(bdt), r is Ok, sender, amount)
                    &&& r is Ok && old(self)@.ownership_consistent() ==> old(self)@.pos_owner[old(self)@.target(
                        sender,
                        owned_index,
                    )] == sender
                },
                _ => r == Err::<(), DispatchError>(DispatchError::BadOrigin) && final(self)@ == old(self)@ && *final(bdt)
                    == *old(bdt),
            },
            old(self)@.ownership_consistent() ==> final(self)@.ownership_consistent(),
    {
        let sender = ensure_signed(origin)?;
        if owned_index >= get_u64(&self.owned_pos_count, sender) {
            return Err(DispatchError::OwnedIndexTooBig);
        }
        let pos_index = self.owned_pos.get(sender, owned_index);
        let mut pos = self.pos_index(pos_index);
        if amount >= pos.lend_bdt {
            return Err(DispatchError::AmountNotBelowDebt);
        }
        pos.lend_bdt = pos.lend_bdt - amount;
        self.positions.insert(pos_index, pos);
        let _ = bdt.burn(&sender, amount);
        self.events.push(Event::Wipe(sender, owned_index, amount));
        Ok(())
    }
}


/// Law: paying back what a successful draw lent succeeds exactly when the
/// position had debt before the draw (a payment must stay below the debt),
/// and then every position is as it was before the draw.
pub proof fn lemma_wipe_undoes_draw(v: CdpView, sender: AccountId, owned_index: u64, amount: Balance)
    requires
        v.draw(sender, owned_index, amount, true).1 is Ok,
    ensures
        ({
            let v2 = v.draw(sender, owned_index, amount, true).0;
            &&& v2.wipe(sender, owned_index, amount).1 is Ok <==> v.target_pos(sender, owned_index).lend_bdt > 0
            &&& v2.wipe(sender, owned_index, amount).1 is Ok ==> forall|q: u64|
                pos_or_default(#[trigger] v2.wipe(sender, owned_index, amount).0.positions, q) == pos_or_default(
                    v.positions,
                    q,
                )
        }),
{
    let v2 = v.draw(sender, owned_index, amount, true).0;
    let p = v.target(sender, owned_index);
    assert(v2.target(sender, owned_index) == p);
    assert(v2.has_owned(sender, owned_index));
}

/// Law: freeing what a successful lock added, with the position judged
/// safe, succeeds exactly when the position held collateral before the
/// lock (a release must stay below the collateral), and then every
/// position is as it was before the lock.
pub proof fn lemma_free_undoes_lock(v: CdpView, sender: AccountId, owned_index: u64, amount: Balance)
    requires
        v.lock(sender, owned_index, amount).1 is Ok,
    ensures
        ({
            let v2 = v.lock(sender, owned_index, amount).0;
            &&& v2.free(sender, owned_index, amount, true).1 is Ok <==> v.target_pos(sender, owned_index).lock_skr > 0
            &&& v2.free(sender, owned_index, amount, true).1 is Ok ==> forall|q: u64|
                pos_or_default(#[trigger] v2.free(sender, owned_index, amount, true).0.positions, q)
                    == pos_or_default(v.positions, q)
        }),
{
    let v2 = v.lock(sender, owned_index, amount).0;
    let p = v.target(sender, owned_index);
    assert(v2.target(sender, owned_index) == p);
    assert(v2.has_owned(sender, owned_index));
}

/// Law: a lock by an account on one of its own positions fails only when the collateral would overflow; it then adds `amount` to the collateral of the position the account's `owned_index`-th record names and changes nothing else.
pub proof fn lemma_lock_law(v: CdpView, sender: AccountId, owned_index: u64, amount: Balance)
    ensures
        ({
            let (w, r) = v.lock(sender, owned_index, amount);
            let p = pair_or_zero(v.owned_pos, sender, owned_index);
            let pos = pos_or_default(v.positions, p);
            let owns = owned_index < u64_or_zero(v.owned_pos_count, sender);
            &&& r is Ok <==> owns && pos.lock_skr + amount <= u64::MAX
            &&& !owns ==> r == Err::<(), DispatchError>(DispatchError::OwnedIndexTooBig)
            &&& owns && pos.lock_skr + amount > u64::MAX ==> r == Err::<(), DispatchError>(DispatchError::LockOverflow)
            &&& r is Err ==> w == v
            &&& r is Ok ==> {
                &&& pos_or_default(w.positions, p) == Pos { lock_skr: (pos.lock_skr + amount) as Balance, ..pos }
                &&& forall|q: u64| q != p ==> pos_or_default(#[trigger] w.positions, q) == pos_or_default(v.positions, q)
                &&& w.events == v.events.push(Event::Lock(sender, owned_index, amount))
                &&& w.owner == v.owner && w.skr_price == v.skr_price && w.stability_fee == v.stability_fee
                &&& w.pos_owner == v.pos_owner && w.pos_count == v.pos_count
                &&& w.owned_pos == v.owned_pos && w.owned_pos_count == v.owned_pos_count
                &&& w.exchange_rates == v.exchange_rates
            }
        }),
{
}

/// Law: a free by an account on one of its own positions succeeds exactly when `amount` is below the collateral and the position is judged safe; it then takes `amount` off that collateral and changes nothing else.
pub proof fn lemma_free_law(v: CdpView, sender: AccountId, owned_index: u64, amount: Balance, safe: bool)
    ensures
        ({
            let (w, r) = v.free(sender, owned_index, amount, safe);
            let p = pair_or_zero(v.owned_pos, sender, owned_index);
            let pos = pos_or_default(v.positions, p);
            let owns = owned_index < u64_or_zero(v.owned_pos_count, sender);
            &&& r is Ok <==> owns && amount < pos.lock_skr && safe
            &&& !owns ==> r == Err::<(), DispatchError>(DispatchError::OwnedIndexTooBig)
            &&& owns && amount >= pos.lock_skr ==> r == Err::<(), DispatchError>(DispatchError::AmountNotBelowLock)
            &&& owns && amount < pos.lock_skr && !safe ==> r == Err::<(), DispatchError>(DispatchError::Unsafe)
            &&& r is Err ==> w == v
            &&& r is Ok ==> {
                &&& pos_or_default(w.positions, p) == Pos { lock_skr: (pos.lock_skr - amount) as Balance, ..pos }
                &&& forall|q: u64| q != p ==> pos_or_default(#[trigger] w.positions, q) == pos_or_default(v.positions, q)
                &&& w.events == v.events.push(Event::Free(sender, owned_index, amount))
                &&& w.owner == v.owner && w.skr_price == v.skr_price && w.stability_fee == v.stability_fee
                &&& w.pos_owner == v.pos_owner && w.pos_count == v.pos_count
                &&& w.owned_pos == v.owned_pos && w.owned_pos_count == v.owned_pos_count
                &&& w.exchange_rates == v.exchange_rates
            }
        }),
{
}

/// Law: a draw by an account on one of its own positions fails only when the debt would overflow or the position is judged unsafe; it then adds `amount` to that debt and changes nothing else.
pub proof fn lemma_draw_law(v: CdpView, sender: AccountId, owned_index: u64, amount: Balance, safe: bool)
    ensures
        ({
            let (w, r) = v.draw(sender, owned_index, amount, safe);
            let p = pair_or_zero(v.owned_pos, sender, owned_index);
            let pos = pos_or_default(v.positions, p);
            let owns = owned_index < u64_or_zero(v.owned_pos_count, sender);
            &&& r is Ok <==> owns && pos.lend_bdt + amount <= u64::MAX && safe
            &&& !owns ==> r == Err::<(), DispatchError>(DispatchError::OwnedIndexTooBig)
            &&& owns && pos.lend_bdt + amount > u64::MAX ==> r == Err::<(), DispatchError>(DispatchError::DebtOverflow)
            &&& owns && pos.lend_bdt + amount <= u64::MAX && !safe ==> r == Err::<(), DispatchError>(DispatchError::Unsafe)
            &&& r is Err ==> w == v
            &&& r is Ok ==> {
                &&& pos_or_default(w.positions, p) == Pos { lend_bdt: (pos.lend_bdt + amount) as Balance, ..pos }
                &&& forall|q: u64| q != p ==> pos_or_default(#[trigger] w.positions, q) == pos_or_default(v.positions, q)
                &&& w.events == v.events.push(Event::Draw(sender, owned_index, amount))
                &&& w.owner == v.owner && w.skr_price == v.skr_price && w.stability_fee == v.stability_fee
                &&& w.pos_owner == v.pos_owner && w.pos_count == v.pos_count
                &&& w.owned_pos == v.owned_pos && w.owned_pos_count == v.owned_pos_count
                &&& w.exchange_rates == v.exchange_rates
            }
        }),
{
}

/// Law: a wipe by an account on one of its own positions succeeds exactly when `amount` is strictly below the debt; it then takes `amount` off that debt and changes nothing else, and otherwise changes nothing at all.
pub proof fn lemma_wipe_law(v: CdpView, sender: AccountId, owned_index: u64, amount: Balance)
    ensures
        ({
            let (w, r) = v.wipe(sender, owned_index, amount);
            let p = pair_or_zero(v.owned_pos, sender, owned_index);
            let pos = pos_or_default(v.positions, p);
            let owns = owned_index < u64_or_zero(v.owned_pos_count, sender);
            &&& r is Ok <==> owns && amount < pos.lend_bdt
            &&& !owns ==> r == Err::<(), DispatchError>(DispatchError::OwnedIndexTooBig)
            &&& owns && amount >= pos.lend_bdt ==> r == Err::<(), DispatchError>(DispatchError::AmountNotBelowDebt)
            &&& r is Err ==> w == v
            &&& r is Ok ==> {
                &&& pos_or_default(w.positions, p) == Pos { lend_bdt: (pos.lend_bdt - amount) as Balance, ..pos }
                &&& forall|q: u64| q != p ==> pos_or_default(#[trigger] w.positions, q) == pos_or_default(v.positions, q)
                &&& w.events == v.events.push(Event::Wipe(sender, owned_index, amount))
                &&& w.owner == v.owner && w.skr_price == v.skr_price && w.stability_fee == v.stability_fee
                &&& w.pos_owner == v.pos_owner && w.pos_count == v.pos_count
                &&& w.owned_pos == v.owned_pos && w.owned_pos_count == v.owned_pos_count
                &&& w.exchange_rates == v.exchange_rates
            }
        }),
{
}

/// Law: opening fails only when a count would overflow. A success adds
/// position number `pos_count`, empty and owned by the signer, records it as
/// the signer's next position, and raises both counts by one.
pub proof fn lemma_open_law(v: CdpView, sender: AccountId)
    ensures
        ({
            let (w, r) = v.open(sender);
            let c = v.pos_count;
            let oc = u64_or_zero(v.owned_pos_count, sender);
            &&& r is Ok <==> c < u64::MAX && oc < u64::MAX
            &&& r is Ok ==> {
                &&& w.pos_count == c + 1
                &&& w.positions == v.positions.insert(c, empty_pos(c))
                &&& w.pos_owner == v.pos_owner.insert(c, sender)
                &&& w.owned_pos == v.owned_pos.insert((sender, oc), c)
                &&& u64_or_zero(w.owned_pos_count, sender) == oc + 1
                &&& forall|a: AccountId| a != sender ==> u64_or_zero(#[trigger] w.owned_pos_count, a) == u64_or_zero(v.owned_pos_count, a)
                &&& w.events == v.events.push(Event::Open(sender))
                &&& w.owner == v.owner && w.skr_price == v.skr_price && w.stability_fee == v.stability_fee
            }
            &&& c == u64::MAX ==> r == Err::<(), DispatchError>(DispatchError::PositionCountOverflow) && w == v
        }),
{
}

} // verus!
