//! The BDT stable coin: an owned ledger with mint, burn and transfer.
use vstd::prelude::*;
use crate::{AccountId, Balance};
use crate::error::DispatchError;
use crate::origin::{Origin, ensure_signed};
use crate::ledger::{Ledger, LedgerView};
use crate::node::traits::{Token, MintableToken};

verus! {

/// What the module reports.
#[derive(Debug, Clone, Copy, PartialEq, Eq, Structural)]
pub enum Event {
    /// `value` moved from the first account to the second.
    Transfer(AccountId, AccountId, Balance),
    /// `value` was created for the account.
    Mint(AccountId, Balance),
    /// `value` was destroyed from the account.
    Burn(AccountId, Balance),
}

/// What the module holds.
pub struct BdtView {
    /// The balances, owner and circulation.
    pub ledger: LedgerView,
    /// The events reported so far, oldest first.
    pub events: Seq<Event>,
}

/// The state of the BDT module.
pub struct Module {
    ledger: Ledger,
    events: Vec<Event>,
}

impl View for Module {
    type V = BdtView;

    closed spec fn view(&self) -> BdtView {
        BdtView { ledger: self.ledger@, events: self.events@ }
    }
}

impl Module {
    /// The module as its genesis configuration sets it up.
    pub fn new(owner: AccountId, circulation: Balance) -> (r: Module)
        ensures
            r@.ledger == (LedgerView { initialized: false, owner, circulation, balances: Map::empty() }),
            r@.events == Seq::<Event>::empty(),
    {
        Module { ledger: Ledger::new(owner, circulation), events: Vec::new() }
    }

    /// The recorded balances form a finite map.
    pub proof fn lemma_finite(&self)
        ensures
            self@.ledger.balances.dom().finite(),
    {
        self.ledger.lemma_finite();
    }

    /// Whether `init` has run.
    pub fn is_init(&self) -> (r: bool)
        ensures
            r == self@.ledger.initialized,
    {
        self.ledger.is_init()
    }

    /// The account that may initialise, mint and burn.
    pub fn owner(&self) -> (r: AccountId)
        ensures
            r == self@.ledger.owner,
    {
        self.ledger.owner()
    }

    /// The amount in circulation.
    pub fn circulation(&self) -> (r: Balance)
        ensures
            r == self@.ledger.circulation,
    {
        self.ledger.circulation()
    }

    /// The events reported so far, oldest first.
    pub fn events(&self) -> (r: &[Event])
        ensures
            r@ == self@.events,
    {
        self.events.as_slice()
    }

    /// Gives the owner the whole circulation; only the owner may call it,
    /// and only once.
    pub fn init(&mut self, origin: Origin) -> (r: Result<(), DispatchError>)
        ensures
            final(self)@.events == old(self)@.events,
            match origin {
                Origin::Signed(sender) => (final(self)@.ledger, r) == old(self)@.ledger.init(sender),
                _ => r == Err::<(), DispatchError>(DispatchError::BadOrigin) && final(self)@ == old(self)@,
            },
    {
        let sender = ensure_signed(origin)?;
        self.ledger.init(sender)
    }

    /// Moves `value` from the signer to `receiver`; the signer must have a
    /// balance entry.
    pub fn transfer(module: &mut Module, origin: Origin, receiver: AccountId, value: Balance) -> (r: Result<(), DispatchError>)
        ensures
            match origin {
                Origin::Signed(sender) => if !old(module)@.ledger.balances.contains_key(sender) {
                    r == Err::<(), DispatchError>(DispatchError::NoAccount) && final(module)@ == old(module)@
                } else {
                    &&& (final(module)@.ledger, r) == old(module)@.ledger.transfer(sender, receiver, value)
                    &&& final(module)@.events == if r is Ok {
                        old(module)@.events.push(Event::Transfer(sender, receiver, value))
                    } else {
                        old(module)@.events
                    }
                },
                _ => r == Err::<(), DispatchError>(DispatchError::BadOrigin) && final(module)@ == old(module)@,
            },
    {
        let sender = ensure_signed(origin)?;
        if !module.ledger.has_account(&sender) {
            return Err(DispatchError::NoAccount);
        }
        module.transfer_and_report(&sender, &receiver, value)
    }

    /// The owner creates `value` for `to`.
    pub fn mint(module: &mut Module, origin: Origin, to: AccountId, value: Balance) -> (r: Result<(), DispatchError>)
        ensures
            match origin {
                Origin::Signed(sender) => if sender != old(module)@.ledger.owner {
                    r == Err::<(), DispatchError>(DispatchError::OnlyOwner) && final(module)@ == old(module)@
                } else {
                    &&& (final(module)@.ledger, r) == old(module)@.ledger.mint(to, value)
                    &&& final(module)@.events == if r is Ok {
                        old(module)@.events.push(Event::Mint(to, value))
                    } else {
                        old(module)@.events
                    }
                },
                _ => r == Err::<(), DispatchError>(DispatchError::BadOrigin) && final(module)@ == old(module)@,
            },
    {
        let sender = ensure_signed(origin)?;
        if sender != module.ledger.owner() {
            return Err(DispatchError::OnlyOwner);
        }
        module.mint_and_report(&to, value)
    }

    /// The owner destroys `value` held by `from`.
    pub fn burn(module: &mut Module, origin: Origin, from: AccountId, value: Balance) -> (r: Result<(), DispatchError>)
        ensures
            match origin {
                Origin::Signed(sender) => if sender != old(module)@.ledger.owner {
                    r == Err::<(), DispatchError>(DispatchError::OnlyOwner) && final(module)@ == old(module)@
                } else {
                    &&& (final(module)@.ledger, r) == old(module)@.ledger.burn(from, value)
                    &&& final(module)@.events == if r is Ok {
                        old(module)@.events.push(Event::Burn(from, value))
                    } else {
                        old(module)@.events
                    }
                },
                _ => r == Err::<(), DispatchError>(DispatchError::BadOrigin) && final(module)@ == old(module)@,
            },
    {
        let sender = ensure_signed(origin)?;
        if sender != module.ledger.owner() {
            return Err(DispatchError::OnlyOwner);
        }
        module.burn_and_report(&from, value)
    }
}

impl Module {
    /// Moves `value` from `source` to `dest` and reports it.
    fn transfer_and_report(&mut self, source: &AccountId, dest: &AccountId, value: Balance) -> (r: Result<(), DispatchError>)
        ensures
            (final(self)@.ledger, r) == old(self)@.ledger.transfer(*source, *dest, value),
            final(self)@.events == if r is Ok {
                old(self)@.events.push(Event::Transfer(*source, *dest, value))
            } else {
                old(self)@.events
            },
    {
        let r = self.ledger.transfer(source, dest, value);
        if r.is_ok() {
            self.events.push(Event::Transfer(*source, *dest, value));
        }
        r
    }

    /// Creates `value` for `to` and reports it.
    fn mint_and_report(&mut self, to: &AccountId, value: Balance) -> (r: Result<(), DispatchError>)
        ensures
            (final(self)@.ledger, r) == old(self)@.ledger.mint(*to, value),
            final(self)@.events == if r is Ok {
                old(self)@.events.push(Event::Mint(*to, value))
            } else {
                old(self)@.events
            },
    {
        let r = self.ledger.mint(to, value);
        if r.is_ok() {
            self.events.push(Event::Mint(*to, value));
        }
        r
    }

    /// Destroys `value` held by `from` and reports it.
    fn burn_and_report(&mut self, from: &AccountId, value: Balance) -> (r: Result<(), DispatchError>)
        ensures
            (final(self)@.ledger, r) == old(self)@.ledger.burn(*from, value),
            final(self)@.events == if r is Ok {
                old(self)@.events.push(Event::Burn(*from, value))
            } else {
                old(self)@.events
            },
    {
        let r = self.ledger.burn(from, value);
        if r.is_ok() {
            self.events.push(Event::Burn(*from, value));
        }
        r
    }
}

impl Token for Module {
    open spec fn supply(&self) -> Balance {
        self@.ledger.circulation
    }

    open spec fn balances(&self) -> Map<AccountId, Balance> {
        self@.ledger.balances
    }

    fn total_supply(&self) -> (r: Balance) {
        self.ledger.circulation()
    }

    fn balance_of(&self, who: &AccountId) -> (r: Balance) {
        self.ledger.balance_of(who)
    }

    fn transfer(&mut self, source: &AccountId, dest: &AccountId, value: Balance) -> (r: Result<(), DispatchError>)
        ensures
            final(self)@.events == if r is Ok {
                old(self)@.events.push(Event::Transfer(*source, *dest, value))
            } else {
                old(self)@.events
            },
            final(self)@.ledger.owner == old(self)@.ledger.owner,
            final(self)@.ledger.initialized == old(self)@.ledger.initialized,
    {
        self.transfer_and_report(source, dest, value)
    }
}

impl MintableToken for Module {
    fn mint(&mut self, to: &AccountId, value: Balance) -> (r: Result<(), DispatchError>)
        ensures
            final(self)@.events == if r is Ok {
                old(self)@.events.push(Event::Mint(*to, value))
            } else {
                old(self)@.events
            },
            final(self)@.ledger.owner == old(self)@.ledger.owner,
            final(self)@.ledger.initialized == old(self)@.ledger.initialized,
    {
        self.mint_and_report(to, value)
    }

    fn burn(&mut self, from: &AccountId, value: Balance) -> (r: Result<(), DispatchError>)
        ensures
            final(self)@.events == if r is Ok {
                old(self)@.events.push(Event::Burn(*from, value))
            } else {
                old(self)@.events
            },
            final(self)@.ledger.owner == old(self)@.ledger.owner,
            final(self)@.ledger.initialized == old(self)@.ledger.initialized,
    {
        self.burn_and_report(from, value)
    }
}

} // verus!
