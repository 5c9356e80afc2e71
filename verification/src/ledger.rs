//! The balance ledger that the token modules share: an owner, a
//! circulation, and a balance per account.
use vstd::prelude::*;
use std::collections::HashMap;
use crate::{AccountId, Balance};
use crate::error::DispatchError;
use crate::sum::{map_sum, lemma_map_sum_insert};

verus! {

broadcast use vstd::std_specs::hash::group_hash_axioms;

/// The balance that `m` records for `who`; an account without an entry holds 0.
pub open spec fn balance_in(m: Map<AccountId, Balance>, who: AccountId) -> Balance {
    if m.contains_key(who) { m[who] } else { 0 }
}

/// The sum of all recorded balances.
pub open spec fn total_balance(m: Map<AccountId, Balance>) -> int {
    map_sum(m.map_values(|b: Balance| b as int))
}

/// Whether a transfer of `value` from `source` to `dest` succeeds, and why not.
pub open spec fn transfer_result(
    m: Map<AccountId, Balance>,
    source: AccountId,
    dest: AccountId,
    value: Balance,
) -> Result<(), DispatchError> {
    if balance_in(m, source) < value {
        Err(DispatchError::NotEnoughBalance)
    } else if balance_in(m, dest) + value > u64::MAX {
        Err(DispatchError::TransferOverflow)
    } else {
        Ok(())
    }
}

/// The balances after a successful transfer. Both balances are read before
/// either is written, so a transfer from an account to itself credits it
/// with `value`.
pub open spec fn transferred(
    m: Map<AccountId, Balance>,
    source: AccountId,
    dest: AccountId,
    value: Balance,
) -> Map<AccountId, Balance> {
    m.insert(source, (balance_in(m, source) - value) as Balance).insert(
        dest,
        (balance_in(m, dest) + value) as Balance,
    )
}

/// Whether minting `value` to `to` succeeds, and why not.
pub open spec fn mint_result(
    m: Map<AccountId, Balance>,
    circulation: Balance,
    to: AccountId,
    value: Balance,
) -> Result<(), DispatchError> {
    if balance_in(m, to) + value > u64::MAX {
        Err(DispatchError::BalanceOverflow)
    } else if circulation + value > u64::MAX {
        Err(DispatchError::CirculationOverflow)
    } else {
        Ok(())
    }
}

/// The balances after a mint that got past the balance check. The new
/// balance is written before the circulation is checked, so it stays
/// written when the circulation would overflow.
pub open spec fn minted(m: Map<AccountId, Balance>, circulation: Balance, to: AccountId, value: Balance) -> Map<
    AccountId,
    Balance,
> {
    if mint_result(m, circulation, to, value) == Err::<(), DispatchError>(DispatchError::BalanceOverflow) {
        m
    } else {
        m.insert(to, (balance_in(m, to) + value) as Balance)
    }
}

/// Whether burning `value` from `from` succeeds, and why not.
pub open spec fn burn_result(
    m: Map<AccountId, Balance>,
    circulation: Balance,
    from: AccountId,
    value: Balance,
) -> Result<(), DispatchError> {
    if balance_in(m, from) < value {
        Err(DispatchError::NotEnoughBalance)
    } else if circulation < value {
        Err(DispatchError::CirculationOverflow)
    } else {
        Ok(())
    }
}

/// The balances after a burn. As with minting, the lowered balance stays
/// written when the circulation check fails.
pub open spec fn burned(m: Map<AccountId, Balance>, circulation: Balance, from: AccountId, value: Balance) -> Map<
    AccountId,
    Balance,
> {
    if burn_result(m, circulation, from, value) == Err::<(), DispatchError>(DispatchError::NotEnoughBalance) {
        m
    } else {
        m.insert(from, (balance_in(m, from) - value) as Balance)
    }
}

/// The circulation after a mint or a burn with the given outcome.
pub open spec fn circulation_after(circulation: Balance, value: Balance, r: Result<(), DispatchError>, add: bool) -> Balance {
    if r is Ok {
        if add { (circulation + value) as Balance } else { (circulation - value) as Balance }
    } else {
        circulation
    }
}

/// What a ledger holds.
pub struct LedgerView {
    /// Whether `init` has run.
    pub initialized: bool,
    /// The account that may initialise, mint and burn.
    pub owner: AccountId,
    /// The amount in circulation.
    pub circulation: Balance,
    /// The recorded balances; an account without an entry holds 0.
    pub balances: Map<AccountId, Balance>,
}

impl LedgerView {
    /// The ledger after `init` signed by `sender`, and its outcome.
    pub open spec fn init(self, sender: AccountId) -> (LedgerView, Result<(), DispatchError>) {
        if self.initialized {
            (self, Err(DispatchError::AlreadyInitialized))
        } else if self.owner != sender {
            (self, Err(DispatchError::OnlyOwnerCanInit))
        } else {
            (
                LedgerView {
                    initialized: true,
                    balances: self.balances.insert(sender, self.circulation),
                    ..self
                },
                Ok(()),
            )
        }
    }

    /// The ledger after minting `value` to `to`, and its outcome.
    pub open spec fn mint(self, to: AccountId, value: Balance) -> (LedgerView, Result<(), DispatchError>) {
        let r = mint_result(self.balances, self.circulation, to, value);
        (
            LedgerView {
                balances: minted(self.balances, self.circulation, to, value),
                circulation: circulation_after(self.circulation, value, r, true),
                ..self
            },
            r,
        )
    }

    /// The ledger after burning `value` from `from`, and its outcome.
    pub open spec fn burn(self, from: AccountId, value: Balance) -> (LedgerView, Result<(), DispatchError>) {
        let r = burn_result(self.balances, self.circulation, from, value);
        (
            LedgerView {
                balances: burned(self.balances, self.circulation, from, value),
                circulation: circulation_after(self.circulation, value, r, false),
                ..self
            },
            r,
        )
    }

    /// The ledger after moving `value` from `source` to `dest`, and its outcome.
    pub open spec fn transfer(self, source: AccountId, dest: AccountId, value: Balance) -> (
        LedgerView,
        Result<(), DispatchError>,
    ) {
        let r = transfer_result(self.balances, source, dest, value);
        if r is Ok {
            (LedgerView { balances: transferred(self.balances, source, dest, value), ..self }, r)
        } else {
            (self, r)
        }
    }

    /// The circulation less the sum of all balances.
    pub open spec fn unbacked(self) -> int {
        self.circulation - total_balance(self.balances)
    }
}

/// A ledger of balances with an owner and a circulation.
pub struct Ledger {
    initialized: bool,
    owner: AccountId,
    circulation: Balance,
    balances: HashMap<AccountId, Balance>,
}

impl View for Ledger {
    type V = LedgerView;

    closed spec fn view(&self) -> LedgerView {
        LedgerView {
            initialized: self.initialized,
            owner: self.owner,
            circulation: self.circulation,
            balances: self.balances@,
        }
    }
}


impl Ledger {
    /// A ledger as the genesis configuration sets it up: not initialised,
    /// no balances.
    pub fn new(owner: AccountId, circulation: Balance) -> (r: Ledger)
        ensures
            r@ == (LedgerView {
                initialized: false,
                owner,
                circulation,
                balances: Map::empty(),
            }),
    {
        Ledger { initialized: false, owner, circulation, balances: HashMap::new() }
    }

    /// The recorded balances form a finite map.
    pub proof fn lemma_finite(&self)
        ensures
            self@.balances.dom().finite(),
    {
    }

    /// Whether `init` has run.
    pub fn is_init(&self) -> (r: bool)
        ensures
            r == self@.initialized,
    {
        self.initialized
    }

    /// The account that may initialise, mint and burn.
    pub fn owner(&self) -> (r: AccountId)
        ensures
            r == self@.owner,
    {
        self.owner
    }

    /// The amount in circulation.
    pub fn circulation(&self) -> (r: Balance)
        ensures
            r == self@.circulation,
    {
        self.circulation
    }

    /// The balance of `who`; 0 for an account without an entry.
    pub fn balance_of(&self, who: &AccountId) -> (r: Balance)
        ensures
            r == balance_in(self@.balances, *who),
    {
        match self.balances.get(who) {
            Some(b) => *b,
            None => 0,
        }
    }

    /// Whether `who` has a balance entry (of any amount, 0 included).
    pub fn has_account(&self, who: &AccountId) -> (r: bool)
        ensures
            r == self@.balances.contains_key(*who),
    {
        self.balances.contains_key(who)
    }

    /// Hands the whole circulation to the owner, once.
    pub fn init(&mut self, sender: AccountId) -> (r: Result<(), DispatchError>)
        ensures
            (final(self)@, r) == old(self)@.init(sender),
    {
        if self.initialized {
            return Err(DispatchError::AlreadyInitialized);
        }
        if self.owner != sender {
            return Err(DispatchError::OnlyOwnerCanInit);
        }
        self.balances.insert(sender, self.circulation);
        self.initialized = true;
        Ok(())
    }

    /// Credits `to` with `value` and raises the circulation by as much.
    pub fn mint(&mut self, to: &AccountId, value: Balance) -> (r: Result<(), DispatchError>)
        ensures
            (final(self)@, r) == old(self)@.mint(*to, value),
    {
        let to_balance = self.balance_of(to);
        let updated = match to_balance.checked_add(value) {
            Some(b) => b,
            None => return Err(DispatchError::BalanceOverflow),
        };
        self.balances.insert(*to, updated);
        let updated_circulation = match self.circulation.checked_add(value) {
            Some(c) => c,
            None => return Err(DispatchError::CirculationOverflow),
        };
        self.circulation = updated_circulation;
        Ok(())
    }

    /// Debits `from` by `value` and lowers the circulation by as much.
    pub fn burn(&mut self, from: &AccountId, value: Balance) -> (r: Result<(), DispatchError>)
        ensures
            (final(self)@, r) == old(self)@.burn(*from, value),
    {
        let from_balance = self.balance_of(from);
        if from_balance < value {
            return Err(DispatchError::NotEnoughBalance);
        }
        self.balances.insert(*from, from_balance - value);
        let updated_circulation = match self.circulation.checked_sub(value) {
            Some(c) => c,
            None => return Err(DispatchError::CirculationOverflow),
        };
        self.circulation = updated_circulation;
        Ok(())
    }

    /// Moves `value` from `source` to `dest`.
    pub fn transfer(&mut self, source: &AccountId, dest: &AccountId, value: Balance) -> (r: Result<(), DispatchError>)
        ensures
            (final(self)@, r) == old(self)@.transfer(*source, *dest, value),
    {
        let sender_balance = self.balance_of(source);
        if sender_balance < value {
            return Err(DispatchError::NotEnoughBalance);
        }
        let updated_sender = sender_balance - value;
        let receiver_balance = self.balance_of(dest);
        let updated_receiver = match receiver_balance.checked_add(value) {
            Some(b) => b,
            None => return Err(DispatchError::TransferOverflow),
        };
        self.balances.insert(*source, updated_sender);
        self.balances.insert(*dest, updated_receiver);
        Ok(())
    }
}


/// The sum of the balances after `m[k] = v`.
proof fn lemma_total_insert(m: Map<AccountId, Balance>, k: AccountId, v: Balance)
    requires
        m.dom().finite(),
    ensures
        m.insert(k, v).dom().finite(),
        total_balance(m.insert(k, v)) == total_balance(m) - balance_in(m, k) + v,
{
    let f = |b: Balance| b as int;
    let mi = m.map_values(f);
    assert(mi.dom() =~= m.dom());
    lemma_map_sum_insert(mi, k, v as int);
    assert(m.insert(k, v).map_values(f) =~= mi.insert(k, v as int));
}

/// Law: a mint that succeeds raises the circulation and the sum of the
/// balances by the same amount, so what the circulation holds beyond the
/// balances stays as it was.
pub proof fn lemma_mint_keeps_unbacked(v: LedgerView, to: AccountId, value: Balance)
    requires
        v.balances.dom().finite(),
        v.mint(to, value).1 is Ok,
    ensures
        v.mint(to, value).0.balances.dom().finite(),
        v.mint(to, value).0.unbacked() == v.unbacked(),
{
    lemma_total_insert(v.balances, to, (balance_in(v.balances, to) + value) as Balance);
}

/// Law: a burn that succeeds lowers the circulation and the sum of the
/// balances by the same amount.
pub proof fn lemma_burn_keeps_unbacked(v: LedgerView, from: AccountId, value: Balance)
    requires
        v.balances.dom().finite(),
        v.burn(from, value).1 is Ok,
    ensures
        v.burn(from, value).0.balances.dom().finite(),
        v.burn(from, value).0.unbacked() == v.unbacked(),
{
    lemma_total_insert(v.balances, from, (balance_in(v.balances, from) - value) as Balance);
}

/// Law: a transfer between two different accounts leaves the sum of the
/// balances and the circulation as they were, whatever its outcome.
pub proof fn lemma_transfer_keeps_unbacked(v: LedgerView, source: AccountId, dest: AccountId, value: Balance)
    requires
        v.balances.dom().finite(),
        source != dest,
    ensures
        v.transfer(source, dest, value).0.balances.dom().finite(),
        v.transfer(source, dest, value).0.unbacked() == v.unbacked(),
{
    if v.transfer(source, dest, value).1 is Ok {
        let m = v.balances;
        let m1 = m.insert(source, (balance_in(m, source) - value) as Balance);
        lemma_total_insert(m, source, (balance_in(m, source) - value) as Balance);
        lemma_total_insert(m1, dest, (balance_in(m, dest) + value) as Balance);
        assert(balance_in(m1, dest) == balance_in(m, dest));
    }
}

/// Law: `init` on a ledger with no balances hands the owner exactly the
/// circulation, so afterwards the balances add up to the circulation.
pub proof fn lemma_init_backs_circulation(v: LedgerView, sender: AccountId)
    requires
        v.balances == Map::<AccountId, Balance>::empty(),
        v.init(sender).1 is Ok,
    ensures
        v.init(sender).0.balances.dom().finite(),
        v.init(sender).0.unbacked() == 0,
{
    lemma_total_insert(v.balances, sender, v.circulation);
    assert(v.balances.map_values(|b: Balance| b as int) =~= Map::<AccountId, int>::empty());
    crate::sum::lemma_map_sum_empty::<AccountId>();
}

/// Law: burning what a successful mint created gives every account its
/// former balance and the circulation its former amount.
pub proof fn lemma_burn_undoes_mint(v: LedgerView, to: AccountId, value: Balance)
    requires
        v.mint(to, value).1 is Ok,
    ensures
        v.mint(to, value).0.burn(to, value).1 is Ok,
        v.mint(to, value).0.burn(to, value).0.circulation == v.circulation,
        forall|who: AccountId|
            balance_in(#[trigger] v.mint(to, value).0.burn(to, value).0.balances, who) == balance_in(
                v.balances,
                who,
            ),
{
}

/// Law: sending back what a successful transfer between two different
/// accounts moved succeeds and gives every account its former balance.
pub proof fn lemma_transfer_back(v: LedgerView, source: AccountId, dest: AccountId, value: Balance)
    requires
        source != dest,
        v.transfer(source, dest, value).1 is Ok,
    ensures
        v.transfer(source, dest, value).0.transfer(dest, source, value).1 is Ok,
        v.transfer(source, dest, value).0.transfer(dest, source, value).0.circulation == v.circulation,
        forall|who: AccountId|
            balance_in(#[trigger] v.transfer(source, dest, value).0.transfer(dest, source, value).0.balances, who)
                == balance_in(v.balances, who),
{
}

/// Law: `init` succeeds exactly once and only for the owner; it then gives
/// the owner a balance equal to the circulation and marks the ledger
/// initialised, and otherwise changes nothing.
pub proof fn lemma_init_law(v: LedgerView, sender: AccountId)
    ensures
        ({
            let (w, r) = v.init(sender);
            &&& r is Ok <==> !v.initialized && v.owner == sender
            &&& v.initialized ==> r == Err::<(), DispatchError>(DispatchError::AlreadyInitialized)
            &&& r is Err ==> w == v
            &&& r is Ok ==> {
                &&& w.initialized
                &&& balance_in(w.balances, sender) == v.circulation
                &&& forall|a: AccountId| a != sender ==> balance_in(#[trigger] w.balances, a) == balance_in(v.balances, a)
                &&& w.circulation == v.circulation && w.owner == v.owner
            }
        }),
{
}

/// Law: a mint fails only when the account's balance or the circulation
/// would overflow; a success raises both by `value` and leaves every other
/// balance as it was. A refused mint leaves the circulation as it was.
pub proof fn lemma_mint_law(v: LedgerView, to: AccountId, value: Balance)
    ensures
        ({
            let (w, r) = v.mint(to, value);
            &&& r is Ok <==> balance_in(v.balances, to) + value <= u64::MAX && v.circulation + value <= u64::MAX
            &&& balance_in(v.balances, to) + value > u64::MAX ==> r == Err::<(), DispatchError>(DispatchError::BalanceOverflow) && w == v
            &&& r is Err ==> w.circulation == v.circulation
            &&& r is Ok ==> {
                &&& balance_in(w.balances, to) == balance_in(v.balances, to) + value
                &&& w.circulation == v.circulation + value
                &&& forall|a: AccountId| a != to ==> balance_in(#[trigger] w.balances, a) == balance_in(v.balances, a)
                &&& w.owner == v.owner && w.initialized == v.initialized
            }
        }),
{
}

/// Law: a burn fails only when the account holds less than `value` or the
/// circulation is below it; a success lowers both by `value` and leaves every
/// other balance as it was. A refused burn leaves the circulation as it was.
pub proof fn lemma_burn_law(v: LedgerView, from: AccountId, value: Balance)
    ensures
        ({
            let (w, r) = v.burn(from, value);
            &&& r is Ok <==> balance_in(v.balances, from) >= value && v.circulation >= value
            &&& balance_in(v.balances, from) < value ==> r == Err::<(), DispatchError>(DispatchError::NotEnoughBalance) && w == v
            &&& r is Err ==> w.circulation == v.circulation
            &&& r is Ok ==> {
                &&& balance_in(w.balances, from) == balance_in(v.balances, from) - value
                &&& w.circulation == v.circulation - value
                &&& forall|a: AccountId| a != from ==> balance_in(#[trigger] w.balances, a) == balance_in(v.balances, a)
                &&& w.owner == v.owner && w.initialized == v.initialized
            }
        }),
{
}

/// Law: a transfer between two different accounts fails only when the
/// source holds less than `value` or the destination's balance would
/// overflow, and then changes nothing; a success moves `value` from the one
/// to the other and leaves every other balance and the circulation as they
/// were.
pub proof fn lemma_transfer_law(v: LedgerView, source: AccountId, dest: AccountId, value: Balance)
    requires
        source != dest,
    ensures
        ({
            let (w, r) = v.transfer(source, dest, value);
            &&& r is Ok <==> balance_in(v.balances, source) >= value && balance_in(v.balances, dest) + value <= u64::MAX
            &&& balance_in(v.balances, source) < value ==> r == Err::<(), DispatchError>(DispatchError::NotEnoughBalance)
            &&& r is Err ==> w == v
            &&& r is Ok ==> {
                &&& balance_in(w.balances, source) == balance_in(v.balances, source) - value
                &&& balance_in(w.balances, dest) == balance_in(v.balances, dest) + value
                &&& forall|a: AccountId| a != source && a != dest ==> balance_in(#[trigger] w.balances, a) == balance_in(v.balances, a)
                &&& w.circulation == v.circulation && w.owner == v.owner && w.initialized == v.initialized
            }
        }),
{
}

/// A call on a ledger.
pub enum LedgerCall {
    /// `init` signed by the account.
    Init(AccountId),
    /// Mint the amount to the account.
    Mint(AccountId, Balance),
    /// Burn the amount from the account.
    Burn(AccountId, Balance),
    /// Transfer the amount from the first account to the second.
    Transfer(AccountId, AccountId, Balance),
}

impl LedgerView {
    /// The ledger after `call`, and its outcome.
    pub open spec fn step(self, call: LedgerCall) -> (LedgerView, Result<(), DispatchError>) {
        match call {
            LedgerCall::Init(who) => self.init(who),
            LedgerCall::Mint(to, value) => self.mint(to, value),
            LedgerCall::Burn(from, value) => self.burn(from, value),
            LedgerCall::Transfer(source, dest, value) => self.transfer(source, dest, value),
        }
    }

    /// The ledger after `calls`, made one after the other.
    pub open spec fn run(self, calls: Seq<LedgerCall>) -> LedgerView
        decreases calls.len(),
    {
        if calls.len() == 0 {
            self
        } else {
            self.step(calls[0]).0.run(calls.drop_first())
        }
    }

    /// What the successful mints among `calls` created, less what the
    /// successful burns destroyed.
    pub open spec fn net_issued(self, calls: Seq<LedgerCall>) -> int
        decreases calls.len(),
    {
        if calls.len() == 0 {
            0
        } else {
            let (next, r) = self.step(calls[0]);
            let issued: int = match calls[0] {
                LedgerCall::Mint(_, value) => if r is Ok { value as int } else { 0 },
                LedgerCall::Burn(_, value) => if r is Ok { -(value as int) } else { 0 },
                _ => 0,
            };
            issued + next.net_issued(calls.drop_first())
        }
    }
}

/// Law: over any sequence of calls, the circulation moves by exactly what
/// the successful mints created less what the successful burns destroyed;
/// `init`, transfers and refused calls leave it as it was.
pub proof fn lemma_circulation_accounts(v: LedgerView, calls: Seq<LedgerCall>)
    ensures
        v.run(calls).circulation == v.circulation + v.net_issued(calls),
    decreases calls.len(),
{
    if calls.len() > 0 {
        lemma_circulation_accounts(v.step(calls[0]).0, calls.drop_first());
    }
}

} // verus!
