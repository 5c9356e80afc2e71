//! What a collateral module needs of a token.
use vstd::prelude::*;
use crate::{AccountId, Balance};
use crate::error::DispatchError;
use crate::ledger::{balance_in, transfer_result, transferred, mint_result, minted, burn_result, burned, circulation_after};

verus! {

/// A token whose balances can be read and moved.
pub trait Token: Sized {
    /// The amount in circulation.
    spec fn supply(&self) -> Balance;

    /// The recorded balances; an account without an entry holds 0.
    spec fn balances(&self) -> Map<AccountId, Balance>;

    /// The amount in circulation.
    fn total_supply(&self) -> (r: Balance)
        ensures
            r == self.supply(),
    ;

    /// The balance of `who`.
    fn balance_of(&self, who: &AccountId) -> (r: Balance)
        ensures
            r == balance_in(self.balances(), *who),
    ;

    /// Moves `value` from `source` to `dest`; fails, changing nothing, where
    /// `source` holds less or `dest`'s balance would overflow.
    fn transfer(&mut self, source: &AccountId, dest: &AccountId, value: Balance) -> (r: Result<(), DispatchError>)
        ensures
            r == transfer_result(old(self).balances(), *source, *dest, value),
            final(self).supply() == old(self).supply(),
            final(self).balances() == (if r is Ok {
                transferred(old(self).balances(), *source, *dest, value)
            } else {
                old(self).balances()
            }),
    ;
}

/// A token that can also be created and destroyed.
pub trait MintableToken: Token {
    /// Credits `to` with `value` and raises the circulation by as much.
    fn mint(&mut self, to: &AccountId, value: Balance) -> (r: Result<(), DispatchError>)
        ensures
            r == mint_result(old(self).balances(), old(self).supply(), *to, value),
            final(self).balances() == minted(old(self).balances(), old(self).supply(), *to, value),
            final(self).supply() == circulation_after(old(self).supply(), value, r, true),
    ;

    /// Debits `from` by `value` and lowers the circulation by as much.
    fn burn(&mut self, from: &AccountId, value: Balance) -> (r: Result<(), DispatchError>)
        ensures
            r == burn_result(old(self).balances(), old(self).supply(), *from, value),
            final(self).balances() == burned(old(self).balances(), old(self).supply(), *from, value),
            final(self).supply() == circulation_after(old(self).supply(), value, r, false),
    ;
}

} // verus!
