use vstd::prelude::*;

verus! {

/// Why a dispatchable call was refused.
#[derive(Debug, Clone, Copy, PartialEq, Eq, Structural)]
pub enum DispatchError {
    /// The origin is not of the kind the call needs.
    BadOrigin,
    /// `init` was already called.
    AlreadyInitialized,
    /// Only the configured owner may call `init`.
    OnlyOwnerCanInit,
    /// Only the configured owner may make this call.
    OnlyOwner,
    /// The caller has no balance entry.
    NoAccount,
    /// The account holds less than the amount.
    NotEnoughBalance,
    /// A balance would leave the range of its type (mint, burn).
    BalanceOverflow,
    /// The circulation would leave the range of its type.
    CirculationOverflow,
    /// A balance would leave the range of its type (transfer).
    TransferOverflow,
    /// The staked amount would overflow.
    StakingOverflow,
    /// The pool total would overflow.
    PoolOverflow,
    /// The stake does not cover the exchange.
    NotEnoughStake,
    /// The count of positions would overflow.
    PositionCountOverflow,
    /// The count of the caller's positions would overflow.
    OwnedPositionCountOverflow,
    /// The caller has no position at this index.
    OwnedIndexTooBig,
    /// The locked collateral would overflow.
    LockOverflow,
    /// The amount is not below the locked collateral.
    AmountNotBelowLock,
    /// The debt would overflow.
    DebtOverflow,
    /// The amount is not below the debt.
    AmountNotBelowDebt,
    /// The position would fall below the collateral ratio.
    Unsafe,
    /// Only the owner of the position may make this call.
    OnlyPositionOwner,
    /// The debt would fall below zero.
    DebtUnderflow,
    /// The count of cups would overflow.
    CupCountOverflow,
    /// The count of the caller's cups would overflow.
    OwnedCupCountOverflow,
    /// The locked collateral of a cup would overflow.
    CollateralOverflow,
    /// The debt of a cup would overflow.
    DebtsOverflow,
    /// The cup would fall below the collateral ratio.
    CupUnsafe,
}

impl DispatchError {
    /// The message that the runtime reports for this error, as characters.
    pub open spec fn message_text(self) -> Seq<char> {
        match self {
            DispatchError::BadOrigin => "bad origin"@,
            DispatchError::AlreadyInitialized => "Already initialized."@,
            DispatchError::OnlyOwnerCanInit => "Only owner can initalize."@,
            DispatchError::OnlyOwner => "only owner can use!"@,
            DispatchError::NoAccount => "Account does not own this token."@,
            DispatchError::NotEnoughBalance => "Not enough balance."@,
            DispatchError::BalanceOverflow => "overflow in balance"@,
            DispatchError::CirculationOverflow => "overflow in circulation"@,
            DispatchError::TransferOverflow => "overflow in calculating balance"@,
            DispatchError::StakingOverflow => "overflow in staking"@,
            DispatchError::PoolOverflow => "overflow in pool"@,
            DispatchError::NotEnoughStake => "Not enough stake."@,
            DispatchError::PositionCountOverflow => "Overflow New Pos"@,
            DispatchError::OwnedPositionCountOverflow => "Overflow Owned Pos"@,
            DispatchError::OwnedIndexTooBig => "owned_index too big!"@,
            DispatchError::LockOverflow => "Overflow add lock_skr"@,
            DispatchError::AmountNotBelowLock => "amount must be less than lock_skr!"@,
            DispatchError::DebtOverflow => "Overflow add lend_bdt"@,
            DispatchError::AmountNotBelowDebt => "amount must be less than lend_bdt!"@,
            DispatchError::Unsafe => "Debt must safe!"@,
            DispatchError::OnlyPositionOwner => "only cup owner can do it!"@,
            DispatchError::DebtUnderflow => "Overflow subing debts"@,
            DispatchError::CupCountOverflow => "Overflow adding a new cup"@,
            DispatchError::OwnedCupCountOverflow => "Overflow adding a new cup to owned cups array"@,
            DispatchError::CollateralOverflow => "Overflow adding locked_collaterals"@,
            DispatchError::DebtsOverflow => "Overflow adding debts"@,
            DispatchError::CupUnsafe => "Debt must keep safe!"@,
        }
    }

    /// The message that the runtime reports for this error.
    pub fn message(&self) -> (r: &'static str)
        ensures
            r@ == self.message_text(),
    {
        match self {
            DispatchError::BadOrigin => "bad origin",
            DispatchError::AlreadyInitialized => "Already initialized.",
            DispatchError::OnlyOwnerCanInit => "Only owner can initalize.",
            DispatchError::OnlyOwner => "only owner can use!",
            DispatchError::NoAccount => "Account does not own this token.",
            DispatchError::NotEnoughBalance => "Not enough balance.",
            DispatchError::BalanceOverflow => "overflow in balance",
            DispatchError::CirculationOverflow => "overflow in circulation",
            DispatchError::TransferOverflow => "overflow in calculating balance",
            DispatchError::StakingOverflow => "overflow in staking",
            DispatchError::PoolOverflow => "overflow in pool",
            DispatchError::NotEnoughStake => "Not enough stake.",
            DispatchError::PositionCountOverflow => "Overflow New Pos",
            DispatchError::OwnedPositionCountOverflow => "Overflow Owned Pos",
            DispatchError::OwnedIndexTooBig => "owned_index too big!",
            DispatchError::LockOverflow => "Overflow add lock_skr",
            DispatchError::AmountNotBelowLock => "amount must be less than lock_skr!",
            DispatchError::DebtOverflow => "Overflow add lend_bdt",
            DispatchError::AmountNotBelowDebt => "amount must be less than lend_bdt!",
            DispatchError::Unsafe => "Debt must safe!",
            DispatchError::OnlyPositionOwner => "only cup owner can do it!",
            DispatchError::DebtUnderflow => "Overflow subing debts",
            DispatchError::CupCountOverflow => "Overflow adding a new cup",
            DispatchError::OwnedCupCountOverflow => "Overflow adding a new cup to owned cups array",
            DispatchError::CollateralOverflow => "Overflow adding locked_collaterals",
            DispatchError::DebtsOverflow => "Overflow adding debts",
            DispatchError::CupUnsafe => "Debt must keep safe!",
        }
    }
}

} // verus!
