use vstd::prelude::*;
use crate::AccountId;
use crate::error::DispatchError;

verus! {

/// Who dispatched a call.
#[derive(Debug, Clone, Copy, PartialEq, Eq, Structural)]
pub enum Origin {
    /// The privileged origin.
    Root,
    /// A call signed by an account.
    Signed(AccountId),
    /// An unsigned call.
    Unsigned,
}

/// The signer of the call, or `BadOrigin` where it was not signed.
pub fn ensure_signed(origin: Origin) -> (r: Result<AccountId, DispatchError>)
    ensures
        r == match origin {
            Origin::Signed(who) => Ok(who),
            _ => Err::<AccountId, DispatchError>(DispatchError::BadOrigin),
        },
{
    match origin {
        Origin::Signed(who) => Ok(who),
        _ => Err(DispatchError::BadOrigin),
    }
}

/// Succeeds exactly for the root origin.
pub fn ensure_root(origin: Origin) -> (r: Result<(), DispatchError>)
    ensures
        r == (if origin == Origin::Root { Ok::<(), DispatchError>(()) } else { Err(DispatchError::BadOrigin) }),
{
    match origin {
        Origin::Root => Ok(()),
        _ => Err(DispatchError::BadOrigin),
    }
}

} // verus!
