use bandot::error::DispatchError;
use bandot::origin::Origin;
use bandot::runtime::token::{Event, Module, UserAssets};

#[test]
fn token_init_mint_burn_transfer() {
    let mut t = Module::new(1, 500);
    assert_eq!(t.init(Origin::Signed(1)), Ok(()));
    assert_eq!(t.balance_of(1), 500);
    assert_eq!(t.mint(Origin::Signed(2), 3, 1), Err(DispatchError::OnlyOwner));
    assert_eq!(t.mint(Origin::Signed(1), 3, 20), Ok(()));
    assert_eq!(t.burn(Origin::Signed(1), 3, 5), Ok(()));
    assert_eq!(t.transfer(Origin::Signed(3), 4, 15), Ok(()));
    assert_eq!(t.transfer(Origin::Signed(4), 3, 16), Err(DispatchError::NotEnoughBalance));
    assert_eq!(t.transfer(Origin::Signed(5), 3, 0), Err(DispatchError::NoAccount));
    assert_eq!(t.balance_of(3), 0);
    assert_eq!(t.balance_of(4), 15);
    assert_eq!(t.circulation(), 515);
    assert_eq!(t.events(), &[Event::Mint(3, 20), Event::Burn(3, 5), Event::Transfer(3, 4, 15)]);
    assert!(t.is_init());
    assert_eq!(t.owner(), 1);
}

#[test]
fn token_deposit_and_exchange() {
    let mut t = Module::new(1, 0);
    assert_eq!(t.deposit(Origin::Signed(4), 1u128 << 100), Ok(()));
    assert_eq!(t.pool_assets(), 1u128 << 100);
    assert_eq!(t.exchange(Origin::Signed(4), 3), Err(DispatchError::NotEnoughStake));
    assert_eq!(t.exchange(Origin::Signed(4), 0), Ok(()));
    assert_eq!(t.user_assets_info(4), UserAssets { staking_amount: 1u128 << 100, locked_amount: 0, lending_amount: 0 });
    assert_eq!(t.user_assets_info(7), UserAssets::default());
    assert_eq!(t.deposit(Origin::Signed(4), u128::MAX), Err(DispatchError::StakingOverflow));
    assert_eq!(t.events(), &[Event::Deposit(4, 1u128 << 100, 1u128 << 100), Event::Exchange(4, 0, 1)]);
}

#[test]
fn token_pool_overflow_keeps_stake() {
    let mut t = Module::new(1, 0);
    assert!(t.deposit(Origin::Signed(4), u128::MAX).is_ok());
    assert_eq!(t.deposit(Origin::Signed(5), 2), Err(DispatchError::PoolOverflow));
    assert_eq!(t.user_assets_info(5).staking_amount, 2);
}

#[test]
fn token_set_fee() {
    let mut t = Module::new(1, 0);
    assert_eq!(t.rate_fee1k(), 1);
    assert_eq!(t.set_fee(Origin::Signed(1), 10), Ok(()));
    assert_eq!(t.rate_fee1k(), 10);
    assert_eq!(t.set_fee(Origin::Root, 3), Err(DispatchError::BadOrigin));
}

#[test]
fn token_error_messages() {
    assert_eq!(DispatchError::NotEnoughBalance.message(), "Not enough balance.");
    assert_eq!(DispatchError::OnlyOwner.message(), "only owner can use!");
    assert_eq!(DispatchError::CupUnsafe.message(), "Debt must keep safe!");
}
