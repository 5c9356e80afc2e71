use bandot::error::DispatchError;
use bandot::node::pool::{Event, Module, UserAssets};
use bandot::origin::Origin;

#[test]
fn pool_deposit_adds_stake() {
    let mut p = Module::new(1);
    assert_eq!(p.deposit(Origin::Signed(4), 30), Ok(()));
    assert_eq!(p.deposit(Origin::Signed(5), 12), Ok(()));
    assert_eq!(p.deposit(Origin::Signed(4), 8), Ok(()));
    assert_eq!(p.pool_assets(), 50);
    assert_eq!(p.user_assets_info(4).staking_amount, 38);
    assert_eq!(p.user_assets_info(5), UserAssets { staking_amount: 12, locked_amount: 0, lending_amount: 0 });
    assert_eq!(p.user_assets_info(6), UserAssets::default());
    assert_eq!(p.events(), &[Event::Deposit(4, 30, 30), Event::Deposit(5, 12, 42), Event::Deposit(4, 8, 50)]);
    assert_eq!(p.deposit(Origin::Root, 1), Err(DispatchError::BadOrigin));
}

#[test]
fn pool_deposit_overflows() {
    let mut p = Module::new(1);
    assert_eq!(p.deposit(Origin::Signed(4), u64::MAX), Ok(()));
    assert_eq!(p.deposit(Origin::Signed(4), 1), Err(DispatchError::StakingOverflow));
    // the stake of account 5 is written before the pool total overflows
    assert_eq!(p.deposit(Origin::Signed(5), 1), Err(DispatchError::PoolOverflow));
    assert_eq!(p.user_assets_info(5).staking_amount, 1);
    assert_eq!(p.pool_assets(), u64::MAX);
}

#[test]
fn pool_exchange_only_zero() {
    let mut p = Module::new(1);
    assert!(p.deposit(Origin::Signed(4), 30).is_ok());
    assert_eq!(p.exchange(Origin::Signed(4), 1), Err(DispatchError::NotEnoughStake));
    assert_eq!(p.exchange(Origin::Signed(4), 0), Ok(()));
    assert_eq!(p.user_assets_info(4), UserAssets { staking_amount: 30, locked_amount: 0, lending_amount: 0 });
    assert_eq!(p.events().last(), Some(&Event::Exchange(4, 0, 1)));
}

#[test]
fn pool_set_fee_owner_only() {
    let mut p = Module::new(1);
    assert_eq!(p.rate_fee1k(), 1);
    assert_eq!(p.set_fee(Origin::Signed(2), 10), Err(DispatchError::OnlyOwner));
    assert_eq!(p.set_fee(Origin::Signed(1), 10), Ok(()));
    assert_eq!(p.rate_fee1k(), 10);
    assert_eq!(p.owner(), 1);
}
