use bandot::error::DispatchError;
use bandot::node::bdt;
use bandot::node::traits::{MintableToken, Token};
use bandot::origin::Origin;
use bandot::runtime::cdp::{Cup, Module as Cdp};

/// The collateral rule of the cups: the debt may be at most two thirds of
/// the collateral's value.
fn cup_safe(locked: u64, debts: u64, price: u64) -> bool {
    let value = locked * price;
    debts <= ((value as f64) / 1.5_f64) as u64
}

fn setup() -> (bdt::Module, bdt::Module, Cdp) {
    let pdot = bdt::Module::new(2, 0);
    let sai = bdt::Module::new(1, 0);
    let cdp = Cdp::new(3);
    (pdot, sai, cdp)
}

#[test]
fn open_position_works() {
    let (mut pdot, _sai, mut cdp) = setup();
    let _ = pdot.init(Origin::Signed(2));
    let _ = bdt::Module::mint(&mut pdot, Origin::Signed(2), 4, 9999);
    assert_eq!(Token::balance_of(&pdot, &4), 9999);

    assert!(cdp.open(Origin::Signed(4)).is_ok());
    assert_eq!(cdp.all_cups_count(), 1);

    let _ = cdp.lock(Origin::Signed(4), 0, 999, &mut pdot);
    assert_eq!(Token::balance_of(&pdot, &4), 9000);
    let c = cdp.cup_by_index(0);
    assert_eq!(c.locked_collaterals, 999);
}

#[test]
fn cup_open_records_owner() {
    let (_pdot, _sai, mut cdp) = setup();
    assert_eq!(cdp.open(Origin::Signed(4)), Ok(()));
    assert_eq!(cdp.open(Origin::Signed(5)), Ok(()));
    assert_eq!(cdp.open(Origin::Signed(4)), Ok(()));
    assert_eq!(cdp.all_cups_count(), 3);
    assert_eq!(cdp.owned_cup_count(4), 2);
    assert_eq!(cdp.owned_cup_count(5), 1);
    assert_eq!(cdp.cup_of_owner_by_index(4, 1), 2);
    assert_eq!(cdp.cup_of_owner_by_index(5, 0), 1);
    assert_eq!(cdp.owner_of(2), Some(4));
    assert_eq!(cdp.owner_of(7), None);
    assert_eq!(cdp.cup_by_index(2), Cup { id: 2, locked_collaterals: 0, debts: 0, art: 0 });
    assert_eq!(cdp.cup_by_index(9), Cup::default());
}

#[test]
fn cup_open_needs_signed_origin() {
    let (_pdot, _sai, mut cdp) = setup();
    assert_eq!(cdp.open(Origin::Root), Err(DispatchError::BadOrigin));
    assert_eq!(cdp.open(Origin::Unsigned), Err(DispatchError::BadOrigin));
    assert_eq!(cdp.all_cups_count(), 0);
}

#[test]
fn cup_lock_without_own_cup_hits_cup_zero() {
    let (mut pdot, _sai, mut cdp) = setup();
    let _ = pdot.init(Origin::Signed(2));
    let _ = bdt::Module::mint(&mut pdot, Origin::Signed(2), 5, 100);
    assert!(cdp.open(Origin::Signed(4)).is_ok());
    // account 5 has no cup; index 0 addresses cup 0, which belongs to 4
    assert_eq!(cdp.lock(Origin::Signed(5), 0, 10, &mut pdot), Ok(()));
    assert_eq!(cdp.cup_by_index(0).locked_collaterals, 10);
    assert_eq!(Token::balance_of(&pdot, &5), 90);
    assert_eq!(Token::balance_of(&pdot, &3), 10);
}

#[test]
fn cup_lock_ignores_failed_transfer() {
    let (mut pdot, _sai, mut cdp) = setup();
    assert!(cdp.open(Origin::Signed(4)).is_ok());
    assert_eq!(cdp.lock(Origin::Signed(4), 0, 50, &mut pdot), Ok(()));
    assert_eq!(cdp.cup_by_index(0).locked_collaterals, 50);
    assert_eq!(Token::balance_of(&pdot, &4), 0);
    assert_eq!(Token::balance_of(&pdot, &3), 0);
}

#[test]
fn cup_lock_overflow() {
    let (mut pdot, _sai, mut cdp) = setup();
    assert!(cdp.open(Origin::Signed(4)).is_ok());
    assert_eq!(cdp.lock(Origin::Signed(4), 0, u64::MAX, &mut pdot), Ok(()));
    assert_eq!(cdp.lock(Origin::Signed(4), 0, 1, &mut pdot), Err(DispatchError::CollateralOverflow));
    assert_eq!(cdp.cup_by_index(0).locked_collaterals, u64::MAX);
}

#[test]
fn cup_draw_and_wipe() {
    let (mut pdot, mut sai, mut cdp) = setup();
    let _ = pdot.init(Origin::Signed(2));
    let _ = bdt::Module::mint(&mut pdot, Origin::Signed(2), 4, 9999);
    assert!(cdp.open(Origin::Signed(4)).is_ok());
    assert!(cdp.lock(Origin::Signed(4), 0, 300, &mut pdot).is_ok());
    // 300 at price 1 carries at most 200
    assert_eq!(cdp.draw(Origin::Signed(4), 0, 201, &mut sai, cup_safe), Err(DispatchError::CupUnsafe));
    assert_eq!(cdp.draw(Origin::Signed(4), 0, 200, &mut sai, cup_safe), Ok(()));
    assert_eq!(cdp.cup_by_index(0).debts, 200);
    assert_eq!(Token::balance_of(&sai, &4), 200);
    assert_eq!(Token::total_supply(&sai), 200);
    assert_eq!(cdp.wipe(Origin::Signed(4), 0, 201, &mut sai), Err(DispatchError::DebtUnderflow));
    assert_eq!(cdp.wipe(Origin::Signed(4), 0, 200, &mut sai), Ok(()));
    assert_eq!(cdp.cup_by_index(0).debts, 0);
    assert_eq!(Token::balance_of(&sai, &4), 0);
    assert_eq!(Token::total_supply(&sai), 0);
}

#[test]
fn cup_draw_only_owner() {
    let (_pdot, mut sai, mut cdp) = setup();
    assert!(cdp.open(Origin::Signed(4)).is_ok());
    assert_eq!(cdp.draw(Origin::Signed(5), 0, 1, &mut sai, |_, _, _| true), Err(DispatchError::OnlyPositionOwner));
    assert_eq!(cdp.draw(Origin::Signed(4), 0, u64::MAX, &mut sai, |_, _, _| true), Ok(()));
    assert_eq!(cdp.draw(Origin::Signed(4), 0, 1, &mut sai, |_, _, _| true), Err(DispatchError::DebtsOverflow));
}

#[test]
fn cup_free_stops_at_zero() {
    let (mut pdot, _sai, mut cdp) = setup();
    let _ = pdot.init(Origin::Signed(2));
    let _ = bdt::Module::mint(&mut pdot, Origin::Signed(2), 4, 100);
    assert!(cdp.open(Origin::Signed(4)).is_ok());
    assert!(cdp.lock(Origin::Signed(4), 0, 60, &mut pdot).is_ok());
    assert_eq!(cdp.free(Origin::Signed(5), 0, 10, &mut pdot, cup_safe), Err(DispatchError::OnlyPositionOwner));
    // freeing more than is locked leaves nothing locked and sends back what the owner account can pay
    assert_eq!(cdp.free(Origin::Signed(4), 0, 80, &mut pdot, cup_safe), Ok(()));
    assert_eq!(cdp.cup_by_index(0).locked_collaterals, 0);
    assert_eq!(Token::balance_of(&pdot, &4), 40);
    assert_eq!(Token::balance_of(&pdot, &3), 60);
}

#[test]
fn cup_free_refused_when_unsafe() {
    let (mut pdot, mut sai, mut cdp) = setup();
    let _ = pdot.init(Origin::Signed(2));
    let _ = bdt::Module::mint(&mut pdot, Origin::Signed(2), 4, 100);
    assert!(cdp.open(Origin::Signed(4)).is_ok());
    assert!(cdp.lock(Origin::Signed(4), 0, 90, &mut pdot).is_ok());
    assert!(cdp.draw(Origin::Signed(4), 0, 60, &mut sai, cup_safe).is_ok());
    assert_eq!(cdp.free(Origin::Signed(4), 0, 1, &mut pdot, cup_safe), Err(DispatchError::CupUnsafe));
    assert_eq!(cdp.cup_by_index(0).locked_collaterals, 90);
}

#[test]
fn cup_wipe_undoes_draw_concrete() {
    let (_pdot, mut sai, mut cdp) = setup();
    assert!(cdp.open(Origin::Signed(4)).is_ok());
    let before = cdp.cup_by_index(0);
    assert!(cdp.draw(Origin::Signed(4), 0, 7, &mut sai, |_, _, _| true).is_ok());
    assert!(cdp.wipe(Origin::Signed(4), 0, 7, &mut sai).is_ok());
    assert_eq!(cdp.cup_by_index(0), before);
}

#[test]
fn cup_free_undoes_lock_concrete() {
    let (mut pdot, _sai, mut cdp) = setup();
    let _ = pdot.init(Origin::Signed(2));
    let _ = bdt::Module::mint(&mut pdot, Origin::Signed(2), 4, 100);
    assert!(cdp.open(Origin::Signed(4)).is_ok());
    assert!(cdp.lock(Origin::Signed(4), 0, 30, &mut pdot).is_ok());
    let before = cdp.cup_by_index(0);
    assert!(cdp.lock(Origin::Signed(4), 0, 12, &mut pdot).is_ok());
    assert!(cdp.free(Origin::Signed(4), 0, 12, &mut pdot, |_, _, _| true).is_ok());
    assert_eq!(cdp.cup_by_index(0), before);
    assert_eq!(Token::balance_of(&pdot, &4), 70);
}

#[test]
fn cup_wipe_burns_from_signer() {
    let (_pdot, mut sai, mut cdp) = setup();
    assert!(cdp.open(Origin::Signed(4)).is_ok());
    assert!(cdp.draw(Origin::Signed(4), 0, 10, &mut sai, |_, _, _| true).is_ok());
    assert!(MintableToken::mint(&mut sai, &5, 3).is_ok());
    // account 5 pays back part of cup 0 (it has no cup of its own)
    assert_eq!(cdp.wipe(Origin::Signed(5), 0, 3, &mut sai), Ok(()));
    assert_eq!(cdp.cup_by_index(0).debts, 7);
    assert_eq!(Token::balance_of(&sai, &5), 0);
}
