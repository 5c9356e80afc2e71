use bandot::error::DispatchError;
use bandot::node::bdt;
use bandot::node::cdp::{Event, Module, Pos};
use bandot::node::traits::Token;
use bandot::origin::Origin;

/// The collateral rule of the positions: one and a half times the debt may
/// not exceed the collateral's value.
fn pos_safe(lock: u64, lend: u64, price: u64) -> bool {
    let lock_value = lock * price;
    ((lend as f64) * 1.5_f64) as u64 <= lock_value
}

fn setup() -> (bdt::Module, bdt::Module, Module) {
    let mut skr = bdt::Module::new(2, 0);
    let _ = skr.init(Origin::Signed(2));
    let _ = bdt::Module::mint(&mut skr, Origin::Signed(2), 4, 1000);
    let bdt = bdt::Module::new(1, 0);
    let cdp = Module::new(3);
    (skr, bdt, cdp)
}

#[test]
fn pos_open_lock_draw_wipe_free() {
    let (mut skr, mut coin, mut cdp) = setup();
    assert_eq!(cdp.open(Origin::Signed(4)), Ok(()));
    assert_eq!(cdp.pos_count(), 1);
    assert_eq!(cdp.owned_pos_count(4), 1);
    assert_eq!(cdp.owned_pos_index(4, 0), 0);
    assert_eq!(cdp.owner_of(0), Some(4));
    assert_eq!(cdp.lock(Origin::Signed(4), 0, 300, &mut skr), Ok(()));
    assert_eq!(skr.balance_of(&4), 700);
    assert_eq!(skr.balance_of(&3), 300);
    assert_eq!(cdp.draw(Origin::Signed(4), 0, 201, &mut coin, pos_safe), Err(DispatchError::Unsafe));
    assert_eq!(cdp.draw(Origin::Signed(4), 0, 200, &mut coin, pos_safe), Ok(()));
    assert_eq!(coin.balance_of(&4), 200);
    assert_eq!(cdp.wipe(Origin::Signed(4), 0, 200, &mut coin), Err(DispatchError::AmountNotBelowDebt));
    assert_eq!(cdp.wipe(Origin::Signed(4), 0, 150, &mut coin), Ok(()));
    assert_eq!(coin.balance_of(&4), 50);
    assert_eq!(cdp.pos_index(0), Pos { id: 0, lock_skr: 300, lend_bdt: 50, fee_bdt: 0 });
    assert_eq!(cdp.free(Origin::Signed(4), 0, 300, &mut skr, pos_safe), Err(DispatchError::AmountNotBelowLock));
    assert_eq!(cdp.free(Origin::Signed(4), 0, 226, &mut skr, pos_safe), Err(DispatchError::Unsafe));
    assert_eq!(cdp.free(Origin::Signed(4), 0, 225, &mut skr, pos_safe), Ok(()));
    assert_eq!(skr.balance_of(&4), 925);
    assert_eq!(
        cdp.events(),
        &[
            Event::Open(4),
            Event::Lock(4, 0, 300),
            Event::Draw(4, 0, 200),
            Event::Wipe(4, 0, 150),
            Event::Free(4, 0, 225),
        ]
    );
}

#[test]
fn pos_needs_owned_index() {
    let (mut skr, mut coin, mut cdp) = setup();
    assert!(cdp.open(Origin::Signed(4)).is_ok());
    assert_eq!(cdp.lock(Origin::Signed(5), 0, 1, &mut skr), Err(DispatchError::OwnedIndexTooBig));
    assert_eq!(cdp.lock(Origin::Signed(4), 1, 1, &mut skr), Err(DispatchError::OwnedIndexTooBig));
    assert_eq!(cdp.draw(Origin::Signed(5), 0, 1, &mut coin, |_, _, _| true), Err(DispatchError::OwnedIndexTooBig));
    assert_eq!(cdp.wipe(Origin::Signed(5), 0, 1, &mut coin), Err(DispatchError::OwnedIndexTooBig));
    assert_eq!(cdp.free(Origin::Signed(5), 0, 1, &mut skr, |_, _, _| true), Err(DispatchError::OwnedIndexTooBig));
    assert_eq!(cdp.lock(Origin::Root, 0, 1, &mut skr), Err(DispatchError::BadOrigin));
}

#[test]
fn pos_overflows() {
    let (mut skr, mut coin, mut cdp) = setup();
    assert!(cdp.open(Origin::Signed(4)).is_ok());
    assert!(cdp.lock(Origin::Signed(4), 0, u64::MAX, &mut skr).is_ok());
    assert_eq!(cdp.lock(Origin::Signed(4), 0, 1, &mut skr), Err(DispatchError::LockOverflow));
    assert!(cdp.draw(Origin::Signed(4), 0, u64::MAX, &mut coin, |_, _, _| true).is_ok());
    assert_eq!(cdp.draw(Origin::Signed(4), 0, 1, &mut coin, |_, _, _| true), Err(DispatchError::DebtOverflow));
    // the failed transfer of the oversized lock changed no balance
    assert_eq!(skr.balance_of(&4), 1000);
}

#[test]
fn pos_update_price_root_only() {
    let (_skr, _coin, mut cdp) = setup();
    assert_eq!(cdp.skr_price(), 1);
    assert_eq!(cdp.stability_fee(), 5000);
    assert_eq!(cdp.update_price(Origin::Signed(3), 7), Err(DispatchError::BadOrigin));
    assert_eq!(cdp.update_price(Origin::Root, 7), Ok(()));
    assert_eq!(cdp.skr_price(), 7);
    assert_eq!(cdp.owner(), 3);
    assert_eq!(cdp.exchange_rates(4), None);
}

#[test]
fn pos_price_raises_what_can_be_drawn() {
    let (mut skr, mut coin, mut cdp) = setup();
    assert!(cdp.open(Origin::Signed(4)).is_ok());
    assert!(cdp.lock(Origin::Signed(4), 0, 30, &mut skr).is_ok());
    assert_eq!(cdp.draw(Origin::Signed(4), 0, 21, &mut coin, pos_safe), Err(DispatchError::Unsafe));
    assert!(cdp.update_price(Origin::Root, 2).is_ok());
    assert_eq!(cdp.draw(Origin::Signed(4), 0, 40, &mut coin, pos_safe), Ok(()));
}

#[test]
fn pos_wipe_undoes_draw_concrete() {
    let (_skr, mut coin, mut cdp) = setup();
    assert!(cdp.open(Origin::Signed(4)).is_ok());
    assert!(cdp.draw(Origin::Signed(4), 0, 5, &mut coin, |_, _, _| true).is_ok());
    let before = cdp.pos_index(0);
    assert!(cdp.draw(Origin::Signed(4), 0, 9, &mut coin, |_, _, _| true).is_ok());
    assert!(cdp.wipe(Origin::Signed(4), 0, 9, &mut coin).is_ok());
    assert_eq!(cdp.pos_index(0), before);
    assert_eq!(coin.balance_of(&4), 5);
}

#[test]
fn pos_free_undoes_lock_concrete() {
    let (mut skr, _coin, mut cdp) = setup();
    assert!(cdp.open(Origin::Signed(4)).is_ok());
    assert!(cdp.lock(Origin::Signed(4), 0, 10, &mut skr).is_ok());
    let before = cdp.pos_index(0);
    assert!(cdp.lock(Origin::Signed(4), 0, 6, &mut skr).is_ok());
    assert!(cdp.free(Origin::Signed(4), 0, 6, &mut skr, |_, _, _| true).is_ok());
    assert_eq!(cdp.pos_index(0), before);
    assert_eq!(skr.balance_of(&4), 990);
}

#[test]
fn pos_several_owners() {
    let (_skr, _coin, mut cdp) = setup();
    assert!(cdp.open(Origin::Signed(4)).is_ok());
    assert!(cdp.open(Origin::Signed(5)).is_ok());
    assert!(cdp.open(Origin::Signed(4)).is_ok());
    assert_eq!(cdp.owned_pos_index(4, 1), 2);
    assert_eq!(cdp.owned_pos_index(5, 0), 1);
    assert_eq!(cdp.owned_pos_index(5, 1), 0);
    assert_eq!(cdp.owner_of(1), Some(5));
    assert_eq!(cdp.pos_index(2).id, 2);
    assert_eq!(cdp.pos_index(8), Pos::default());
}
