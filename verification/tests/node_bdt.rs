use bandot::error::DispatchError;
use bandot::node::bdt::{Event, Module};
use bandot::node::traits::{MintableToken, Token};
use bandot::origin::Origin;

fn started() -> Module {
    let mut m = Module::new(1, 1000);
    assert_eq!(m.init(Origin::Signed(1)), Ok(()));
    m
}

#[test]
fn bdt_init_gives_owner_circulation() {
    let mut m = Module::new(1, 1000);
    assert!(!m.is_init());
    assert_eq!(m.init(Origin::Signed(2)), Err(DispatchError::OnlyOwnerCanInit));
    assert_eq!(m.init(Origin::Root), Err(DispatchError::BadOrigin));
    assert_eq!(m.init(Origin::Signed(1)), Ok(()));
    assert!(m.is_init());
    assert_eq!(m.balance_of(&1), 1000);
    assert_eq!(m.total_supply(), 1000);
    assert_eq!(m.init(Origin::Signed(1)), Err(DispatchError::AlreadyInitialized));
    assert_eq!(m.owner(), 1);
}

#[test]
fn bdt_transfer_moves_balance() {
    let mut m = started();
    assert_eq!(Module::transfer(&mut m, Origin::Signed(1), 2, 300), Ok(()));
    assert_eq!(m.balance_of(&1), 700);
    assert_eq!(m.balance_of(&2), 300);
    assert_eq!(m.circulation(), 1000);
    assert_eq!(m.events(), &[Event::Transfer(1, 2, 300)]);
}

#[test]
fn bdt_transfer_errors() {
    let mut m = started();
    assert_eq!(Module::transfer(&mut m, Origin::Signed(9), 2, 1), Err(DispatchError::NoAccount));
    assert_eq!(Module::transfer(&mut m, Origin::Signed(1), 2, 1001), Err(DispatchError::NotEnoughBalance));
    assert_eq!(Module::transfer(&mut m, Origin::Unsigned, 2, 1), Err(DispatchError::BadOrigin));
    assert_eq!(m.balance_of(&1), 1000);
}

#[test]
fn bdt_transfer_receiver_overflow() {
    let mut m = Module::new(1, u64::MAX);
    assert_eq!(m.init(Origin::Signed(1)), Ok(()));
    // the balance of 2 is written although the circulation overflows
    assert_eq!(Module::mint(&mut m, Origin::Signed(1), 2, 1), Err(DispatchError::CirculationOverflow));
    assert_eq!(Module::transfer(&mut m, Origin::Signed(2), 1, 1), Err(DispatchError::TransferOverflow));
    assert_eq!(m.balance_of(&1), u64::MAX);
    assert_eq!(m.balance_of(&2), 1);
}

#[test]
fn bdt_transfer_to_self_credits() {
    let mut m = started();
    assert_eq!(Module::transfer(&mut m, Origin::Signed(1), 1, 10), Ok(()));
    assert_eq!(m.balance_of(&1), 1010);
    assert_eq!(m.circulation(), 1000);
}

#[test]
fn bdt_account_with_zero_balance_may_transfer_zero() {
    let mut m = started();
    assert_eq!(Module::transfer(&mut m, Origin::Signed(1), 2, 0), Ok(()));
    assert_eq!(Module::transfer(&mut m, Origin::Signed(2), 3, 0), Ok(()));
    assert_eq!(Module::transfer(&mut m, Origin::Signed(4), 3, 0), Err(DispatchError::NoAccount));
}

#[test]
fn bdt_mint_and_burn() {
    let mut m = started();
    assert_eq!(Module::mint(&mut m, Origin::Signed(2), 2, 5), Err(DispatchError::OnlyOwner));
    assert_eq!(Module::mint(&mut m, Origin::Signed(1), 2, 5), Ok(()));
    assert_eq!(m.balance_of(&2), 5);
    assert_eq!(m.circulation(), 1005);
    assert_eq!(Module::burn(&mut m, Origin::Signed(2), 2, 5), Err(DispatchError::OnlyOwner));
    assert_eq!(Module::burn(&mut m, Origin::Signed(1), 2, 6), Err(DispatchError::NotEnoughBalance));
    assert_eq!(Module::burn(&mut m, Origin::Signed(1), 2, 5), Ok(()));
    assert_eq!(m.balance_of(&2), 0);
    assert_eq!(m.circulation(), 1000);
    assert_eq!(m.events(), &[Event::Mint(2, 5), Event::Burn(2, 5)]);
}

#[test]
fn bdt_mint_balance_overflow() {
    let mut m = started();
    assert_eq!(Module::mint(&mut m, Origin::Signed(1), 1, u64::MAX), Err(DispatchError::BalanceOverflow));
    assert_eq!(m.balance_of(&1), 1000);
    assert_eq!(m.circulation(), 1000);
}

#[test]
fn bdt_mint_circulation_overflow_keeps_balance() {
    let mut m = started();
    assert_eq!(Module::mint(&mut m, Origin::Signed(1), 2, u64::MAX - 999), Err(DispatchError::CirculationOverflow));
    assert_eq!(m.balance_of(&2), u64::MAX - 999);
    assert_eq!(m.circulation(), 1000);
    assert!(m.events().is_empty());
}

#[test]
fn bdt_burn_circulation_underflow_keeps_balance() {
    let mut m = started();
    // a transfer to oneself raises a balance above the circulation
    assert_eq!(Module::transfer(&mut m, Origin::Signed(1), 1, 1000), Ok(()));
    assert_eq!(Module::burn(&mut m, Origin::Signed(1), 1, 1500), Err(DispatchError::CirculationOverflow));
    assert_eq!(m.balance_of(&1), 500);
    assert_eq!(m.circulation(), 1000);
}

#[test]
fn bdt_mint_before_init() {
    let mut m = Module::new(1, 1000);
    assert_eq!(Module::mint(&mut m, Origin::Signed(1), 1, 7), Ok(()));
    assert_eq!(m.circulation(), 1007);
    assert_eq!(m.init(Origin::Signed(1)), Ok(()));
    assert_eq!(m.balance_of(&1), 1007);
}

#[test]
fn bdt_burn_undoes_mint_concrete() {
    let mut m = started();
    assert!(MintableToken::mint(&mut m, &8, 40).is_ok());
    assert!(MintableToken::burn(&mut m, &8, 40).is_ok());
    assert_eq!(m.balance_of(&8), 0);
    assert_eq!(m.balance_of(&1), 1000);
    assert_eq!(m.circulation(), 1000);
}

#[test]
fn bdt_transfer_back_concrete() {
    let mut m = started();
    assert!(Token::transfer(&mut m, &1, &6, 250).is_ok());
    assert!(Token::transfer(&mut m, &6, &1, 250).is_ok());
    assert_eq!(m.balance_of(&1), 1000);
    assert_eq!(m.balance_of(&6), 0);
}

#[test]
fn bdt_balances_add_up_to_circulation() {
    let mut m = started();
    assert!(Module::mint(&mut m, Origin::Signed(1), 2, 50).is_ok());
    assert!(Module::transfer(&mut m, Origin::Signed(1), 3, 400).is_ok());
    assert!(Module::burn(&mut m, Origin::Signed(1), 3, 100).is_ok());
    let sum: u64 = [1u64, 2, 3].iter().map(|a| m.balance_of(a)).sum();
    assert_eq!(sum, m.circulation());
    assert_eq!(m.circulation(), 950);
}

#[test]
fn bdt_trait_calls_report_events() {
    let mut m = started();
    assert_eq!(Token::transfer(&mut m, &1, &2, 10), Ok(()));
    assert_eq!(Token::transfer(&mut m, &2, &3, 11), Err(DispatchError::NotEnoughBalance));
    assert_eq!(MintableToken::mint(&mut m, &4, 5), Ok(()));
    assert_eq!(MintableToken::burn(&mut m, &4, 6), Err(DispatchError::NotEnoughBalance));
    assert_eq!(MintableToken::burn(&mut m, &4, 5), Ok(()));
    assert_eq!(m.events(), &[Event::Transfer(1, 2, 10), Event::Mint(4, 5), Event::Burn(4, 5)]);
    assert_eq!(m.owner(), 1);
    assert!(m.is_init());
}

#[test]
fn bdt_circulation_accounts_for_mints_and_burns() {
    let mut m = Module::new(1, 100);
    assert!(Module::mint(&mut m, Origin::Signed(1), 2, 30).is_ok());
    assert!(m.init(Origin::Signed(1)).is_ok());
    assert!(Module::burn(&mut m, Origin::Signed(1), 2, 40).is_err());
    assert!(Module::transfer(&mut m, Origin::Signed(1), 2, 50).is_ok());
    assert!(Module::burn(&mut m, Origin::Signed(1), 2, 20).is_ok());
    assert!(Module::mint(&mut m, Origin::Signed(1), 3, 7).is_ok());
    assert_eq!(m.total_supply(), 100 + 30 + 7 - 20);
}
