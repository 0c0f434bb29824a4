use aleph::marketplace::{
    Bought, EnvironmentError, Marketplace, MarketplaceError, PSP22Error, Reset, Role,
};
use aleph::types::{AccountId, H256};

fn ticket() -> AccountId {
    AccountId([1u8; 32])
}

fn reward() -> AccountId {
    AccountId([2u8; 32])
}

fn buyer() -> AccountId {
    AccountId([7u8; 32])
}

// starting price 1000, minimum 10, multiplier 2, auctions of 100 blocks, from block 5
fn sample() -> Marketplace {
    Marketplace::new(ticket(), reward(), 1000, 10, 2, 100, 5)
}

// the three steps of a purchase, with the outcomes of the two transfers
fn purchase(
    m: &mut Marketplace,
    max_price: Option<u128>,
    ticket_balance: Result<u128, MarketplaceError>,
    payment: Result<(), MarketplaceError>,
    delivery: Result<(), MarketplaceError>,
    block: u32,
) -> Result<Bought, MarketplaceError> {
    let p = m.begin_purchase(max_price, ticket_balance, buyer(), block)?;
    let paid = p.paid(payment)?;
    m.buy(paid, delivery)
}

#[test]
fn new_sets_parameters() {
    let m = sample();
    assert_eq!(m.ticket_token(), ticket());
    assert_eq!(m.reward_token(), reward());
    assert_eq!(m.min_price(), 10);
    assert_eq!(m.sale_multiplier(), 2);
    assert_eq!(m.auction_length(), 100);
    assert_eq!(m.current_start_block(), 5);
    assert_eq!(m.average_price(), 500);
}

#[test]
fn first_auction_opens_at_starting_price() {
    let m = sample();
    assert_eq!(m.price(5), 1000);
    assert_eq!(m.current_price(5), 1000);
}

#[test]
fn price_before_start_is_opening_price() {
    let m = sample();
    assert_eq!(m.price(0), 1000);
    assert_eq!(m.price(4), 1000);
}

#[test]
fn per_block_reduction_is_average_over_length() {
    let m = sample();
    // (1000 - 10) / 100
    assert_eq!(m.per_block_reduction(), 9);
    let short = Marketplace::new(ticket(), reward(), 10, 1, 1, 100, 0);
    // (10 - 1) / 100 rounds to 0, the reduction is at least 1
    assert_eq!(short.per_block_reduction(), 1);
}

#[test]
fn price_falls_linearly() {
    let m = sample();
    assert_eq!(m.price(6), 991);
    assert_eq!(m.price(7), 982);
    assert_eq!(m.price(104), 109);
    for b in 5u32..104 {
        assert_eq!(m.price(b) - m.price(b + 1), 9);
    }
}

#[test]
fn price_never_below_minimum() {
    let m = sample();
    assert_eq!(m.price(105), 10);
    assert_eq!(m.price(106), 10);
    assert_eq!(m.price(10_000), 10);
    assert_eq!(m.price(u32::MAX), 10);
    for b in (0u32..1000).step_by(7) {
        assert!(m.price(b) >= m.min_price());
    }
}

#[test]
fn price_non_increasing() {
    let m = sample();
    let mut last = m.price(0);
    for b in 1u32..400 {
        let p = m.price(b);
        assert!(p <= last);
        last = p;
    }
}

#[test]
fn price_reaches_minimum_after_auction_length() {
    // multiplier 1: the opening price is the average, the reduction over the
    // auction's length covers it
    let m = Marketplace::new(ticket(), reward(), 1000, 10, 1, 100, 0);
    assert_eq!(m.price(0), 1000);
    assert_eq!(m.price(99), 109);
    assert_eq!(m.price(100), 10);
    assert_eq!(m.price(150), 10);
    // whatever the multiplier, the minimum is reached after auction_length blocks
    let m = sample();
    assert_eq!(m.price(104), 109);
    assert_eq!(m.price(105), 10);
}

#[test]
fn schedule_from_opening_to_minimum() {
    let m = Marketplace::new(ticket(), reward(), 200, 5, 2, 10, 0);
    assert_eq!(m.average_price(), 100);
    assert_eq!(m.price(0), 200);
    // (200 - 5) / 10 = 19 per block
    assert_eq!(m.price(3), 143);
    assert_eq!(m.price(9), 29);
    assert_eq!(m.price(10), 5);
    assert_eq!(m.price(25), 5);
}

#[test]
fn huge_multiplier_saturates() {
    let m = Marketplace::new(ticket(), reward(), u128::MAX, 0, 1, 1, 0);
    assert_eq!(m.average_price(), u128::MAX);
    assert_eq!(m.price(0), u128::MAX);
    // an auction of one block: the next block is at the minimum
    assert_eq!(m.price(1), 0);
    let m = Marketplace::new(ticket(), reward(), 10, 3, u128::MAX, 10, 0);
    assert_eq!(m.average_price(), 0);
    assert_eq!(m.price(0), 3);
}

#[test]
fn buy_succeeds_and_updates_average() {
    let mut m = sample();
    // 1000 - 9 * 50
    let r = purchase(&mut m, None, Ok(3), Ok(()), Ok(()), 55);
    assert_eq!(r, Ok(Bought { account_id: buyer(), price: 550 }));
    assert_eq!(m.current_start_block(), 55);
    // (500 + 550) / 2
    assert_eq!(m.average_price(), 525);
    assert_eq!(m.price(55), 1050);
    let r = purchase(&mut m, Some(1050), Ok(2), Ok(()), Ok(()), 55);
    assert_eq!(r, Ok(Bought { account_id: buyer(), price: 1050 }));
    // (500 + 550 + 1050) / 3
    assert_eq!(m.average_price(), 700);
    assert_eq!(m.price(55), 1400);
}

#[test]
fn buy_refuses_when_empty() {
    let mut m = sample();
    let r = purchase(&mut m, None, Ok(0), Ok(()), Ok(()), 55);
    assert_eq!(r, Err(MarketplaceError::MarketplaceEmpty));
    assert_eq!(m.average_price(), 500);
    assert_eq!(m.current_start_block(), 5);
}

#[test]
fn buy_refuses_above_max_price() {
    let mut m = sample();
    let r = purchase(&mut m, Some(549), Ok(1), Ok(()), Ok(()), 55);
    assert_eq!(r, Err(MarketplaceError::MaxPriceExceeded));
    assert_eq!(m.current_start_block(), 5);
    let r = purchase(&mut m, Some(550), Ok(1), Ok(()), Ok(()), 55);
    assert_eq!(r, Ok(Bought { account_id: buyer(), price: 550 }));
}

#[test]
fn buy_passes_on_balance_error() {
    let mut m = sample();
    let e = MarketplaceError::ContractCall("CalleeTrapped".to_string());
    let r = purchase(&mut m, None, Err(e.clone()), Ok(()), Ok(()), 55);
    assert_eq!(r, Err(e));
    assert_eq!(m.current_start_block(), 5);
}

#[test]
fn purchase_names_buyer_and_price() {
    let m = sample();
    let p = m.begin_purchase(None, Ok(1), buyer(), 55).unwrap();
    assert_eq!(p.buyer(), buyer());
    assert_eq!(p.price(), 550);
    let paid = p.paid(Ok(())).unwrap();
    assert_eq!(paid.buyer(), buyer());
    assert_eq!(paid.price(), 550);
}

#[test]
fn no_delivery_without_payment() {
    let m = sample();
    let e = MarketplaceError::PSP22TokenCall(PSP22Error::InsufficientAllowance);
    let p = m.begin_purchase(None, Ok(1), buyer(), 55).unwrap();
    assert_eq!(p.paid(Err(e.clone())).err(), Some(e));
}

#[test]
fn buy_fails_when_payment_fails() {
    let mut m = sample();
    let e = MarketplaceError::PSP22TokenCall(PSP22Error::InsufficientAllowance);
    let r = purchase(&mut m, None, Ok(1), Err(e.clone()), Ok(()), 55);
    assert_eq!(r, Err(e));
    assert_eq!(m.average_price(), 500);
    assert_eq!(m.current_start_block(), 5);
}

#[test]
fn buy_fails_when_delivery_fails() {
    let mut m = sample();
    let e = MarketplaceError::PSP22TokenCall(PSP22Error::InsufficientBalance);
    let r = purchase(&mut m, None, Ok(1), Ok(()), Err(e.clone()), 55);
    assert_eq!(r, Err(e));
    assert_eq!(m.current_start_block(), 5);
    assert_eq!(m.average_price(), 500);
}

#[test]
fn quote_gives_price_or_reason() {
    let m = sample();
    assert_eq!(m.quote(None, Ok(1), 6), Ok(991));
    assert_eq!(m.quote(Some(990), Ok(1), 6), Err(MarketplaceError::MaxPriceExceeded));
    assert_eq!(m.quote(Some(991), Ok(1), 6), Ok(991));
    assert_eq!(m.quote(None, Ok(0), 6), Err(MarketplaceError::MarketplaceEmpty));
}

#[test]
fn buy_saturates_counters() {
    let mut m = Marketplace::new(ticket(), reward(), u128::MAX, 0, 1, 1, 0);
    let r = purchase(&mut m, None, Ok(1), Ok(()), Ok(()), 0);
    assert_eq!(r, Ok(Bought { account_id: buyer(), price: u128::MAX }));
    // the proceeds saturate at u128::MAX over two sales
    assert_eq!(m.average_price(), u128::MAX / 2);
}

#[test]
fn reset_restarts_auction_keeping_average() {
    let mut m = sample();
    assert_eq!(m.reset(Ok(()), 300), Ok(Reset));
    assert_eq!(m.current_start_block(), 300);
    assert_eq!(m.average_price(), 500);
    assert_eq!(m.price(300), 1000);
    assert_eq!(m.price(301), 991);
    assert_eq!(m.price(400), 10);
}

#[test]
fn reset_requires_authorization() {
    let mut m = sample();
    let e = MarketplaceError::MissingRole(Marketplace::admin(AccountId([9u8; 32])));
    assert_eq!(m.reset(Err(e.clone()), 300), Err(e));
    assert_eq!(m.current_start_block(), 5);
}

#[test]
fn set_min_price_updates_only_minimum() {
    let mut m = sample();
    assert_eq!(m.set_min_price(Ok(()), 700), Ok(()));
    assert_eq!(m.min_price(), 700);
    assert_eq!(m.price(105), 700);
    assert_eq!(m.price(5), 1000);
    // (1000 - 700) / 100 = 3 per block
    assert_eq!(m.price(55), 850);
    let e = MarketplaceError::MissingRole(Role::Admin(AccountId([9u8; 32])));
    assert_eq!(m.set_min_price(Err(e.clone()), 1), Err(e));
    assert_eq!(m.min_price(), 700);
}

#[test]
fn admin_role_names_contract() {
    assert_eq!(Marketplace::admin(AccountId([3u8; 32])), Role::Admin(AccountId([3u8; 32])));
}

#[test]
fn environment_error_becomes_contract_call() {
    let e = MarketplaceError::from_environment_error(&EnvironmentError::CalleeTrapped);
    assert_eq!(e, MarketplaceError::ContractCall("CalleeTrapped".to_string()));
    let e = MarketplaceError::from_environment_error(&EnvironmentError::CalleeReverted);
    assert_eq!(e, MarketplaceError::ContractCall("CalleeReverted".to_string()));
    let e = MarketplaceError::from_environment_error(&EnvironmentError::BelowSubsistenceThreshold);
    assert_eq!(e, MarketplaceError::ContractCall("_BelowSubsistenceThreshold".to_string()));
    let e = MarketplaceError::from_environment_error(&EnvironmentError::Decode(
        "Error { cause: None, desc: \"bad\" }".to_string(),
    ));
    assert_eq!(
        e,
        MarketplaceError::ContractCall("Decode(Error { cause: None, desc: \"bad\" })".to_string())
    );
}

#[test]
fn environment_error_text_matches_debug() {
    // the descriptions are what `ink_env::Error`'s Debug prints
    let pairs = [
        (ink_env::Error::CalleeTrapped, EnvironmentError::CalleeTrapped),
        (ink_env::Error::KeyNotFound, EnvironmentError::KeyNotFound),
        (ink_env::Error::_EndowmentTooLow, EnvironmentError::EndowmentTooLow),
        (ink_env::Error::EcdsaRecoveryFailed, EnvironmentError::EcdsaRecoveryFailed),
    ];
    for (outside, ours) in pairs {
        assert_eq!(
            MarketplaceError::from_environment_error(&ours),
            MarketplaceError::ContractCall(format!("{:?}", outside))
        );
    }
}

#[test]
fn token_error_converts() {
    let e: MarketplaceError = PSP22Error::ZeroRecipientAddress.into();
    assert_eq!(e, MarketplaceError::PSP22TokenCall(PSP22Error::ZeroRecipientAddress));
}

#[test]
fn role_check_answers() {
    let role = Marketplace::admin(AccountId([3u8; 32]));
    assert_eq!(Marketplace::ensure_role(role, Ok(true)), Ok(()));
    assert_eq!(
        Marketplace::ensure_role(role, Ok(false)),
        Err(MarketplaceError::MissingRole(Role::Admin(AccountId([3u8; 32]))))
    );
    assert_eq!(
        Marketplace::ensure_role(role, Err(EnvironmentError::CalleeTrapped)),
        Err(MarketplaceError::ContractCall("CalleeTrapped".to_string()))
    );
}

#[test]
fn missing_role_leaves_state() {
    let mut m = sample();
    let this = AccountId([3u8; 32]);
    let denied = Marketplace::ensure_role(Marketplace::admin(this), Ok(false));
    assert_eq!(
        m.set_min_price(denied.clone(), 1),
        Err(MarketplaceError::MissingRole(Role::Admin(this)))
    );
    assert_eq!(m.reset(denied, 400), Err(MarketplaceError::MissingRole(Role::Admin(this))));
    assert_eq!(m.min_price(), 10);
    assert_eq!(m.current_start_block(), 5);
}

#[test]
fn instantiate_requires_initializer() {
    let role = Marketplace::initializer(H256([4u8; 32]));
    assert_eq!(role, Role::Initializer(H256([4u8; 32])));
    let denied = Marketplace::ensure_role(role, Ok(false));
    let r = Marketplace::instantiate(denied, ticket(), reward(), 1000, 10, 2, 100, 5);
    assert_eq!(r.err(), Some(MarketplaceError::MissingRole(role)));
    let failed = Marketplace::ensure_role(role, Err(EnvironmentError::NotCallable));
    let r = Marketplace::instantiate(failed, ticket(), reward(), 1000, 10, 0, 100, 5);
    assert_eq!(r.err(), Some(MarketplaceError::ContractCall("NotCallable".to_string())));
    let m = Marketplace::instantiate(Ok(()), ticket(), reward(), 1000, 10, 2, 100, 5).unwrap();
    assert_eq!(m.average_price(), 500);
    assert_eq!(m.current_start_block(), 5);
    assert_eq!(m.price(5), 1000);
}

#[test]
fn transfer_outcomes() {
    assert_eq!(MarketplaceError::transfer_outcome(Ok(Ok(()))), Ok(()));
    assert_eq!(
        MarketplaceError::transfer_outcome(Ok(Err(PSP22Error::InsufficientBalance))),
        Err(MarketplaceError::PSP22TokenCall(PSP22Error::InsufficientBalance))
    );
    assert_eq!(
        MarketplaceError::transfer_outcome(Err(EnvironmentError::CalleeReverted)),
        Err(MarketplaceError::ContractCall("CalleeReverted".to_string()))
    );
}
