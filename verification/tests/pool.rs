use amm_contract::error::AmmError;
use amm_contract::pool::{Contract, A_TICKER, B_TICKER};

fn small_pool() -> Contract {
    // 100 smallest units of each asset, both with 0 decimals, invariant 100 * 100.
    Contract {
        owner_id: "owner".to_string(),
        ratio: 10000,
        a_ticker: 100,
        a_contract_id: "token_a".to_string(),
        a_contract_name: "A".to_string(),
        a_contract_decimals: 0,
        b_ticker: 100,
        b_contract_id: "token_b".to_string(),
        b_contract_name: "B".to_string(),
        b_contract_decimals: 0,
    }
}

#[test]
fn new_seeds_state() {
    let c = Contract::new(
        "owner".to_string(),
        "token_a".to_string(),
        "token_b".to_string(),
        false,
    )
    .unwrap();
    let (a, b) = c.get_info();
    assert_eq!(a.0, "token_a");
    assert_eq!(a.1, "");
    assert_eq!(a.2, A_TICKER);
    assert_eq!(a.3, 1);
    assert_eq!(b.0, "token_b");
    assert_eq!(b.1, "");
    assert_eq!(b.2, B_TICKER);
    assert_eq!(b.3, 1);
    assert_eq!(c.get_ratio(), 0);
    assert_eq!(c.owner_id, "owner");
}

#[test]
fn new_fails_when_already_initialized() {
    let first = Contract::new(
        "owner".to_string(),
        "token_a".to_string(),
        "token_b".to_string(),
        false,
    )
    .unwrap();
    let snapshot = first.clone();
    let second = Contract::new(
        "other".to_string(),
        "token_x".to_string(),
        "token_y".to_string(),
        true,
    );
    assert_eq!(second, Err(AmmError::AlreadyInitialized));
    assert_eq!(first, snapshot);
}

#[test]
fn metadata_callback_updates_asset_a() {
    let me = "amm".to_string();
    let mut c = Contract {
        ratio: 0,
        a_contract_decimals: 1,
        b_contract_decimals: 1,
        ..small_pool()
    };
    let r = c.callback_get_info(&me, &me, &"token_a".to_string(), "Token A".to_string(), 0);
    assert_eq!(r, Ok(()));
    assert_eq!(c.a_contract_name, "Token A");
    assert_eq!(c.a_contract_decimals, 0);
    assert_eq!(c.b_contract_name, "B");
    assert_eq!(c.b_contract_decimals, 1);
    // invariant recomputed: floor(100 / 10^0) * floor(100 / 10^1) = 100 * 10
    assert_eq!(c.get_ratio(), 1000);
}

#[test]
fn metadata_callback_updates_asset_b() {
    let me = "amm".to_string();
    let mut c = small_pool();
    let r = c.callback_get_info(&me, &me, &"token_b".to_string(), "Token B".to_string(), 1);
    assert_eq!(r, Ok(()));
    assert_eq!(c.b_contract_name, "Token B");
    assert_eq!(c.b_contract_decimals, 1);
    assert_eq!(c.a_contract_name, "A");
    // floor(100 / 1) * floor(100 / 10) = 100 * 10
    assert_eq!(c.get_ratio(), 1000);
}

#[test]
fn metadata_callback_unauthorized() {
    let mut c = small_pool();
    let snapshot = c.clone();
    let r = c.callback_get_info(
        &"mallory".to_string(),
        &"amm".to_string(),
        &"token_a".to_string(),
        "Evil".to_string(),
        3,
    );
    assert_eq!(r, Err(AmmError::Unauthorized));
    assert_eq!(c, snapshot);
}

#[test]
fn metadata_callback_unknown_token_changes_no_metadata() {
    let me = "amm".to_string();
    let mut c = small_pool();
    let r = c.callback_get_info(&me, &me, &"token_c".to_string(), "Stray".to_string(), 5);
    assert_eq!(r, Ok(()));
    assert_eq!(c.a_contract_name, "A");
    assert_eq!(c.a_contract_decimals, 0);
    assert_eq!(c.b_contract_name, "B");
    assert_eq!(c.b_contract_decimals, 0);
    // the invariant is still recomputed from the unchanged fields
    assert_eq!(c.get_ratio(), 10000);
}

#[test]
fn quote_matches_reference_numbers() {
    // reserves 100/100 at 0 decimals, invariant 10000: depositing 10 units of A
    // proposes reserve 110, quotes floor(10000 / 110) = 90 for B, payout 10.
    let c = small_pool();
    let plan = c.deposit_a(&"alice".to_string(), 10).unwrap();
    assert_eq!(plan.debit_token_id, "token_a");
    assert_eq!(plan.debit_amount, 10);
    assert_eq!(plan.a_ticker_after, 110);
    assert_eq!(plan.b_ticker_after, 90);
    assert_eq!(plan.payout_token_id, "token_b");
    assert_eq!(plan.payout_receiver_id, "alice");
    assert_eq!(plan.payout_amount, 10);
}

#[test]
fn quote_scales_amount_by_decimals() {
    let mut c = small_pool();
    c.a_ticker = 1000;
    c.a_contract_decimals = 1;
    c.ratio = 10000; // floor(1000 / 10) * floor(100 / 1)
    let plan = c.deposit_a(&"alice".to_string(), 2).unwrap();
    // scaled debit 2 * 10^1, proposed reserve 1020, quote floor(10000 / 102) = 98
    assert_eq!(plan.debit_amount, 20);
    assert_eq!(plan.a_ticker_after, 1020);
    assert_eq!(plan.b_ticker_after, 98);
    assert_eq!(plan.payout_amount, 2);
}

#[test]
fn deposit_zero_division_is_invalid_quote() {
    // 5 smallest units at 2 decimals normalize to zero whole units, so the
    // quote's divisor is zero: refused before any transfer is planned.
    let mut c = small_pool();
    c.a_ticker = 5;
    c.a_contract_decimals = 2;
    let r = c.deposit_a(&"alice".to_string(), 0);
    assert_eq!(r, Err(AmmError::InvalidQuote));
}

#[test]
fn deposit_nonpositive_payout_is_invalid_quote() {
    // depositing nothing leaves the quoted counter-reserve equal to the
    // current one: a payout of zero is refused.
    let c = small_pool();
    let r = c.deposit_a(&"alice".to_string(), 0);
    assert_eq!(r, Err(AmmError::InvalidQuote));
}

#[test]
fn deposit_b_mirrors_deposit_a() {
    let c = small_pool();
    let plan = c.deposit_b(&"bob".to_string(), 10).unwrap();
    assert_eq!(plan.debit_token_id, "token_b");
    assert_eq!(plan.debit_amount, 10);
    assert_eq!(plan.b_ticker_after, 110);
    assert_eq!(plan.a_ticker_after, 90);
    assert_eq!(plan.payout_token_id, "token_a");
    assert_eq!(plan.payout_receiver_id, "bob");
    assert_eq!(plan.payout_amount, 10);
}

#[test]
fn deposit_b_zero_division_is_invalid_quote() {
    let mut c = small_pool();
    c.b_ticker = 9;
    c.b_contract_decimals = 1;
    let r = c.deposit_b(&"bob".to_string(), 0);
    assert_eq!(r, Err(AmmError::InvalidQuote));
}

#[test]
fn owner_deposit_a_changes_only_reserve_a() {
    let me = "amm".to_string();
    let mut c = small_pool();
    c.a_contract_decimals = 2;
    c.ratio = 100; // floor(100 / 100) * floor(100 / 1)
    let plan = c.deposit_a_by_owner(&"owner".to_string(), 7).unwrap();
    assert_eq!(plan.debit_token_id, "token_a");
    assert_eq!(plan.debit_amount, 700);
    assert_eq!(plan.a_ticker_after, 800);
    assert_eq!(plan.b_ticker_after, 100);
    let before_b = c.b_ticker;
    let before_a = c.a_ticker;
    c.callback_update_tickers(&me, &me, plan.a_ticker_after, plan.b_ticker_after, true)
        .unwrap();
    // reserve A grew by exactly 7 * 10^2; reserve B is untouched
    assert_eq!(c.a_ticker - before_a, 700);
    assert_eq!(c.b_ticker, before_b);
    assert_eq!(c.get_ratio(), 800);
}

#[test]
fn owner_deposit_b_changes_only_reserve_b() {
    let me = "amm".to_string();
    let mut c = small_pool();
    let plan = c.deposit_b_by_owner(&"owner".to_string(), 25).unwrap();
    assert_eq!(plan.debit_token_id, "token_b");
    assert_eq!(plan.debit_amount, 25);
    assert_eq!(plan.a_ticker_after, 100);
    assert_eq!(plan.b_ticker_after, 125);
    c.callback_update_tickers(&me, &me, plan.a_ticker_after, plan.b_ticker_after, true)
        .unwrap();
    assert_eq!(c.a_ticker, 100);
    assert_eq!(c.b_ticker, 125);
    assert_eq!(c.get_ratio(), 12500);
}

#[test]
fn owner_deposit_unauthorized() {
    let c = small_pool();
    let r = c.deposit_a_by_owner(&"alice".to_string(), 7);
    assert_eq!(r, Err(AmmError::Unauthorized));
    let r = c.deposit_b_by_owner(&"alice".to_string(), 7);
    assert_eq!(r, Err(AmmError::Unauthorized));
}

#[test]
fn confirmed_debit_releases_credit_step() {
    let me = "amm".to_string();
    let c = small_pool();
    let step = c
        .callback_ft_deposit(&me, &me, 110, 90, "token_b".to_string(), "alice".to_string(), 10, true)
        .unwrap();
    assert_eq!(step.token_id, "token_b");
    assert_eq!(step.receiver_id, "alice");
    assert_eq!(step.amount, 10);
    assert_eq!(step.a_ticker_after, 110);
    assert_eq!(step.b_ticker_after, 90);
}

#[test]
fn failed_debit_aborts_chain() {
    let me = "amm".to_string();
    let c = small_pool();
    let snapshot = c.clone();
    let r = c.callback_ft_deposit(
        &me,
        &me,
        110,
        90,
        "token_b".to_string(),
        "alice".to_string(),
        10,
        false,
    );
    assert_eq!(r, Err(AmmError::ExternalTransferFailed));
    assert_eq!(c, snapshot);
}

#[test]
fn debit_continuation_unauthorized() {
    let c = small_pool();
    let r = c.callback_ft_deposit(
        &"mallory".to_string(),
        &"amm".to_string(),
        110,
        90,
        "token_b".to_string(),
        "mallory".to_string(),
        10,
        true,
    );
    assert_eq!(r, Err(AmmError::Unauthorized));
}

#[test]
fn commit_updates_reserves_and_invariant() {
    let me = "amm".to_string();
    let mut c = small_pool();
    let r = c.callback_update_tickers(&me, &me, 110, 90, true);
    assert_eq!(r, Ok(()));
    assert_eq!(c.a_ticker, 110);
    assert_eq!(c.b_ticker, 90);
    assert_eq!(c.get_ratio(), 9900);
}

#[test]
fn commit_refused_on_failed_transfer() {
    let me = "amm".to_string();
    let mut c = small_pool();
    let snapshot = c.clone();
    let r = c.callback_update_tickers(&me, &me, 110, 90, false);
    assert_eq!(r, Err(AmmError::ExternalTransferFailed));
    assert_eq!(c, snapshot);
}

#[test]
fn commit_unauthorized() {
    let mut c = small_pool();
    let snapshot = c.clone();
    let r = c.callback_update_tickers(&"mallory".to_string(), &"amm".to_string(), 0, 0, true);
    assert_eq!(r, Err(AmmError::Unauthorized));
    assert_eq!(c, snapshot);
}

#[test]
fn full_swap_chain_commits_quoted_reserves() {
    let me = "amm".to_string();
    let mut c = small_pool();
    let plan = c.deposit_a(&"alice".to_string(), 10).unwrap();
    let step = c
        .callback_ft_deposit(
            &me,
            &me,
            plan.a_ticker_after,
            plan.b_ticker_after,
            plan.payout_token_id.clone(),
            plan.payout_receiver_id.clone(),
            plan.payout_amount,
            true,
        )
        .unwrap();
    c.callback_update_tickers(&me, &me, step.a_ticker_after, step.b_ticker_after, true)
        .unwrap();
    assert_eq!(c.a_ticker, 110);
    assert_eq!(c.b_ticker, 90);
    assert_eq!(c.get_ratio(), 9900);
    assert_eq!(step.receiver_id, "alice");
    assert_eq!(step.amount, 10);
}
