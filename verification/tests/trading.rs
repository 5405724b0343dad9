use bonding_curve::{BondingCurve, CompletionRecord, Error, TradeRecord};

fn curve(virtual_sol: u64, virtual_token: u64) -> BondingCurve {
    BondingCurve {
        virtual_token_reserve: virtual_token,
        virtual_sol_reserve: virtual_sol,
        real_token_reserve: 800,
        real_sol_reserve: 7,
        token_total_supply: 1_000,
        is_completed: false,
        is_migrated: false,
        reserved: [1, 2, 3, 4, 5, 6, 7, 8],
    }
}

fn same(a: &BondingCurve, b: &BondingCurve) -> bool {
    a.virtual_token_reserve == b.virtual_token_reserve
        && a.virtual_sol_reserve == b.virtual_sol_reserve
        && a.real_token_reserve == b.real_token_reserve
        && a.real_sol_reserve == b.real_sol_reserve
        && a.token_total_supply == b.token_total_supply
        && a.is_completed == b.is_completed
        && a.is_migrated == b.is_migrated
        && a.reserved == b.reserved
}

#[test]
fn update_reserves_replaces_only_the_virtual_reserves() {
    let mut c = curve(10, 20);
    assert_eq!(c.update_reserves(33, 44), Ok(true));
    assert_eq!(c.virtual_sol_reserve, 33);
    assert_eq!(c.virtual_token_reserve, 44);
    assert_eq!(c.real_token_reserve, 800);
    assert_eq!(c.real_sol_reserve, 7);
    assert_eq!(c.token_total_supply, 1_000);
    assert_eq!(c.reserved, [1, 2, 3, 4, 5, 6, 7, 8]);
}

#[test]
fn get_signer_seeds_are_prefix_mint_and_bump() {
    let mint = [9u8; 32];
    let bump = 254u8;
    let seeds = BondingCurve::get_signer(&mint, &bump);
    assert_eq!(seeds[0], b"bonding_curve");
    assert_eq!(seeds[1], &mint[..]);
    assert_eq!(seeds[2], &[254u8][..]);
}

#[test]
fn curve_account_length() {
    assert_eq!(BondingCurve::LEN, 50);
    assert_eq!(BondingCurve::SEED_PREFIX, "bonding_curve");
}

#[test]
fn amount_after_fee_subtracts_the_fee() {
    let c = curve(100, 200);
    assert_eq!(c.amount_after_fee(1_000, 0, 10), Ok(990));
    assert_eq!(c.amount_after_fee(1_000, 1, 1_000), Ok(0));
}

#[test]
fn amount_after_fee_refuses_a_fee_larger_than_the_input() {
    let c = curve(100, 200);
    assert_eq!(c.amount_after_fee(5, 0, 6), Err(Error::InsufficientFunds));
    // the fee check comes before the reserve check
    let empty = curve(0, 0);
    assert_eq!(empty.amount_after_fee(5, 1, 6), Err(Error::InsufficientFunds));
}

#[test]
fn amount_after_fee_refuses_an_empty_pricing_reserve() {
    assert_eq!(curve(0, 200).amount_after_fee(10, 0, 1), Err(Error::DivisionByZero));
    assert_eq!(curve(100, 0).amount_after_fee(10, 1, 1), Err(Error::DivisionByZero));
    // a buy is priced by the lamport reserve, a sell by the token reserve
    assert_eq!(curve(0, 200).amount_after_fee(10, 1, 1), Ok(9));
    assert_eq!(curve(100, 0).amount_after_fee(10, 0, 1), Ok(9));
    assert_eq!(curve(100, 0).amount_after_fee(10, 7, 1), Err(Error::DivisionByZero));
}

#[test]
fn buy_refuses_too_little_output() {
    let mut c = curve(1_000, 5_000);
    let before = c;
    let r = c.buy(10_000, 100, 51, 50, 1);
    assert_eq!(r.err(), Some(Error::InsufficientAmountOut));
    assert!(same(&c, &before));
}

#[test]
fn buy_moves_the_virtual_reserves() {
    let mut c = curve(1_000, 5_000);
    let plan = c.buy(10_000, 100, 40, 50, 1).unwrap();
    assert_eq!(plan.fee_lamports, 1);
    assert_eq!(plan.curve_lamports, 99);
    assert_eq!(plan.tokens_to_user, 50);
    assert_eq!(plan.fee_lamports + plan.curve_lamports, 100);
    let settled = plan.settlement.unwrap();
    assert_eq!(
        settled.purchase,
        TradeRecord { sol_amount: 100, token_amount: 50, fee_amount: 1, price: 1_099 / 4_950 }
    );
    assert_eq!(settled.completion, None);
    assert_eq!(c.virtual_sol_reserve, 1_099);
    assert_eq!(c.virtual_token_reserve, 4_950);
    assert!(!c.is_completed);
    assert_eq!(c.real_sol_reserve, 7);
    assert_eq!(c.real_token_reserve, 800);
}

#[test]
fn buy_completes_the_curve_at_the_limit() {
    let mut c = curve(9_000, 5_000);
    let plan = c.buy(10_000, 1_010, 0, 1_000, 10).unwrap();
    let settled = plan.settlement.unwrap();
    assert_eq!(settled.purchase.price, 2);
    assert_eq!(
        settled.completion,
        Some(CompletionRecord { final_sol_reserves: 10_000, final_token_reserves: 4_000 })
    );
    assert!(c.is_completed);
}

#[test]
fn buy_below_the_limit_keeps_a_completed_curve_completed() {
    let mut c = curve(10, 5_000);
    c.is_completed = true;
    let plan = c.buy(10_000, 10, 0, 1, 0).unwrap();
    assert_eq!(plan.settlement.unwrap().completion, None);
    assert!(c.is_completed);
}

#[test]
fn buy_refuses_more_tokens_than_the_reserve_after_the_transfers() {
    let mut c = curve(1_000, 50);
    let before = c;
    let plan = c.buy(10_000, 100, 0, 51, 1).unwrap();
    assert_eq!(plan.tokens_to_user, 51);
    assert_eq!(plan.settlement, Err(Error::InvalidReserves));
    assert!(same(&c, &before));
}

#[test]
fn buy_refuses_a_lamport_reserve_overflow() {
    let mut c = curve(u64::MAX - 5, 50);
    let before = c;
    let plan = c.buy(10, 10, 0, 1, 3).unwrap();
    assert_eq!(plan.curve_lamports, 7);
    assert_eq!(plan.settlement, Err(Error::InvalidReserves));
    assert!(same(&c, &before));
}

#[test]
fn two_buys_add_up() {
    let mut c = curve(1_000, 5_000);
    c.buy(u64::MAX, 100, 0, 30, 10).unwrap().settlement.unwrap();
    c.buy(u64::MAX, 50, 0, 20, 5).unwrap().settlement.unwrap();
    assert_eq!(c.virtual_token_reserve, 5_000 - 30 - 20);
    assert_eq!(c.virtual_sol_reserve, 1_000 + 90 + 45);
}

#[test]
fn sell_refuses_too_little_output() {
    let mut c = curve(1_000, 5_000);
    let r = c.Sell(100, 20, 19, 1);
    assert_eq!(r.err(), Some(Error::InsufficientAmountOut));
}

#[test]
fn sell_pays_the_seller_and_the_fee_but_leaves_the_curve() {
    let mut c = curve(1_000, 5_000);
    let before = c;
    let plan = c.Sell(100, 10, 30, 3).unwrap();
    assert_eq!(plan.tokens_from_user, 100);
    assert_eq!(plan.lamports_to_user, 27);
    assert_eq!(plan.fee_lamports, 3);
    assert_eq!(plan.lamports_to_user + plan.fee_lamports, 30);
    assert_eq!(
        plan.settlement,
        Ok(TradeRecord { sol_amount: 100, token_amount: 30, fee_amount: 3, price: 970 / 5_100 })
    );
    assert!(same(&c, &before));
}

#[test]
fn sell_refuses_more_lamports_than_the_reserve() {
    let mut c = curve(20, 5_000);
    let before = c;
    let plan = c.Sell(100, 0, 21, 1).unwrap();
    assert_eq!(plan.lamports_to_user, 20);
    assert_eq!(plan.settlement, Err(Error::InvalidReserves));
    assert!(same(&c, &before));
}

#[test]
fn sell_refuses_a_token_reserve_overflow() {
    let mut c = curve(20, u64::MAX);
    let plan = c.Sell(1, 0, 2, 1).unwrap();
    assert_eq!(plan.settlement, Err(Error::InvalidReserves));
}

#[test]
fn sell_price_is_the_reserve_ratio_rounded_down() {
    let mut c = curve(10_000, 100);
    let plan = c.Sell(100, 0, 1_000, 0).unwrap();
    assert_eq!(plan.settlement.unwrap().price, 9_000 / 200);
}
