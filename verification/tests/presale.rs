use gineos_presale::arith::{checked_add, checked_div, checked_mul};
use gineos_presale::ledger::{buy_tokens, BuyTokens};
use gineos_presale::purchase::{
    plan_purchase, record_purchase, select_stable_source, PaymentPlan, StableSource,
};
use gineos_presale::state::{initialize, ErrorCode, PaymentMethod, Phase, PresaleAccount};

fn phases_with_price(price: u64) -> [Phase; 10] {
    [Phase { price_per_token: price, token_amount: 1000 }; 10]
}

fn sale_state(price: u64, current_phase: u8, total_tokens_sold: u64) -> PresaleAccount {
    PresaleAccount { phases: phases_with_price(price), current_phase, total_tokens_sold }
}

fn accounts_for(presale_account: PresaleAccount, payer_lamports: u64) -> BuyTokens {
    BuyTokens {
        presale_account,
        payer_lamports,
        presale_lamports: 0,
        usdt_account: 1_000,
        presale_usdt: 0,
        usdc_account: 1_000,
        presale_usdc: 0,
        token_account: 1_000_000,
        payer_sale_tokens: 0,
    }
}

#[test]
fn initialize_sets_the_record() {
    let mut record = sale_state(1, 7, 99);
    let phases = phases_with_price(250);
    initialize(&mut record, phases);
    assert_eq!(record.phases, phases);
    assert_eq!(record.current_phase, 0);
    assert_eq!(record.total_tokens_sold, 0);
}

#[test]
fn native_purchase_moves_cost_and_tokens() {
    let mut acc = accounts_for(sale_state(100, 0, 0), 1_000);
    let r = buy_tokens(&mut acc, 5, PaymentMethod::SOL);
    assert_eq!(r, Ok(()));
    assert_eq!(acc.payer_lamports, 500);
    assert_eq!(acc.presale_lamports, 500);
    assert_eq!(acc.token_account, 1_000_000 - 5);
    assert_eq!(acc.payer_sale_tokens, 5);
    assert_eq!(acc.presale_account.total_tokens_sold, 5);
    assert_eq!(acc.usdt_account, 1_000);
    assert_eq!(acc.usdc_account, 1_000);
}

#[test]
fn overflowing_cost_is_rejected_without_effects() {
    let mut acc = accounts_for(sale_state(100, 0, 0), 1_000);
    let before = acc;
    let r = buy_tokens(&mut acc, u64::MAX, PaymentMethod::SOL);
    assert_eq!(r, Err(ErrorCode::ArithmeticOverflow));
    assert_eq!(acc, before);
}

#[test]
fn out_of_range_phase_index_is_rejected_without_effects() {
    let mut acc = accounts_for(sale_state(100, 10, 0), 1_000);
    let before = acc;
    let r = buy_tokens(&mut acc, 5, PaymentMethod::SOL);
    assert_eq!(r, Err(ErrorCode::InvalidPhaseIndex));
    assert_eq!(acc, before);

    let mut acc = accounts_for(sale_state(100, 10, 0), 1_000);
    let r = buy_tokens(&mut acc, u64::MAX, PaymentMethod::USDC);
    assert_eq!(r, Err(ErrorCode::InvalidPhaseIndex));

    let mut acc = accounts_for(sale_state(100, 255, 0), 1_000);
    let r = buy_tokens(&mut acc, 1, PaymentMethod::USDT);
    assert_eq!(r, Err(ErrorCode::InvalidPhaseIndex));
}

#[test]
fn native_purchase_needs_the_full_cost() {
    let mut acc = accounts_for(sale_state(100, 0, 0), 499);
    let before = acc;
    let r = buy_tokens(&mut acc, 5, PaymentMethod::SOL);
    assert_eq!(r, Err(ErrorCode::InsufficientFunds));
    assert_eq!(acc, before);

    let mut acc = accounts_for(sale_state(100, 0, 0), 500);
    let r = buy_tokens(&mut acc, 5, PaymentMethod::SOL);
    assert_eq!(r, Ok(()));
    assert_eq!(acc.payer_lamports, 0);
    assert_eq!(acc.presale_lamports, 500);
}

#[test]
fn usdt_purchase_moves_exactly_the_amount() {
    let mut acc = accounts_for(sale_state(3, 2, 9), 0);
    let r = buy_tokens(&mut acc, 6, PaymentMethod::USDT);
    assert_eq!(r, Ok(()));
    assert_eq!(acc.usdt_account, 1_000 - 6);
    assert_eq!(acc.presale_usdt, 6);
    assert_eq!(acc.usdc_account, 1_000);
    assert_eq!(acc.presale_usdc, 0);
    assert_eq!(acc.payer_lamports, 0);
    assert_eq!(acc.presale_lamports, 0);
    assert_eq!(acc.token_account, 1_000_000 - 6);
    assert_eq!(acc.payer_sale_tokens, 6);
    assert_eq!(acc.presale_account.total_tokens_sold, 15);
}

#[test]
fn usdc_purchase_moves_exactly_the_amount() {
    let mut acc = accounts_for(sale_state(7, 9, 0), 0);
    let r = buy_tokens(&mut acc, 11, PaymentMethod::USDC);
    assert_eq!(r, Ok(()));
    assert_eq!(acc.usdc_account, 1_000 - 11);
    assert_eq!(acc.presale_usdc, 11);
    assert_eq!(acc.usdt_account, 1_000);
    assert_eq!(acc.presale_usdt, 0);
    assert_eq!(acc.presale_account.total_tokens_sold, 11);
}

#[test]
fn zero_price_rejects_a_stable_token_payment() {
    let mut acc = accounts_for(sale_state(0, 0, 0), 1_000);
    let before = acc;
    let r = buy_tokens(&mut acc, 5, PaymentMethod::USDT);
    assert_eq!(r, Err(ErrorCode::ArithmeticOverflow));
    assert_eq!(acc, before);
}

#[test]
fn zero_price_native_purchase_costs_nothing() {
    let mut acc = accounts_for(sale_state(0, 0, 0), 0);
    let r = buy_tokens(&mut acc, 5, PaymentMethod::SOL);
    assert_eq!(r, Ok(()));
    assert_eq!(acc.payer_lamports, 0);
    assert_eq!(acc.presale_lamports, 0);
    assert_eq!(acc.token_account, 1_000_000 - 5);
    assert_eq!(acc.presale_account.total_tokens_sold, 5);
}

#[test]
fn sold_counter_overflow_comes_after_the_transfers() {
    let mut acc = accounts_for(sale_state(100, 0, u64::MAX), 1_000);
    let r = buy_tokens(&mut acc, 5, PaymentMethod::SOL);
    assert_eq!(r, Err(ErrorCode::ArithmeticOverflow));
    assert_eq!(acc.payer_lamports, 500);
    assert_eq!(acc.presale_lamports, 500);
    assert_eq!(acc.token_account, 1_000_000 - 5);
    assert_eq!(acc.payer_sale_tokens, 5);
    assert_eq!(acc.presale_account.total_tokens_sold, u64::MAX);
}

#[test]
fn last_phase_prices_the_purchase() {
    let mut phases = phases_with_price(100);
    phases[9] = Phase { price_per_token: 2, token_amount: 1 };
    let record = PresaleAccount { phases, current_phase: 9, total_tokens_sold: 0 };
    let mut acc = accounts_for(record, 1_000);
    let r = buy_tokens(&mut acc, 5, PaymentMethod::SOL);
    assert_eq!(r, Ok(()));
    assert_eq!(acc.payer_lamports, 990);
    assert_eq!(acc.presale_lamports, 10);
}

#[test]
fn stable_source_selection_refuses_the_native_variant() {
    assert_eq!(select_stable_source(PaymentMethod::USDT), Ok(StableSource::Usdt));
    assert_eq!(select_stable_source(PaymentMethod::USDC), Ok(StableSource::Usdc));
    assert_eq!(
        select_stable_source(PaymentMethod::SOL),
        Err(ErrorCode::UnsupportedPaymentMethod)
    );
}

#[test]
fn native_plan_holds_the_exact_cost() {
    let record = sale_state(100, 0, 0);
    let r = plan_purchase(&record, 1_000, 5, PaymentMethod::SOL);
    assert_eq!(r, Ok(PaymentPlan::Native { total_cost: 500 }));
}

#[test]
fn stable_plan_transfer_amount_reduces_to_the_amount() {
    let record = sale_state(7, 0, 0);
    let r = plan_purchase(&record, 0, 9, PaymentMethod::USDT);
    assert_eq!(
        r,
        Ok(PaymentPlan::Stable { source: StableSource::Usdt, transfer_amount: 9 })
    );
    let record = sale_state(1, 0, 0);
    let r = plan_purchase(&record, 0, u64::MAX, PaymentMethod::USDC);
    assert_eq!(
        r,
        Ok(PaymentPlan::Stable { source: StableSource::Usdc, transfer_amount: u64::MAX })
    );
}

#[test]
fn bookkeeping_adds_exactly_the_amount() {
    let mut record = sale_state(100, 3, 40);
    assert_eq!(record_purchase(&mut record, 2), Ok(()));
    assert_eq!(record.total_tokens_sold, 42);
    assert_eq!(record.current_phase, 3);

    let mut record = sale_state(100, 0, u64::MAX - 1);
    assert_eq!(record_purchase(&mut record, 2), Err(ErrorCode::ArithmeticOverflow));
    assert_eq!(record.total_tokens_sold, u64::MAX - 1);
}

#[test]
fn checked_arithmetic_is_exact() {
    assert_eq!(checked_mul(6, 7), Some(42));
    assert_eq!(checked_mul(u64::MAX, 2), None);
    assert_eq!(checked_mul(u64::MAX, 1), Some(u64::MAX));
    assert_eq!(checked_add(40, 2), Some(42));
    assert_eq!(checked_add(u64::MAX, 1), None);
    assert_eq!(checked_div(7, 2), Some(3));
    assert_eq!(checked_div(7, 0), None);
}
