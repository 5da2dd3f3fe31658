//! The purchase decision: phase validation, overflow-checked cost
//! computation, payment-method dispatch, and the bookkeeping update.
//!
//! `plan_purchase` turns a purchase request and the one balance the core
//! reads for itself — the payer's native balance — into the transfer the
//! gateway must perform, or into the error that rejects the request.
//! `record_purchase` is the bookkeeping step that runs after the gateway
//! has moved the funds.

use vstd::prelude::*;

use crate::arith;
use crate::state::ErrorCode;
use crate::state::PaymentMethod;
use crate::state::PresaleAccount;

verus! {

/// Which of the two supported stable tokens pays for a purchase.
#[derive(Clone, Copy, Debug, PartialEq, Eq, Structural)]
pub enum StableSource {
    Usdt,
    Usdc,
}

/// The inbound transfer the gateway must perform to collect payment:
/// either a native-currency balance move of the full cost, or a
/// stable-token transfer from the selected payer account.
#[derive(Clone, Copy, Debug, PartialEq, Eq, Structural)]
pub enum PaymentPlan {
    Native { total_cost: u64 },
    Stable { source: StableSource, transfer_amount: u64 },
}

/// The mathematical cost of the request: the requested amount times the
/// current phase's price, before any overflow check.
pub open spec fn spec_total_cost(presale: PresaleAccount, amount: u64) -> int
    recommends
        presale.phase_index_ok(),
{
    amount * presale.current_price()
}

/// The cost of the request fits the 64-bit unit of account.
pub open spec fn cost_fits(presale: PresaleAccount, amount: u64) -> bool
    recommends
        presale.phase_index_ok(),
{
    spec_total_cost(presale, amount) <= u64::MAX
}

/// The chosen payment path accepts the request: a native payment needs the
/// payer's balance to cover the cost, a stable-token payment needs a
/// positive price for its division step.
pub open spec fn payment_accepted(
    presale: PresaleAccount,
    payer_lamports: u64,
    amount: u64,
    payment_method: PaymentMethod,
) -> bool
    recommends
        presale.phase_index_ok(),
{
    match payment_method {
        PaymentMethod::SOL => payer_lamports >= spec_total_cost(presale, amount),
        PaymentMethod::USDT => presale.current_price() != 0,
        PaymentMethod::USDC => presale.current_price() != 0,
    }
}

/// Every check of the purchase passes: the phase pointer is in range, the
/// cost fits, and the chosen payment path accepts the request.
pub open spec fn purchase_goes_through(
    presale: PresaleAccount,
    payer_lamports: u64,
    amount: u64,
    payment_method: PaymentMethod,
) -> bool {
    &&& presale.phase_index_ok()
    &&& cost_fits(presale, amount)
    &&& payment_accepted(presale, payer_lamports, amount, payment_method)
}

/// The plan produced for an accepted request.  A stable-token payment
/// moves exactly the requested amount: the planned transfer amount is the
/// cost divided back by the price, which cancels the multiplication.
pub open spec fn spec_plan(
    presale: PresaleAccount,
    amount: u64,
    payment_method: PaymentMethod,
) -> PaymentPlan
    recommends
        presale.phase_index_ok(),
        cost_fits(presale, amount),
{
    match payment_method {
        PaymentMethod::SOL => PaymentPlan::Native {
            total_cost: spec_total_cost(presale, amount) as u64,
        },
        PaymentMethod::USDT => PaymentPlan::Stable {
            source: StableSource::Usdt,
            transfer_amount: amount,
        },
        PaymentMethod::USDC => PaymentPlan::Stable {
            source: StableSource::Usdc,
            transfer_amount: amount,
        },
    }
}

/// Dividing the exact total cost back by a positive price returns the
/// requested amount: the division-derived transfer amount of a
/// stable-token payment reduces algebraically to the amount itself.
pub proof fn lemma_transfer_amount_reduces(amount: u64, price: u64)
    by (nonlinear_arith)
    requires
        price > 0,
    ensures
        (amount * price) / (price as int) == amount as int,
{
}

/// The payment dispatcher's stable-token selection: which payer-side
/// token account serves the chosen method.  The native variant names no
/// stable token, so it is refused; the purchase logic never routes it
/// here.
pub fn select_stable_source(payment_method: PaymentMethod) -> (r: Result<StableSource, ErrorCode>)
    ensures
        payment_method is USDT ==> r == Ok::<StableSource, ErrorCode>(StableSource::Usdt),
        payment_method is USDC ==> r == Ok::<StableSource, ErrorCode>(StableSource::Usdc),
        payment_method is SOL ==> r == Err::<StableSource, ErrorCode>(
            ErrorCode::UnsupportedPaymentMethod,
        ),
{
    match payment_method {
        PaymentMethod::USDT => Ok(StableSource::Usdt),
        PaymentMethod::USDC => Ok(StableSource::Usdc),
        PaymentMethod::SOL => Err(ErrorCode::UnsupportedPaymentMethod),
    }
}

/// Validates the request against the sale record and plans the inbound
/// payment transfer.  The record itself is not touched: the gateway
/// performs the planned transfer, and `record_purchase` updates the
/// bookkeeping afterwards.
pub fn plan_purchase(
    presale: &PresaleAccount,
    payer_lamports: u64,
    amount: u64,
    payment_method: PaymentMethod,
) -> (r: Result<PaymentPlan, ErrorCode>)
    ensures
        !presale.phase_index_ok() ==> r == Err::<PaymentPlan, ErrorCode>(
            ErrorCode::InvalidPhaseIndex,
        ),
        presale.phase_index_ok() && !cost_fits(*presale, amount) ==> r == Err::<
            PaymentPlan,
            ErrorCode,
        >(ErrorCode::ArithmeticOverflow),
        presale.phase_index_ok() && cost_fits(*presale, amount) && payment_method is SOL
            && payer_lamports < spec_total_cost(*presale, amount) ==> r == Err::<
            PaymentPlan,
            ErrorCode,
        >(ErrorCode::InsufficientFunds),
        presale.phase_index_ok() && cost_fits(*presale, amount) && !(payment_method is SOL)
            && presale.current_price() == 0 ==> r == Err::<PaymentPlan, ErrorCode>(
            ErrorCode::ArithmeticOverflow,
        ),
        purchase_goes_through(*presale, payer_lamports, amount, payment_method) ==> r == Ok::<
            PaymentPlan,
            ErrorCode,
        >(spec_plan(*presale, amount, payment_method)),
        r is Ok <==> purchase_goes_through(*presale, payer_lamports, amount, payment_method),
        r != Err::<PaymentPlan, ErrorCode>(ErrorCode::UnsupportedPaymentMethod),
        r != Err::<PaymentPlan, ErrorCode>(ErrorCode::InvalidMint),
{
    let current_phase_index = presale.current_phase as usize;
    if current_phase_index >= 10 {
        return Err(ErrorCode::InvalidPhaseIndex);
    }
    let price_per_token = presale.phases[current_phase_index].price_per_token;
    let total_cost = match arith::checked_mul(amount, price_per_token) {
        Some(c) => c,
        None => { return Err(ErrorCode::ArithmeticOverflow) },
    };
    match payment_method {
        PaymentMethod::SOL => {
            if payer_lamports < total_cost {
                Err(ErrorCode::InsufficientFunds)
            } else {
                Ok(PaymentPlan::Native { total_cost })
            }
        },
        PaymentMethod::USDT | PaymentMethod::USDC => {
            let transfer_amount = match arith::checked_div(total_cost, price_per_token) {
                Some(t) => t,
                None => { return Err(ErrorCode::ArithmeticOverflow) },
            };
            proof {
                lemma_transfer_amount_reduces(amount, price_per_token);
            }
            let source = match select_stable_source(payment_method) {
                Ok(s) => s,
                Err(e) => { return Err(e) },
            };
            Ok(PaymentPlan::Stable { source, transfer_amount })
        },
    }
}

/// The bookkeeping step of a purchase: adds the amount just sold to the
/// running count, and fails without touching the record when the count
/// would leave the 64-bit domain.  The count never decreases.
pub fn record_purchase(presale_account: &mut PresaleAccount, amount: u64) -> (r: Result<
    (),
    ErrorCode,
>)
    ensures
        final(presale_account).phases == old(presale_account).phases,
        final(presale_account).current_phase == old(presale_account).current_phase,
        old(presale_account).total_tokens_sold + amount <= u64::MAX ==> r == Ok::<(), ErrorCode>(())
            && final(presale_account).total_tokens_sold == old(presale_account).total_tokens_sold
            + amount,
        old(presale_account).total_tokens_sold + amount > u64::MAX ==> r == Err::<(), ErrorCode>(
            ErrorCode::ArithmeticOverflow,
        ) && *final(presale_account) == *old(presale_account),
        r is Ok <==> old(presale_account).total_tokens_sold + amount <= u64::MAX,
        final(presale_account).total_tokens_sold >= old(presale_account).total_tokens_sold,
{
    match arith::checked_add(presale_account.total_tokens_sold, amount) {
        Some(t) => {
            presale_account.total_tokens_sold = t;
            Ok(())
        },
        None => Err(ErrorCode::ArithmeticOverflow),
    }
}

} // verus!
