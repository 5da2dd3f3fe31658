//! The ledger model of a purchase: the balances a purchase touches, the
//! gateway's balance move, and the whole purchase transition over them.
//!
//! The host ledger performs the real transfers; here each account the
//! transaction reads or writes is held as a plain 64-bit balance, so the
//! complete transition — validation, payment, the outbound sale-token
//! transfer, and the bookkeeping — is verified end to end.

use vstd::prelude::*;

use crate::purchase::cost_fits;
use crate::purchase::plan_purchase;
use crate::purchase::purchase_goes_through;
use crate::purchase::record_purchase;
use crate::purchase::spec_total_cost;
use crate::purchase::PaymentPlan;
use crate::purchase::StableSource;
use crate::state::ErrorCode;
use crate::state::PaymentMethod;
use crate::state::PresaleAccount;

verus! {

/// The accounts one purchase touches, each reduced to the balance the
/// transaction reads or writes: the sale record, the payer's and the sale
/// account's native balances, the payer's two stable-token balances with
/// the sale side's matching receiving balances, the sale-token reserve,
/// and the payer's sale-token balance.
#[derive(Clone, Copy, Debug, PartialEq, Eq)]
pub struct BuyTokens {
    pub presale_account: PresaleAccount,
    pub payer_lamports: u64,
    pub presale_lamports: u64,
    pub usdt_account: u64,
    pub presale_usdt: u64,
    pub usdc_account: u64,
    pub presale_usdc: u64,
    pub token_account: u64,
    pub payer_sale_tokens: u64,
}

impl BuyTokens {
    /// The host's supply invariant: the two balances of each asset drawn
    /// on by a purchase are backed by one issuance that fits the 64-bit
    /// domain, so a credit of what was just debited cannot wrap.
    pub open spec fn wf(self) -> bool {
        &&& self.payer_lamports + self.presale_lamports <= u64::MAX
        &&& self.usdt_account + self.presale_usdt <= u64::MAX
        &&& self.usdc_account + self.presale_usdc <= u64::MAX
        &&& self.token_account + self.payer_sale_tokens <= u64::MAX
    }
}

/// The gateway steps this purchase will reach are funded: the payer's
/// chosen stable-token balance covers the requested amount, and the sale
/// reserve covers the outbound transfer.  The payer's native balance needs
/// no such assumption — the purchase checks it itself.
pub open spec fn gateway_funded(pre: BuyTokens, amount: u64, payment_method: PaymentMethod) -> bool {
    let goes = purchase_goes_through(pre.presale_account, pre.payer_lamports, amount, payment_method);
    &&& goes ==> pre.token_account >= amount
    &&& goes && payment_method is USDT ==> pre.usdt_account >= amount
    &&& goes && payment_method is USDC ==> pre.usdc_account >= amount
}

/// The balances after the inbound payment alone: a native payment moves
/// the full cost between the native balances, a stable-token payment moves
/// the requested amount between the matching token balances.
pub open spec fn spec_after_payment(
    pre: BuyTokens,
    amount: u64,
    payment_method: PaymentMethod,
) -> BuyTokens
    recommends
        purchase_goes_through(pre.presale_account, pre.payer_lamports, amount, payment_method),
{
    let cost = spec_total_cost(pre.presale_account, amount);
    match payment_method {
        PaymentMethod::SOL => BuyTokens {
            payer_lamports: (pre.payer_lamports - cost) as u64,
            presale_lamports: (pre.presale_lamports + cost) as u64,
            ..pre
        },
        PaymentMethod::USDT => BuyTokens {
            usdt_account: (pre.usdt_account - amount) as u64,
            presale_usdt: (pre.presale_usdt + amount) as u64,
            ..pre
        },
        PaymentMethod::USDC => BuyTokens {
            usdc_account: (pre.usdc_account - amount) as u64,
            presale_usdc: (pre.presale_usdc + amount) as u64,
            ..pre
        },
    }
}

/// The balances after both transfers: the payment above, then the
/// outbound move of the requested amount from the sale-token reserve to
/// the payer.
pub open spec fn spec_after_transfers(
    pre: BuyTokens,
    amount: u64,
    payment_method: PaymentMethod,
) -> BuyTokens {
    let paid = spec_after_payment(pre, amount, payment_method);
    BuyTokens {
        token_account: (paid.token_account - amount) as u64,
        payer_sale_tokens: (paid.payer_sale_tokens + amount) as u64,
        ..paid
    }
}

/// The state after a purchase that went through completely: both transfers
/// applied and the running count of tokens sold raised by the amount.
pub open spec fn spec_after_purchase(
    pre: BuyTokens,
    amount: u64,
    payment_method: PaymentMethod,
) -> BuyTokens {
    let moved = spec_after_transfers(pre, amount, payment_method);
    BuyTokens {
        presale_account: PresaleAccount {
            total_tokens_sold: (moved.presale_account.total_tokens_sold + amount) as u64,
            ..moved.presale_account
        },
        ..moved
    }
}

/// The Ledger Transfer Gateway's balance move over the model: debits the
/// source and credits the destination by the same amount, atomically from
/// the transaction's point of view.
pub fn gateway_transfer(from: &mut u64, to: &mut u64, amount: u64)
    requires
        *old(from) >= amount,
        *old(to) + amount <= u64::MAX,
    ensures
        *final(from) == *old(from) - amount,
        *final(to) == *old(to) + amount,
{
    *from = *from - amount;
    *to = *to + amount;
}

/// The whole purchase transition over the ledger model.
///
/// The request is validated against the sale record; payment is collected
/// along the chosen path; the requested amount of sale token moves from
/// the reserve to the payer, with the sale account as its own transfer
/// authority; and the running count of tokens sold is raised.  Failed
/// validation leaves every balance untouched.  A count that would overflow
/// is detected only after both transfers, exactly as the transaction
/// orders its steps: the transfers stay applied and the count stays put.
pub fn buy_tokens(
    accounts: &mut BuyTokens,
    amount: u64,
    payment_method: PaymentMethod,
) -> (r: Result<(), ErrorCode>)
    requires
        old(accounts).wf(),
        gateway_funded(*old(accounts), amount, payment_method),
    ensures
        final(accounts).presale_account.phases == old(accounts).presale_account.phases,
        final(accounts).presale_account.current_phase == old(accounts).presale_account.current_phase,
        !old(accounts).presale_account.phase_index_ok() ==> r == Err::<(), ErrorCode>(
            ErrorCode::InvalidPhaseIndex,
        ) && *final(accounts) == *old(accounts),
        old(accounts).presale_account.phase_index_ok() && !cost_fits(
            old(accounts).presale_account,
            amount,
        ) ==> r == Err::<(), ErrorCode>(ErrorCode::ArithmeticOverflow) && *final(accounts) == *old(
            accounts,
        ),
        old(accounts).presale_account.phase_index_ok() && cost_fits(
            old(accounts).presale_account,
            amount,
        ) && payment_method is SOL && old(accounts).payer_lamports < spec_total_cost(
            old(accounts).presale_account,
            amount,
        ) ==> r == Err::<(), ErrorCode>(ErrorCode::InsufficientFunds) && *final(accounts) == *old(
            accounts,
        ),
        old(accounts).presale_account.phase_index_ok() && cost_fits(
            old(accounts).presale_account,
            amount,
        ) && !(payment_method is SOL) && old(accounts).presale_account.current_price() == 0 ==> r
            == Err::<(), ErrorCode>(ErrorCode::ArithmeticOverflow) && *final(accounts) == *old(
            accounts,
        ),
        purchase_goes_through(
            old(accounts).presale_account,
            old(accounts).payer_lamports,
            amount,
            payment_method,
        ) ==> {
            &&& old(accounts).presale_account.total_tokens_sold + amount <= u64::MAX ==> r
                == Ok::<(), ErrorCode>(()) && *final(accounts) == spec_after_purchase(
                *old(accounts),
                amount,
                payment_method,
            )
            &&& old(accounts).presale_account.total_tokens_sold + amount > u64::MAX ==> r
                == Err::<(), ErrorCode>(ErrorCode::ArithmeticOverflow) && *final(accounts)
                == spec_after_transfers(*old(accounts), amount, payment_method)
        },
        r is Ok <==> purchase_goes_through(
            old(accounts).presale_account,
            old(accounts).payer_lamports,
            amount,
            payment_method,
        ) && old(accounts).presale_account.total_tokens_sold + amount <= u64::MAX,
        r is Ok ==> final(accounts).presale_account.total_tokens_sold == old(
            accounts,
        ).presale_account.total_tokens_sold + amount && final(accounts).token_account == old(
            accounts,
        ).token_account - amount,
        final(accounts).payer_lamports + final(accounts).presale_lamports == old(
            accounts,
        ).payer_lamports + old(accounts).presale_lamports,
        final(accounts).usdt_account + final(accounts).presale_usdt == old(accounts).usdt_account
            + old(accounts).presale_usdt,
        final(accounts).usdc_account + final(accounts).presale_usdc == old(accounts).usdc_account
            + old(accounts).presale_usdc,
        final(accounts).token_account + final(accounts).payer_sale_tokens == old(
            accounts,
        ).token_account + old(accounts).payer_sale_tokens,
        final(accounts).presale_account.total_tokens_sold >= old(
            accounts,
        ).presale_account.total_tokens_sold,
        r != Err::<(), ErrorCode>(ErrorCode::UnsupportedPaymentMethod),
        r != Err::<(), ErrorCode>(ErrorCode::InvalidMint),
{
    let plan = match plan_purchase(
        &accounts.presale_account,
        accounts.payer_lamports,
        amount,
        payment_method,
    ) {
        Ok(p) => p,
        Err(e) => { return Err(e) },
    };
    match plan {
        PaymentPlan::Native { total_cost } => {
            gateway_transfer(&mut accounts.payer_lamports, &mut accounts.presale_lamports, total_cost);
        },
        PaymentPlan::Stable { source, transfer_amount } => {
            match source {
                StableSource::Usdt => {
                    gateway_transfer(&mut accounts.usdt_account, &mut accounts.presale_usdt, transfer_amount);
                },
                StableSource::Usdc => {
                    gateway_transfer(&mut accounts.usdc_account, &mut accounts.presale_usdc, transfer_amount);
                },
            }
        },
    }
    gateway_transfer(&mut accounts.token_account, &mut accounts.payer_sale_tokens, amount);
    record_purchase(&mut accounts.presale_account, amount)
}

} // verus!
