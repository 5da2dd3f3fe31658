//! The sale's data model: the phase table, the persistent sale record,
//! the payment-method choice, and the error taxonomy.

use vstd::prelude::*;

verus! {

/// One pricing tier of the sale: a price per sale-token unit, in the
/// smallest unit of account, and the tier's nominal allocation.  The
/// allocation is never enforced as a cap by the purchase logic.
#[derive(Clone, Copy, Debug, PartialEq, Eq, Structural)]
pub struct Phase {
    pub price_per_token: u64,
    pub token_amount: u64,
}

/// The payment asset a buyer chooses: the host ledger's native currency,
/// or one of the two supported stable tokens.  The choice is a closed
/// enumeration and every purchase handles it exhaustively.
#[derive(Clone, Copy, Debug, PartialEq, Eq, Structural)]
pub enum PaymentMethod {
    SOL,
    USDT,
    USDC,
}

/// The terminal errors a sale operation can report.  `InvalidMint` is part
/// of the taxonomy surfaced to callers but is not raised by the purchase
/// logic itself.
#[derive(Clone, Copy, Debug, PartialEq, Eq, Structural)]
pub enum ErrorCode {
    InvalidPhaseIndex,
    ArithmeticOverflow,
    InsufficientFunds,
    UnsupportedPaymentMethod,
    InvalidMint,
}

/// The persistent sale record: the immutable table of exactly ten phases,
/// the pointer to the phase purchases are priced against, and the running
/// count of sale tokens sold.
#[derive(Clone, Copy, Debug, PartialEq, Eq)]
pub struct PresaleAccount {
    pub phases: [Phase; 10],
    pub current_phase: u8,
    pub total_tokens_sold: u64,
}

impl PresaleAccount {
    /// The phase pointer addresses one of the ten phases; a purchase
    /// against a record that violates this fails outright, it is never
    /// silently clamped.
    pub open spec fn phase_index_ok(self) -> bool {
        (self.current_phase as int) < self.phases@.len()
    }

    /// The price per sale-token unit in the phase the pointer addresses.
    pub open spec fn current_price(self) -> u64
        recommends
            self.phase_index_ok(),
    {
        self.phases@[self.current_phase as int].price_per_token
    }
}

/// Creates the sale record from the given phase table: the phase pointer
/// starts at the first phase and nothing has been sold yet.
pub fn initialize(presale_account: &mut PresaleAccount, phases: [Phase; 10])
    ensures
        final(presale_account).phases == phases,
        final(presale_account).current_phase == 0,
        final(presale_account).total_tokens_sold == 0,
{
    presale_account.phases = phases;
    presale_account.current_phase = 0;
    presale_account.total_tokens_sold = 0;
}

} // verus!
