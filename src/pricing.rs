//! Integer arithmetic of the bonding curve: fees, the virtual supply, the usable
//! reserve and the reserve guard. The curve's power function itself is evaluated
//! by the caller and handed in as a plain amount.

use vstd::prelude::*;
use crate::error::VisionError;
use crate::state::BuyAmt;

verus! {

/// One token at nine decimals, added to the circulating supply and never issued.
pub const VIRTUAL_SUPPLY: u64 = 1000000000;

/// Denominator of the pool fee.
pub const FEE_SCALE: u64 = 100000;

/// The provider fee is one hundredth of the trade.
pub const PROVIDER_FEE_DIVISOR: u64 = 100;

/// Collateral that a new pool's vault receives and that sales never draw down.
pub const BOOTSTRAP_COLLATERAL: u64 = 36;

/// The pool fee of a payment: `floor(amount * fee / 100000)`.
pub open spec fn spec_pool_fee(amount: u64, fee: u16) -> int {
    ((amount as int) * (fee as int)) / (FEE_SCALE as int)
}

/// The provider fee of an amount: `floor(amount / 100)`.
pub open spec fn spec_provider_fee(amount: u64) -> int {
    (amount as int) / (PROVIDER_FEE_DIVISOR as int)
}

/// What of a payment reaches the vault and enters the curve:
/// `floor(amount * (1 - 0.01 - fee / 100000))`.
pub open spec fn spec_adjusted_in(amount: u64, fee: u16) -> int {
    ((amount as int) * (FEE_SCALE - FEE_SCALE / PROVIDER_FEE_DIVISOR - fee)) / (FEE_SCALE as int)
}

/// The split of a purchase of `amount` at pool fee `fee`, issuing `tokens`.
pub open spec fn spec_buy_amt(amount: u64, fee: u16, tokens: u64) -> BuyAmt {
    BuyAmt {
        adjusted_amount_in: spec_adjusted_in(amount, fee) as u128,
        token_amt: tokens as u128,
        fee_page: spec_pool_fee(amount, fee) as u128,
        fee_provider: spec_provider_fee(amount) as u128,
    }
}

/// The pool fee of a payment.
pub fn pool_fee(amount: u64, fee: u16) -> (r: u64)
    ensures
        r == spec_pool_fee(amount, fee),
        r <= amount,
{
    assert((amount as int) * (fee as int) <= u64::MAX * 65535) by (nonlinear_arith)
        requires
            amount <= u64::MAX,
            fee <= 65535,
    ;
    let product: u128 = (amount as u128) * (fee as u128);
    assert(product <= amount * 65535) by (nonlinear_arith)
        requires
            product == amount * fee,
            fee <= 65535,
    ;
    assert(product / 100000 <= amount) by (nonlinear_arith)
        requires
            product <= amount * 65535,
            amount >= 0,
    ;
    (product / (FEE_SCALE as u128)) as u64
}

/// The provider fee of an amount.
pub fn provider_fee(amount: u64) -> (r: u64)
    ensures
        r == spec_provider_fee(amount),
{
    amount / PROVIDER_FEE_DIVISOR
}

/// What of a payment reaches the vault and enters the curve.
pub fn adjusted_in(amount: u64, fee: u16) -> (r: u64)
    ensures
        r == spec_adjusted_in(amount, fee),
{
    let rate: u64 = FEE_SCALE - FEE_SCALE / PROVIDER_FEE_DIVISOR - fee as u64;
    assert((amount as int) * (rate as int) <= u64::MAX * 99000) by (nonlinear_arith)
        requires
            amount <= u64::MAX,
            rate <= 99000,
    ;
    assert((amount as int) * (rate as int) / 100000 <= amount) by (nonlinear_arith)
        requires
            rate <= 99000,
            amount >= 0,
    ;
    let product: u128 = (amount as u128) * (rate as u128);
    (product / (FEE_SCALE as u128)) as u64
}

/// The two fees and what reaches the vault never exceed the payment.
pub proof fn lemma_buy_split_bounded(amount: u64, fee: u16)
    ensures
        spec_adjusted_in(amount, fee) + spec_pool_fee(amount, fee) + spec_provider_fee(amount) <= amount,
        0 <= spec_adjusted_in(amount, fee),
{
    let a = amount as int;
    let f = fee as int;
    let x = a * (99000 - f);
    let y = a * f;
    let z = a * 1000;
    assert(x + y + z == a * 100000) by (nonlinear_arith)
        requires
            x == a * (99000 - f),
            y == a * f,
            z == a * 1000,
    ;
    assert(a / 100 == z / 100000) by (nonlinear_arith)
        requires
            z == a * 1000,
    ;
    assert(x / 100000 + y / 100000 + z / 100000 <= (x + y + z) / 100000) by (nonlinear_arith)
        requires
            x >= 0,
            y >= 0,
            z >= 0,
    ;
    assert((a * 100000) / 100000 == a) by (nonlinear_arith)
        requires
            a >= 0,
    ;
    assert(x >= 0) by (nonlinear_arith)
        requires
            a >= 0,
            f <= 65535,
            x == a * (99000 - f),
    ;
}

/// What enters the curve never decreases as the payment grows, for a fixed fee.
pub proof fn lemma_adjusted_in_monotonic(a1: u64, a2: u64, fee: u16)
    requires
        a1 <= a2,
    ensures
        spec_adjusted_in(a1, fee) <= spec_adjusted_in(a2, fee),
{
    let r = 99000 - fee as int;
    assert((a1 as int) * r <= (a2 as int) * r) by (nonlinear_arith)
        requires
            a1 <= a2,
            r >= 0,
    ;
    assert(((a1 as int) * r) / 100000 <= ((a2 as int) * r) / 100000) by (nonlinear_arith)
        requires
            (a1 as int) * r <= (a2 as int) * r,
    ;
}

/// Splits a purchase into what reaches the vault and the two fees, and records
/// the tokens the curve gives for it. The three parts never exceed the payment.
pub fn quote_buy(amount: u64, fee: u16, tokens: u64) -> (r: BuyAmt)
    ensures
        r == spec_buy_amt(amount, fee, tokens),
        r.adjusted_amount_in + r.fee_page + r.fee_provider <= amount,
{
    let page = pool_fee(amount, fee);
    let provider = provider_fee(amount);
    let adjusted = adjusted_in(amount, fee);
    proof {
        lemma_buy_split_bounded(amount, fee);
    }
    BuyAmt {
        adjusted_amount_in: adjusted as u128,
        token_amt: tokens as u128,
        fee_page: page as u128,
        fee_provider: provider as u128,
    }
}

/// The circulating supply plus the virtual token; `Overflow` where that sum
/// leaves u64.
pub fn effective_supply(supply: u64) -> (r: Result<u64, VisionError>)
    ensures
        supply + VIRTUAL_SUPPLY <= u64::MAX ==> r == Ok::<u64, VisionError>((supply + VIRTUAL_SUPPLY) as u64),
        supply + VIRTUAL_SUPPLY > u64::MAX ==> r == Err::<u64, VisionError>(VisionError::Overflow),
{
    match supply.checked_add(VIRTUAL_SUPPLY) {
        Some(s) => Ok(s),
        None => Err(VisionError::Overflow),
    }
}

/// The vault balance above the exemption minimum; `Overflow` where the balance
/// is below it.
pub fn usable_reserve(vault_balance: u64, exemption_minimum: u64) -> (r: Result<u64, VisionError>)
    ensures
        vault_balance >= exemption_minimum ==> r == Ok::<u64, VisionError>((vault_balance - exemption_minimum) as u64),
        vault_balance < exemption_minimum ==> r == Err::<u64, VisionError>(VisionError::Overflow),
{
    match vault_balance.checked_sub(exemption_minimum) {
        Some(s) => Ok(s),
        None => Err(VisionError::Overflow),
    }
}

/// What the seller receives of a sale's gross output: `floor(gross_out * 0.99)`.
pub open spec fn spec_sell_net(gross_out: u64) -> int {
    ((gross_out as int) * (PROVIDER_FEE_DIVISOR - 1)) / (PROVIDER_FEE_DIVISOR as int)
}

/// Splits the gross output of a sale into the provider fee and what the seller
/// receives; the two never exceed the gross output.
pub fn quote_sell(gross_out: u64) -> (r: (u64, u64))
    ensures
        r.0 == spec_provider_fee(gross_out),
        r.1 == spec_sell_net(gross_out),
        r.0 + r.1 <= gross_out,
{
    let fee = provider_fee(gross_out);
    let ghost g = gross_out as int;
    assert((g * 99) / 100 + g / 100 <= g) by (nonlinear_arith)
        requires
            g >= 0,
    ;
    let net = ((gross_out as u128) * ((PROVIDER_FEE_DIVISOR - 1) as u128) / (PROVIDER_FEE_DIVISOR as u128)) as u64;
    (fee, net)
}

/// The reserve guard of a sale: `Overflow` where the usable reserve is below
/// the bootstrap collateral, `ReserveError` where the gross output would draw
/// into it.
pub fn check_reserve(reserve: u64, gross_out: u64) -> (r: Option<VisionError>)
    ensures
        reserve < BOOTSTRAP_COLLATERAL ==> r == Some(VisionError::Overflow),
        reserve >= BOOTSTRAP_COLLATERAL && gross_out > reserve - BOOTSTRAP_COLLATERAL ==> r == Some(VisionError::ReserveError),
        reserve >= BOOTSTRAP_COLLATERAL && gross_out <= reserve - BOOTSTRAP_COLLATERAL ==> r is None,
{
    match reserve.checked_sub(BOOTSTRAP_COLLATERAL) {
        None => Some(VisionError::Overflow),
        Some(floor) => if gross_out > floor {
            Some(VisionError::ReserveError)
        } else {
            None
        },
    }
}

} // verus!
