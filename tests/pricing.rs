use vision_amm::error::VisionError;
use vision_amm::pricing::{
    adjusted_in, check_reserve, effective_supply, pool_fee, provider_fee, quote_buy, quote_sell, usable_reserve,
};
use vision_amm::state::BuyAmt;

#[test]
fn fees_of_a_purchase() {
    assert_eq!(pool_fee(100, 2500), 2);
    assert_eq!(provider_fee(100), 1);
    assert_eq!(adjusted_in(100, 2500), 96);
    assert_eq!(pool_fee(1_000_000, 50000), 500_000);
    assert_eq!(adjusted_in(1_000_000, 50000), 490_000);
    assert_eq!(pool_fee(u64::MAX, 65535), ((u64::MAX as u128) * 65535 / 100000) as u64);
}

#[test]
fn buy_split_never_exceeds_payment() {
    let amt = quote_buy(99, 1000, 5);
    assert_eq!(amt, BuyAmt { adjusted_amount_in: 97, token_amt: 5, fee_page: 0, fee_provider: 0 });
    let amt = quote_buy(100, 1000, 5);
    assert_eq!(amt, BuyAmt { adjusted_amount_in: 98, token_amt: 5, fee_page: 1, fee_provider: 1 });
    for a in [0u64, 1, 99, 100, 12345, u64::MAX] {
        let amt = quote_buy(a, 2500, 0);
        assert!(amt.adjusted_amount_in + amt.fee_page + amt.fee_provider <= a as u128);
    }
}

#[test]
fn adjusted_in_grows_with_payment() {
    let mut last = 0;
    for a in 0u64..2000 {
        let v = adjusted_in(a, 1000);
        assert!(v >= last);
        last = v;
    }
}

#[test]
fn supply_and_reserve_bounds() {
    assert_eq!(effective_supply(0), Ok(1_000_000_000));
    assert_eq!(effective_supply(u64::MAX - 1_000_000_000), Ok(u64::MAX));
    assert_eq!(effective_supply(u64::MAX - 999_999_999), Err(VisionError::Overflow));
    assert_eq!(usable_reserve(890_916, 890_880), Ok(36));
    assert_eq!(usable_reserve(10, 11), Err(VisionError::Overflow));
}

#[test]
fn sale_split() {
    assert_eq!(quote_sell(250), (2, 247));
    assert_eq!(quote_sell(99), (0, 98));
    assert_eq!(quote_sell(200), (2, 198));
    assert_eq!(quote_sell(u64::MAX).1, ((u64::MAX as u128) * 99 / 100) as u64);
}

#[test]
fn sell_reserve_guard() {
    assert_eq!(check_reserve(40, 10), Some(VisionError::ReserveError));
    assert_eq!(check_reserve(40, 5), Some(VisionError::ReserveError));
    assert_eq!(check_reserve(40, 4), None);
    assert_eq!(check_reserve(35, 0), Some(VisionError::Overflow));
}
