use fund::error::FundError;
use fund::limits::{check_assets_limit_usd, check_assets_update_time};
use fund::math::{get_fund_token_to_mint_amount, get_share_value_usd, split_amount, split_balance};
use fund::oracle::{check_price, get_asset_value_tokens, get_asset_value_usd, OraclePrice};
use fund::state::{FundInfo, FEE_SCALE};

fn oracle(price: i64, conf: u64, expo: i32, valid_slot: u64) -> Option<OraclePrice> {
    Some(OraclePrice { price, conf, expo, valid_slot, trading: true })
}

#[test]
fn fee_split_is_exact() {
    assert_eq!(split_amount(100, FEE_SCALE / 10), (90, 10));
    assert_eq!(split_amount(100, 0), (100, 0));
    assert_eq!(split_amount(100, FEE_SCALE), (0, 100));
    // half a unit of fee rounds up
    assert_eq!(split_amount(100, 5_000), (99, 1));
    // below half rounds down
    assert_eq!(split_amount(100, 4_000), (100, 0));
    let (net, fee) = split_amount(u64::MAX, 123_456);
    assert_eq!(net as u128 + fee as u128, u64::MAX as u128);
}

#[test]
fn whole_balance_split_covers_fee() {
    assert_eq!(split_balance(110, FEE_SCALE / 10), (100, 10));
    assert_eq!(split_balance(77, 0), (77, 0));
    assert_eq!(split_balance(0, 5), (0, 0));
}

#[test]
fn first_deposit_mints_one_to_one() {
    assert_eq!(get_fund_token_to_mint_amount(0, 100, 12_345, 0, 0), Ok(100));
    assert_eq!(get_fund_token_to_mint_amount(999_999, 100, 1, -3, 0), Ok(100));
}

#[test]
fn later_deposits_mint_in_proportion() {
    assert_eq!(get_fund_token_to_mint_amount(100_000_000, 50, 50_000_000, 0, 100), Ok(50));
    assert_eq!(get_fund_token_to_mint_amount(300, 1, 100, 0, 10), Ok(3));
    assert_eq!(get_fund_token_to_mint_amount(300, 1, 1, 0, 10), Ok(0));
    // value 5e9 * 10^-2, against assets of 1e8 and supply 100
    assert_eq!(get_fund_token_to_mint_amount(100_000_000, 50, 5_000_000_000, -2, 100), Ok(50));
    // positive exponent: 3 * 10^2 against 300 with supply 7
    assert_eq!(get_fund_token_to_mint_amount(300, 1, 3, 2, 7), Ok(7));
}

#[test]
fn mint_uses_the_unrounded_value() {
    // 100 tokens at 123457e-8 valued the fund at 123457 millionths; 50 more at the
    // same price are worth 61728.5, and mint exactly 50
    assert_eq!(get_fund_token_to_mint_amount(123_457, 50, 50 * 123_457, -2, 100), Ok(50));
}

#[test]
fn mint_with_a_large_negative_exponent() {
    let raw: u128 = 1 << 126;
    let supply: u64 = 1 << 63;
    assert_eq!(get_fund_token_to_mint_amount(1_000_000, 1, raw, -40, supply), Ok(78_463_771_692));
    assert_eq!(get_fund_token_to_mint_amount(1_000_000, 1, raw, -30, supply), Err(FundError::ArithmeticOverflow));
}

#[test]
fn minting_against_unusable_assets_fails() {
    assert_eq!(get_fund_token_to_mint_amount(100, 10, 10, 0, 5), Err(FundError::Custom(222)));
    assert_eq!(get_fund_token_to_mint_amount(101, u64::MAX, u64::MAX as u128, 0, u64::MAX), Err(FundError::ArithmeticOverflow));
    assert_eq!(get_fund_token_to_mint_amount(101, 1, u128::MAX, 5, 1), Err(FundError::ArithmeticOverflow));
}

#[test]
fn share_value_of_fund_tokens() {
    assert_eq!(get_share_value_usd(150_000_000, 50, 150), 50_000_000);
    assert_eq!(get_share_value_usd(10, 1, 3), 3);
}

#[test]
fn asset_value_in_micro_usd() {
    // 100 whole units of a 0-decimal token at $1.00 (1e8 * 10^-8)
    assert_eq!(get_asset_value_usd(100, 0, 0, 60, &oracle(100_000_000, 0, -8, 10), 10), Ok(100_000_000));
    // 1.5 units of a 6-decimal token at $2.00
    assert_eq!(get_asset_value_usd(1_500_000, 6, 0, 60, &oracle(200, 0, -2, 10), 10), Ok(3_000_000));
    // positive exponent
    assert_eq!(get_asset_value_usd(3, 0, 0, 60, &oracle(2, 0, 1, 10), 10), Ok(60_000_000));
    assert_eq!(get_asset_value_usd(0, 0, 0, 60, &oracle(100_000_000, 0, -8, 10), 10), Ok(0));
    assert_eq!(get_asset_value_usd(0, 0, 0, 0, &None, 0), Err(FundError::Custom(300)));
}

#[test]
fn asset_value_overflow_is_an_error() {
    assert_eq!(get_asset_value_usd(u64::MAX, 0, 0, 60, &oracle(i64::MAX, 0, 0, 10), 10), Err(FundError::ArithmeticOverflow));
}

#[test]
fn tokens_for_a_usd_value() {
    assert_eq!(get_asset_value_tokens(100_000_000, 0, 0, 60, &oracle(100_000_000, 0, -8, 10), 10), Ok(100));
    assert_eq!(get_asset_value_tokens(3_000_000, 6, 0, 60, &oracle(200, 0, -2, 10), 10), Ok(1_500_000));
    assert_eq!(get_asset_value_tokens(0, 6, 0, 60, &oracle(200, 0, -2, 10), 10), Ok(0));
    assert_eq!(get_asset_value_tokens(0, 6, 0, 60, &None, 10), Err(FundError::Custom(300)));
}

#[test]
fn oracle_errors() {
    assert_eq!(get_asset_value_usd(1, 0, 0, 60, &None, 10), Err(FundError::Custom(300)));
    let not_trading = Some(OraclePrice { price: 1, conf: 0, expo: 0, valid_slot: 10, trading: false });
    assert_eq!(get_asset_value_usd(1, 0, 0, 60, &not_trading, 10), Err(FundError::Custom(301)));
    // 200 slots of 400 ms = 80 s > 60 s
    assert_eq!(get_asset_value_usd(1, 0, 0, 60, &oracle(1, 0, 0, 10), 210), Err(FundError::Custom(302)));
    // 150 slots = 60 s is still fresh
    assert!(get_asset_value_usd(1, 0, 0, 60, &oracle(1, 0, 0, 10), 160).is_ok());
    assert_eq!(get_asset_value_usd(1, 0, 0, 60, &oracle(0, 0, 0, 10), 10), Err(FundError::Custom(303)));
    assert_eq!(get_asset_value_usd(1, 0, 0, 60, &oracle(-5, 0, 0, 10), 10), Err(FundError::Custom(303)));
    // confidence 2% of price against a 1% bound
    assert_eq!(get_asset_value_usd(1, 0, 10_000, 60, &oracle(100, 2, 0, 10), 10), Err(FundError::Custom(303)));
    assert!(get_asset_value_usd(1, 0, 20_000, 60, &oracle(100, 2, 0, 10), 10).is_ok());
    assert_eq!(check_price(&oracle(1, 0, 0, 20), 0, 60, 10), Err(FundError::ArithmeticOverflow));
}

#[test]
fn stale_price_fails_every_valuation() {
    let stale = oracle(100_000_000, 0, -8, 0);
    assert_eq!(get_asset_value_usd(5, 0, 0, 10, &stale, 1_000), Err(FundError::Custom(302)));
    assert_eq!(get_asset_value_tokens(5, 0, 0, 10, &stale, 1_000), Err(FundError::Custom(302)));
    assert_eq!(get_asset_value_usd(0, 0, 0, 10, &stale, 1_000), Err(FundError::Custom(302)));
    assert_eq!(get_asset_value_tokens(0, 0, 0, 10, &stale, 1_000), Err(FundError::Custom(302)));
}

#[test]
fn assets_update_age() {
    assert_eq!(check_assets_update_time(100, 50, 150), Ok(()));
    assert_eq!(check_assets_update_time(100, 50, 151), Err(FundError::Custom(222)));
    assert_eq!(check_assets_update_time(i64::MIN, 50, i64::MAX), Err(FundError::ArithmeticOverflow));
}

#[test]
fn assets_limit() {
    let mut info = FundInfo::new();
    info.current_assets_usd = 900;
    assert_eq!(check_assets_limit_usd(&info, 1_000_000), Ok(()));
    info.assets_config.assets_limit_usd = 1_000;
    assert_eq!(check_assets_limit_usd(&info, 100), Ok(()));
    assert_eq!(check_assets_limit_usd(&info, 101), Err(FundError::Custom(223)));
}
