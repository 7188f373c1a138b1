//! Valuation of token amounts through an oracle price, with its freshness and
//! confidence checks.
use vstd::prelude::*;
use crate::error::{FundError, ERR_ORACLE_BOUNDS, ERR_ORACLE_EMPTY, ERR_ORACLE_STALE, ERR_ORACLE_STATE};
use crate::state::{PRICE_ERROR_SCALE, USD_DECIMALS};

verus! {

/// Milliseconds per slot assumed when turning a slot distance into seconds.
pub const MS_PER_SLOT: u64 = 400;

/// An oracle reading: the aggregate price `price * 10^expo` with its confidence
/// interval, the slot at which it was valid, and whether it is a trading price.
#[derive(Clone, Copy, Debug, PartialEq, Eq, Structural)]
pub struct OraclePrice {
    pub price: i64,
    pub conf: u64,
    pub expo: i32,
    pub valid_slot: u64,
    /// The aggregate status is trading and the account holds a price.
    pub trading: bool,
}

pub open spec fn pow10(n: nat) -> nat
    decreases n,
{
    if n == 0 {
        1
    } else {
        10 * pow10((n - 1) as nat)
    }
}

/// `x * 10^e`, rounded down where `e` is negative.
pub open spec fn scaled(x: int, e: int) -> int {
    if e >= 0 {
        x * pow10(e as nat)
    } else {
        x / (pow10((-e) as nat) as int)
    }
}

/// Value in millionths of a USD of `amount` base units of a token with `decimals`
/// decimals at price `price * 10^expo`, rounded down.
pub open spec fn usd_value(amount: int, price: int, decimals: int, expo: int) -> int {
    scaled(amount * price, USD_DECIMALS + expo - decimals)
}

/// Base units of a token with `decimals` decimals worth `value_usd` millionths of a USD
/// at price `price * 10^expo`, rounded down.
pub open spec fn token_amount(value_usd: int, price: int, decimals: int, expo: int) -> int {
    scaled(value_usd, decimals - expo - USD_DECIMALS) / price
}

/// Age in seconds of a price valid at `valid_slot`, seen at `current_slot`.
pub open spec fn price_age_sec(current_slot: int, valid_slot: int) -> int {
    (current_slot - valid_slot) * MS_PER_SLOT / 1000
}

/// The checks a reading must pass before it is used, in the order they are made.
pub open spec fn price_check(
    oracle: Option<OraclePrice>,
    max_price_error: u64,
    max_price_age_sec: u64,
    current_slot: u64,
) -> Result<(), FundError> {
    match oracle {
        None => Err(FundError::Custom(ERR_ORACLE_EMPTY)),
        Some(p) => if !p.trading {
            Err(FundError::Custom(ERR_ORACLE_STATE))
        } else if current_slot < p.valid_slot || (current_slot - p.valid_slot) * MS_PER_SLOT > u64::MAX {
            Err(FundError::ArithmeticOverflow)
        } else if price_age_sec(current_slot as int, p.valid_slot as int) > max_price_age_sec {
            Err(FundError::Custom(ERR_ORACLE_STALE))
        } else if p.price <= 0 || p.conf * PRICE_ERROR_SCALE > max_price_error * p.price {
            Err(FundError::Custom(ERR_ORACLE_BOUNDS))
        } else {
            Ok(())
        },
    }
}

/// What `get_asset_value_usd` returns.
pub open spec fn asset_value_result(
    amount: u64,
    decimals: u8,
    max_price_error: u64,
    max_price_age_sec: u64,
    oracle: Option<OraclePrice>,
    current_slot: u64,
) -> Result<u64, FundError> {
    match price_check(oracle, max_price_error, max_price_age_sec, current_slot) {
        Err(e) => Err(e),
        Ok(_) => {
            let v = usd_value(amount as int, oracle.unwrap().price as int, decimals as int, oracle.unwrap().expo as int);
            if v <= u64::MAX {
                Ok(v as u64)
            } else {
                Err(FundError::ArithmeticOverflow)
            }
        },
    }
}

/// What `get_asset_value_tokens` returns.
pub open spec fn asset_tokens_result(
    value_usd: u64,
    decimals: u8,
    max_price_error: u64,
    max_price_age_sec: u64,
    oracle: Option<OraclePrice>,
    current_slot: u64,
) -> Result<u64, FundError> {
    match price_check(oracle, max_price_error, max_price_age_sec, current_slot) {
        Err(e) => Err(e),
        Ok(_) => if scaled(value_usd as int, decimals - oracle.unwrap().expo - USD_DECIMALS) <= u64::MAX {
            Ok(token_amount(value_usd as int, oracle.unwrap().price as int, decimals as int, oracle.unwrap().expo as int) as u64)
        } else {
            Err(FundError::ArithmeticOverflow)
        },
    }
}

pub(crate) proof fn lemma_pow10_pos(n: nat)
    ensures
        pow10(n) >= 1,
    decreases n,
{
    if n > 0 {
        lemma_pow10_pos((n - 1) as nat);
    }
}

pub(crate) proof fn lemma_pow10_mono(i: nat, j: nat)
    requires
        i <= j,
    ensures
        pow10(i) <= pow10(j),
    decreases j,
{
    if i < j {
        lemma_pow10_mono(i, (j - 1) as nat);
        lemma_pow10_pos((j - 1) as nat);
    }
}

/// `x * 10^e` (rounded down for negative `e`), or `None` where it exceeds `u64::MAX`.
pub(crate) fn scale_pow10(x: u128, e: i64) -> (r: Option<u64>)
    requires
        e > i64::MIN,
    ensures
        r matches Some(v) ==> v == scaled(x as int, e as int),
        r is None <==> scaled(x as int, e as int) > u64::MAX,
{
    if e >= 0 {
        let mut q: u128 = x;
        let mut i: i64 = 0;
        assert(pow10(0) == 1) by {
            reveal_with_fuel(pow10, 1);
        }
        assert(x * pow10(0) == x);
        while i < e
            invariant
                0 <= i <= e,
                q == x * pow10(i as nat),
            decreases e - i,
        {
            if q > u64::MAX as u128 {
                proof {
                    lemma_pow10_mono(i as nat, e as nat);
                    assert(x * pow10(i as nat) <= x * pow10(e as nat)) by (nonlinear_arith)
                        requires pow10(i as nat) <= pow10(e as nat), x >= 0;
                }
                return None;
            }
            q = q * 10;
            i = i + 1;
            proof {
                assert(x * pow10(i as nat) == x * (10 * pow10((i - 1) as nat)));
                assert(x * (10 * pow10((i - 1) as nat)) == (x * pow10((i - 1) as nat)) * 10) by (nonlinear_arith);
            }
        }
        if q > u64::MAX as u128 {
            return None;
        }
        Some(q as u64)
    } else {
        let k: i64 = -e;
        let mut q: u128 = x;
        let mut i: i64 = 0;
        assert(pow10(0) == 1) by {
            reveal_with_fuel(pow10, 1);
        }
        assert(x as int / (pow10(0) as int) == x);
        while i < k && q > 0
            invariant
                0 <= i <= k,
                k == -e,
                q == x as int / (pow10(i as nat) as int),
            decreases k - i,
        {
            proof {
                lemma_pow10_pos(i as nat);
                vstd::arithmetic::div_mod::lemma_div_denominator(x as int, pow10(i as nat) as int, 10);
                assert(pow10((i + 1) as nat) == 10 * pow10(i as nat));
                assert(pow10(i as nat) as int * 10 == pow10((i + 1) as nat) as int);
            }
            q = q / 10;
            i = i + 1;
        }
        proof {
            lemma_pow10_pos(i as nat);
            lemma_pow10_pos(k as nat);
            if i < k {
                lemma_pow10_mono(i as nat, k as nat);
                vstd::arithmetic::div_mod::lemma_fundamental_div_mod(x as int, pow10(i as nat) as int);
                assert((x as int) < pow10(i as nat)) by (nonlinear_arith)
                    requires
                        x as int == pow10(i as nat) * (x as int / (pow10(i as nat) as int)) + (x as int % (pow10(i as nat) as int)),
                        x as int / (pow10(i as nat) as int) == 0,
                        (x as int % (pow10(i as nat) as int)) < pow10(i as nat);
                vstd::arithmetic::div_mod::lemma_basic_div(x as int, pow10(k as nat) as int);
            }
            vstd::arithmetic::div_mod::lemma_div_is_ordered_by_denominator(x as int, 1, pow10(k as nat) as int);
        }
        if q > u64::MAX as u128 {
            return None;
        }
        Some(q as u64)
    }
}

/// Fails, in this order, when the oracle account is empty, the reading is not a
/// trading price, its age cannot be computed, it is older than `max_price_age_sec`,
/// or it is non-positive or its confidence exceeds `max_price_error` of the price.
pub fn check_price(
    oracle: &Option<OraclePrice>,
    max_price_error: u64,
    max_price_age_sec: u64,
    current_slot: u64,
) -> (r: Result<OraclePrice, FundError>)
    ensures
        price_check(*oracle, max_price_error, max_price_age_sec, current_slot) matches Err(e) ==> r == Err::<OraclePrice, FundError>(e),
        price_check(*oracle, max_price_error, max_price_age_sec, current_slot) is Ok ==> r == Ok::<OraclePrice, FundError>(oracle.unwrap()),
{
    let p = match oracle {
        None => return Err(FundError::Custom(ERR_ORACLE_EMPTY)),
        Some(p) => *p,
    };
    if !p.trading {
        return Err(FundError::Custom(ERR_ORACLE_STATE));
    }
    if current_slot < p.valid_slot {
        return Err(FundError::ArithmeticOverflow);
    }
    let slots = current_slot - p.valid_slot;
    let ms = match slots.checked_mul(MS_PER_SLOT) {
        Some(ms) => ms,
        None => return Err(FundError::ArithmeticOverflow),
    };
    if ms / 1000 > max_price_age_sec {
        return Err(FundError::Custom(ERR_ORACLE_STALE));
    }
    if p.price <= 0 {
        return Err(FundError::Custom(ERR_ORACLE_BOUNDS));
    }
    proof {
        let c = p.conf as int;
        let m = max_price_error as int;
        let pr = p.price as int;
        assert(c * PRICE_ERROR_SCALE <= u64::MAX * PRICE_ERROR_SCALE) by (nonlinear_arith)
            requires 0 <= c <= u64::MAX;
        assert(m * pr <= u64::MAX * u64::MAX) by (nonlinear_arith)
            requires 0 <= m <= u64::MAX, 0 < pr <= u64::MAX;
    }
    if (p.conf as u128) * (PRICE_ERROR_SCALE as u128) > (max_price_error as u128) * (p.price as u128) {
        return Err(FundError::Custom(ERR_ORACLE_BOUNDS));
    }
    Ok(p)
}

/// USD value (in millionths) of `amount` base units of a token, priced by `oracle`.
/// The reading must pass `price_check`, whatever the amount, and the value must fit
/// in 64 bits.
pub fn get_asset_value_usd(
    amount: u64,
    decimals: u8,
    max_price_error: u64,
    max_price_age_sec: u64,
    oracle: &Option<OraclePrice>,
    current_slot: u64,
) -> (r: Result<u64, FundError>)
    ensures
        r == asset_value_result(amount, decimals, max_price_error, max_price_age_sec, *oracle, current_slot),
{
    let p = check_price(oracle, max_price_error, max_price_age_sec, current_slot)?;
    proof {
        let a = amount as int;
        let pr = p.price as int;
        assert(a * pr <= u64::MAX * u64::MAX) by (nonlinear_arith)
            requires 0 <= a <= u64::MAX, 0 < pr <= u64::MAX;
    }
    let prod: u128 = (amount as u128) * (p.price as u128);
    let e: i64 = USD_DECIMALS as i64 + p.expo as i64 - decimals as i64;
    match scale_pow10(prod, e) {
        Some(v) => Ok(v),
        None => Err(FundError::ArithmeticOverflow),
    }
}

/// Base units of a token worth `value_usd` millionths of a USD, priced by `oracle`
/// after the same checks as `get_asset_value_usd`.
pub fn get_asset_value_tokens(
    value_usd: u64,
    decimals: u8,
    max_price_error: u64,
    max_price_age_sec: u64,
    oracle: &Option<OraclePrice>,
    current_slot: u64,
) -> (r: Result<u64, FundError>)
    ensures
        r == asset_tokens_result(value_usd, decimals, max_price_error, max_price_age_sec, *oracle, current_slot),
{
    let p = check_price(oracle, max_price_error, max_price_age_sec, current_slot)?;
    let e: i64 = decimals as i64 - p.expo as i64 - USD_DECIMALS as i64;
    match scale_pow10(value_usd as u128, e) {
        Some(v) => {
            proof {
                let pr = p.price as int;
                assert(v as int / pr <= v as int) by (nonlinear_arith)
                    requires pr > 0, v >= 0;
            }
            Ok(v / (p.price as u64))
        },
        None => Err(FundError::ArithmeticOverflow),
    }
}

} // verus!
