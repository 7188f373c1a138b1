//! Fixed-point arithmetic of the fund: fee splits, fund-token minting and the
//! valuation of withdrawals.
use vstd::prelude::*;
use crate::error::{FundError, ERR_ASSETS_STALE};
use crate::state::FEE_SCALE;
use crate::oracle::{lemma_pow10_mono, lemma_pow10_pos, pow10, scale_pow10, scaled};

verus! {

/// The fee on `amount` at rate `fee / FEE_SCALE`, rounded to the nearest unit
/// (halves round up).
pub open spec fn fee_of(amount: int, fee: int) -> int {
    (fee * amount + FEE_SCALE / 2) / (FEE_SCALE as int)
}

/// The largest net amount that, with its fee on top, a balance can cover:
/// `balance / (1 + fee / FEE_SCALE)`, rounded down.
pub open spec fn net_of_balance(balance: int, fee: int) -> int {
    balance * FEE_SCALE / (FEE_SCALE + fee)
}

/// Splits a requested `amount` into `(net, fee)`, with `net + fee == amount`.
pub fn split_amount(amount: u64, fee: u64) -> (r: (u64, u64))
    requires
        fee <= FEE_SCALE,
    ensures
        r.1 == fee_of(amount as int, fee as int),
        r.0 + r.1 == amount,
{
    proof {
        let a = amount as int;
        let fe = fee as int;
        assert(fe * a <= FEE_SCALE * a) by (nonlinear_arith)
            requires fe <= FEE_SCALE, a >= 0;
        assert(FEE_SCALE * a <= FEE_SCALE * u64::MAX) by (nonlinear_arith)
            requires 0 <= a <= u64::MAX;
        assert((fe * a + FEE_SCALE / 2) / (FEE_SCALE as int) <= a) by (nonlinear_arith)
            requires fe * a <= FEE_SCALE * a, a >= 0;
    }
    let f: u128 = ((fee as u128) * (amount as u128) + (FEE_SCALE as u128) / 2) / (FEE_SCALE as u128);
    let f64v = f as u64;
    (amount - f64v, f64v)
}

/// Splits a whole `balance` into `(net, fee)` so that the net amount plus its fee
/// uses the balance up: the net part is `net_of_balance` and the fee is the rest.
pub fn split_balance(balance: u64, fee: u64) -> (r: (u64, u64))
    requires
        fee <= FEE_SCALE,
    ensures
        fee == 0 ==> r.0 == balance && r.1 == 0,
        fee > 0 ==> r.0 == net_of_balance(balance as int, fee as int),
        r.0 + r.1 == balance,
{
    if fee == 0 {
        return (balance, 0);
    }
    proof {
        let b = balance as int;
        let d = FEE_SCALE + fee as int;
        assert(b * FEE_SCALE <= u64::MAX * FEE_SCALE) by (nonlinear_arith)
            requires 0 <= b <= u64::MAX;
        assert(b * FEE_SCALE <= b * d) by (nonlinear_arith)
            requires d >= FEE_SCALE, b >= 0;
        assert(b * FEE_SCALE / d <= b) by (nonlinear_arith)
            requires b * FEE_SCALE <= b * d, d > 0, b >= 0;
    }
    let n: u128 = (balance as u128) * (FEE_SCALE as u128) / ((FEE_SCALE as u128) + (fee as u128));
    let net = n as u64;
    (net, balance - net)
}

pub open spec fn pow2(n: nat) -> nat
    decreases n,
{
    if n == 0 {
        1
    } else {
        2 * pow2((n - 1) as nat)
    }
}

proof fn lemma_div_below(a: int, d: int, m: int)
    requires
        0 <= a < d * m,
        d > 0,
    ensures
        a / d < m,
{
    vstd::arithmetic::div_mod::lemma_fundamental_div_mod(a, d);
    assert(a / d < m) by (nonlinear_arith)
        requires a == d * (a / d) + a % d, 0 <= a % d, a < d * m, d > 0;
}

proof fn lemma_div_at_least(a: int, d: int, m: int)
    requires
        a >= d * m,
        d > 0,
        m >= 0,
    ensures
        a / d >= m,
{
    vstd::arithmetic::div_mod::lemma_fundamental_div_mod(a, d);
    assert(a / d >= m) by (nonlinear_arith)
        requires a == d * (a / d) + a % d, a % d < d, a >= d * m, d > 0;
}

/// `r * s / d`, rounded down, for `r < d`: long division over the bits of `s`,
/// keeping every intermediate below `d`.
fn mul_div_small(r: u128, s: u64, d: u128) -> (q: u128)
    requires
        r < d,
    ensures
        q == (r as int * s as int) / (d as int),
        q <= s,
{
    let mut hp: u128 = 0x1_0000_0000_0000_0000;
    let ghost mut n: nat = 64;
    let mut quot: u128 = 0;
    let mut rem: u128 = 0;
    assert(pow2(64) == 0x1_0000_0000_0000_0000) by {
        reveal_with_fuel(pow2, 65);
    }
    assert(s as int / (hp as int) == 0);
    while hp > 1
        invariant
            1 <= hp <= 0x1_0000_0000_0000_0000,
            hp == pow2(n),
            r < d,
            quot * d + rem == r as int * (s as int / (hp as int)),
            rem < d,
            quot <= s as int / (hp as int),
            s as int / (hp as int) <= s,
        decreases hp,
    {
        proof {
            if n == 0 {
                assert(pow2(0) == 1);
            }
            assert(hp == 2 * pow2((n - 1) as nat));
        }
        let h = hp / 2;
        let ghost sj = s as int / (hp as int);
        proof {
            assert(h == pow2((n - 1) as nat));
            vstd::arithmetic::div_mod::lemma_div_denominator(s as int, h as int, 2);
            vstd::arithmetic::div_mod::lemma_fundamental_div_mod(s as int / (h as int), 2);
            assert(h as int * 2 == hp as int);
            vstd::arithmetic::div_mod::lemma_div_is_ordered_by_denominator(s as int, 1, h as int);
        }
        let x = (s as u128) / h;
        let bit = x % 2;
        let ghost sj2 = s as int / (h as int);
        assert(sj2 == 2 * sj + bit);
        let mut rem2: u128 = 0;
        let mut c1: u128 = 0;
        if rem >= d - rem {
            rem2 = rem - (d - rem);
            c1 = 1;
        } else {
            rem2 = rem + rem;
        }
        let mut rem3: u128 = rem2;
        let mut c2: u128 = 0;
        if bit == 1 {
            if rem2 >= d - r {
                rem3 = rem2 - (d - r);
                c2 = 1;
            } else {
                rem3 = rem2 + r;
            }
        }
        let nq: u128 = 2 * quot + c1 + c2;
        proof {
            assert(nq * d + rem3 == r as int * sj2) by (nonlinear_arith)
                requires
                    quot * d + rem == r as int * sj,
                    rem2 + c1 * d == 2 * rem,
                    rem3 + c2 * d == rem2 + bit * r,
                    nq == 2 * quot + c1 + c2,
                    sj2 == 2 * sj + bit;
            assert(nq <= sj2) by (nonlinear_arith)
                requires nq * d + rem3 == r as int * sj2, 0 <= rem3, 0 <= r < d, sj2 >= 0, nq >= 0;
        }
        quot = nq;
        rem = rem3;
        hp = h;
        proof {
            n = (n - 1) as nat;
        }
    }
    proof {
        assert(hp == 1);
        assert(s as int / 1int == s as int);
        vstd::arithmetic::div_mod::lemma_fundamental_div_mod_converse(r as int * s as int, d as int, quot as int, rem as int);
    }
    quot
}

/// `x * s / d` rounded down, or `None` where that exceeds `u128::MAX`.
fn mul_div(x: u128, s: u64, d: u128) -> (r: Option<u128>)
    requires
        d > 0,
    ensures
        r matches Some(v) ==> v == (x as int * s as int) / (d as int),
        r is None <==> (x as int * s as int) / (d as int) > u128::MAX,
{
    let q = x / d;
    let rr = x % d;
    let t = mul_div_small(rr, s, d);
    let ghost total = (x as int * s as int) / (d as int);
    proof {
        let xs = x as int * s as int;
        vstd::arithmetic::div_mod::lemma_fundamental_div_mod(x as int, d as int);
        vstd::arithmetic::div_mod::lemma_fundamental_div_mod(rr as int * s as int, d as int);
        let rest = (rr as int * s as int) % (d as int);
        assert(xs == (q as int * s as int + t) * d + rest) by (nonlinear_arith)
            requires
                x as int == d * q + rr,
                rr as int * s as int == d * t + rest,
                xs == x as int * s as int;
        vstd::arithmetic::div_mod::lemma_fundamental_div_mod_converse(xs, d as int, q as int * s as int + t, rest);
    }
    match q.checked_mul(s as u128) {
        None => None,
        Some(qs) => match qs.checked_add(t) {
            None => None,
            Some(v) => Some(v),
        },
    }
}

/// Numerator and denominator of the fund tokens owed for a deposit worth
/// `value_raw * 10^value_exp` millionths of a USD, against `supply` fund tokens
/// and assets of `current_assets_usd`.
pub open spec fn mint_num(value_raw: int, value_exp: int, supply: int) -> int {
    if value_exp >= 0 {
        value_raw * pow10(value_exp as nat) * supply
    } else {
        value_raw * supply
    }
}

pub open spec fn mint_den(current_assets_usd: int, value_exp: int) -> int {
    if value_exp >= 0 {
        current_assets_usd
    } else {
        current_assets_usd * pow10((-value_exp) as nat)
    }
}

/// Fund tokens owed for a deposit: the deposit itself while no fund token exists,
/// else the deposit's exact value as a share of the fund's assets, applied to the
/// supply and rounded down once.
pub open spec fn mint_amount(deposit_amount: int, value_raw: int, value_exp: int, current_assets_usd: int, supply: int) -> int {
    if supply == 0 {
        deposit_amount
    } else {
        mint_num(value_raw, value_exp, supply) / mint_den(current_assets_usd, value_exp)
    }
}

/// Smallest tracked assets value (in millionths of a USD) against which tokens are minted.
pub const MIN_ASSETS_USD: u64 = 100;

/// What `get_fund_token_to_mint_amount` returns.
pub open spec fn mint_result(current_assets_usd: u64, deposit_amount: u64, value_raw: int, value_exp: int, supply: u64) -> Result<u64, FundError> {
    if supply == 0 {
        Ok(deposit_amount)
    } else if current_assets_usd <= MIN_ASSETS_USD {
        Err(FundError::Custom(ERR_ASSETS_STALE))
    } else {
        let m = mint_amount(deposit_amount as int, value_raw, value_exp, current_assets_usd as int, supply as int);
        if m <= u64::MAX {
            Ok(m as u64)
        } else {
            Err(FundError::ArithmeticOverflow)
        }
    }
}

proof fn lemma_pow10_add(a: nat, b: nat)
    ensures
        pow10(a) * pow10(b) == pow10(a + b),
    decreases a,
{
    if a > 0 {
        lemma_pow10_add((a - 1) as nat, b);
        assert(pow10(a) == 10 * pow10((a - 1) as nat));
        assert(pow10(a + b) == 10 * pow10((a + b - 1) as nat));
        assert(((a - 1) as nat + b) as nat == (a + b - 1) as nat);
        assert(pow10(a) * pow10(b) == 10 * (pow10((a - 1) as nat) * pow10(b))) by (nonlinear_arith)
            requires pow10(a) == 10 * pow10((a - 1) as nat);
        assert(pow10((a - 1) as nat) * pow10(b) == pow10((a + b - 1) as nat));
        assert(pow10(a) * pow10(b) == pow10(a + b));
    } else {
        assert(a + b == b);
        assert(pow10(a) == 1);
        assert(pow10(a) * pow10(b) == pow10(b));
        assert(pow10(0) == 1) by {
            reveal_with_fuel(pow10, 1);
        }
    }
}

/// `x * 10^e` for `e >= 0`, or `None` where it exceeds `u128::MAX`.
fn scale_up(x: u128, e: i64) -> (r: Option<u128>)
    requires
        e >= 0,
    ensures
        r matches Some(v) ==> v == x * pow10(e as nat),
        r is None <==> x * pow10(e as nat) > u128::MAX,
{
    let mut q: u128 = x;
    let mut i: i64 = 0;
    assert(pow10(0) == 1) by {
        reveal_with_fuel(pow10, 1);
    }
    assert(x * pow10(0) == x);
    while i < e
        invariant
            0 <= i <= e,
            q == x * pow10(i as nat),
        decreases e - i,
    {
        proof {
            lemma_pow10_mono(i as nat, e as nat);
            lemma_pow10_mono((i + 1) as nat, e as nat);
            assert(x * pow10((i + 1) as nat) == (x * pow10(i as nat)) * 10) by (nonlinear_arith)
                requires pow10((i + 1) as nat) == 10 * pow10(i as nat);
        }
        match q.checked_mul(10) {
            Some(v) => q = v,
            None => {
                proof {
                    assert(x * pow10((i + 1) as nat) <= x * pow10(e as nat)) by (nonlinear_arith)
                        requires pow10((i + 1) as nat) <= pow10(e as nat), x >= 0;
                }
                return None;
            },
        }
        i = i + 1;
    }
    Some(q)
}

/// Number of fund tokens to mint for a deposit of `deposit_amount` tokens whose
/// value is `deposit_value_raw * 10^deposit_value_exp` millionths of a USD, not
/// rounded. With supply the result is that value's share of `current_assets_usd`
/// applied to the supply, rounded down once; it fails when the tracked assets value
/// is at most `MIN_ASSETS_USD` or the result does not fit.
pub fn get_fund_token_to_mint_amount(
    current_assets_usd: u64,
    deposit_amount: u64,
    deposit_value_raw: u128,
    deposit_value_exp: i64,
    ft_supply_amount: u64,
) -> (r: Result<u64, FundError>)
    requires
        deposit_value_exp > i64::MIN,
    ensures
        r == mint_result(current_assets_usd, deposit_amount, deposit_value_raw as int, deposit_value_exp as int, ft_supply_amount),
{
    if ft_supply_amount == 0 {
        return Ok(deposit_amount);
    }
    if current_assets_usd <= MIN_ASSETS_USD {
        return Err(FundError::Custom(ERR_ASSETS_STALE));
    }
    let ghost m = mint_amount(deposit_amount as int, deposit_value_raw as int, deposit_value_exp as int,
        current_assets_usd as int, ft_supply_amount as int);
    let e = deposit_value_exp;
    if e >= 0 {
        match scale_up(deposit_value_raw, e) {
            None => {
                proof {
                    let big = deposit_value_raw * pow10(e as nat);
                    let s = ft_supply_amount as int;
                    let c = current_assets_usd as int;
                    assert(big * s >= c * 0x1_0000_0000_0000_0000) by (nonlinear_arith)
                        requires big > u128::MAX, s >= 1, 0 < c <= u64::MAX;
                    lemma_div_at_least(big * s, c, 0x1_0000_0000_0000_0000);
                }
                Err(FundError::ArithmeticOverflow)
            },
            Some(x) => match mul_div(x, ft_supply_amount, current_assets_usd as u128) {
                None => Err(FundError::ArithmeticOverflow),
                Some(v) => if v > u64::MAX as u128 {
                    Err(FundError::ArithmeticOverflow)
                } else {
                    Ok(v as u64)
                },
            },
        }
    } else {
        let k: i64 = -e;
        let mut d: u128 = current_assets_usd as u128;
        let mut i: i64 = 0;
        assert(pow10(0) == 1) by {
            reveal_with_fuel(pow10, 1);
        }
        assert(current_assets_usd * pow10(0) == current_assets_usd);
        while i < k && d <= u128::MAX / 10
            invariant
                0 <= i <= k,
                k == -e,
                d == current_assets_usd * pow10(i as nat),
                d > 0,
            decreases k - i,
        {
            proof {
                assert(current_assets_usd * pow10((i + 1) as nat) == (current_assets_usd * pow10(i as nat)) * 10) by (nonlinear_arith)
                    requires pow10((i + 1) as nat) == 10 * pow10(i as nat);
            }
            d = d * 10;
            i = i + 1;
        }
        let z = mul_div(deposit_value_raw, ft_supply_amount, d);
        if i == k {
            match z {
                None => Err(FundError::ArithmeticOverflow),
                Some(v) => if v > u64::MAX as u128 {
                    Err(FundError::ArithmeticOverflow)
                } else {
                    Ok(v as u64)
                },
            }
        } else {
            let ghost num = deposit_value_raw as int * ft_supply_amount as int;
            proof {
                assert(num < d * (10 * 0x1_0000_0000_0000_0000)) by (nonlinear_arith)
                    requires
                        num == deposit_value_raw as int * ft_supply_amount as int,
                        d * 10 > u128::MAX,
                        0 <= deposit_value_raw <= u128::MAX,
                        0 <= ft_supply_amount <= u64::MAX;
                lemma_div_below(num, d as int, 10 * 0x1_0000_0000_0000_0000int);
            }
            let v = z.unwrap();
            proof {
                lemma_pow10_pos((k - i) as nat);
                vstd::arithmetic::div_mod::lemma_div_denominator(num, d as int, pow10((k - i) as nat) as int);
                lemma_pow10_add(i as nat, (k - i) as nat);
                assert(d * pow10((k - i) as nat) == current_assets_usd * pow10(k as nat)) by (nonlinear_arith)
                    requires
                        d == current_assets_usd * pow10(i as nat),
                        pow10(i as nat) * pow10((k - i) as nat) == pow10(k as nat);
                assert(scaled(v as int, -(k - i)) == v as int / (pow10((k - i) as nat) as int));
            }
            match scale_pow10(v, -(k - i)) {
                None => Err(FundError::ArithmeticOverflow),
                Some(m2) => Ok(m2),
            }
        }
    }
}

/// Share of the fund's value that `amount` fund tokens stand for, rounded down.
pub open spec fn share_value(current_assets_usd: int, amount: int, supply: int) -> int {
    current_assets_usd * amount / supply
}

/// USD value (in millionths) of `amount` fund tokens out of `supply`.
pub fn get_share_value_usd(current_assets_usd: u64, amount: u64, supply: u64) -> (r: u64)
    requires
        amount <= supply,
        supply > 0,
    ensures
        r == share_value(current_assets_usd as int, amount as int, supply as int),
        r <= current_assets_usd,
{
    proof {
        let c = current_assets_usd as int;
        let a = amount as int;
        let s = supply as int;
        assert(c * a <= c * s) by (nonlinear_arith)
            requires 0 <= a <= s, c >= 0;
        assert(c * a / s <= c) by (nonlinear_arith)
            requires c * a <= c * s, s > 0, c >= 0, a >= 0;
        assert(c * a <= u64::MAX * u64::MAX) by (nonlinear_arith)
            requires 0 <= c <= u64::MAX, 0 <= a <= u64::MAX;
    }
    let v: u128 = (current_assets_usd as u128) * (amount as u128) / (supply as u128);
    v as u64
}

} // verus!
