//! Properties of the fund's accounting that hold across operations.
use vstd::prelude::*;
use crate::action::{Clock, TokenAction};
use crate::deposit::{approve_deposit_outcome, deposit_completion, deposit_mint, request_deposit_outcome, TransferAccounts};
use crate::withdrawal::approve_withdrawal_outcome;
use crate::state::{Fund, FundInfo, FundUserInfo};
use crate::address::Address;
use crate::custody::{accounts_after, AccountAction};
use crate::error::{FundError, ERR_ORACLE_STALE};
use crate::math::{fee_of, mint_amount, mint_den, mint_num, mint_result, MIN_ASSETS_USD};
use crate::oracle::{
    asset_tokens_result, asset_value_result, lemma_pow10_pos, pow10, price_age_sec, price_check, usd_value, OraclePrice,
    MS_PER_SLOT,
};
use crate::state::{FEE_SCALE, USD_DECIMALS};

verus! {

/// Token balances by account after `actions`, in order: a transfer moves its amount,
/// a mint adds to its target, a burn takes from its source; delegations change none.
pub open spec fn balances_after(balances: Map<Seq<u8>, int>, actions: Seq<TokenAction>) -> Map<Seq<u8>, int>
    decreases actions.len(),
{
    if actions.len() == 0 {
        balances
    } else {
        let b = balances_after(balances, actions.drop_last());
        match actions.last() {
            TokenAction::Transfer { from, to, amount, .. } =>
                b.insert(from@, b[from@] - amount).insert(to@, b.insert(from@, b[from@] - amount)[to@] + amount),
            TokenAction::MintTo { to, amount, .. } => b.insert(to@, b[to@] + amount),
            TokenAction::Burn { from, amount, .. } => b.insert(from@, b[from@] - amount),
            _ => b,
        }
    }
}

/// The fee on any amount at a rate of at most 100% lies between zero and the
/// amount, so the amount splits exactly into its net part and its fee.
pub proof fn lemma_fee_split_exact(amount: u64, fee: u64)
    requires
        fee <= FEE_SCALE,
    ensures
        0 <= fee_of(amount as int, fee as int) <= amount,
        (amount - fee_of(amount as int, fee as int)) + fee_of(amount as int, fee as int) == amount,
{
    let a = amount as int;
    let f = fee as int;
    assert(f * a <= FEE_SCALE * a) by (nonlinear_arith)
        requires f <= FEE_SCALE, a >= 0;
    assert((f * a + FEE_SCALE / 2) / (FEE_SCALE as int) <= a) by (nonlinear_arith)
        requires f * a <= FEE_SCALE * a, a >= 0;
    assert(0 <= (f * a + FEE_SCALE / 2) / (FEE_SCALE as int)) by (nonlinear_arith)
        requires f >= 0, a >= 0;
}

/// While no fund token exists, a deposit mints exactly its net amount, whatever
/// its USD value and the tracked assets.
pub proof fn lemma_bootstrap_mint(current_assets_usd: u64, deposit_amount: u64, value_raw: int, value_exp: int)
    ensures
        mint_result(current_assets_usd, deposit_amount, value_raw, value_exp, 0) == Ok::<u64, FundError>(deposit_amount),
{
}

/// With fund tokens outstanding and a usable assets value, a deposit mints its
/// exact USD value's share of the assets applied to the supply, rounded down once:
/// the minted amount `m` satisfies `m * den <= num < (m + 1) * den`, where
/// `num / den` is that share times the supply.
pub proof fn lemma_proportional_mint(current_assets_usd: u64, deposit_amount: u64, value_raw: int, value_exp: int, supply: u64)
    requires
        supply > 0,
        current_assets_usd > MIN_ASSETS_USD,
        value_raw >= 0,
        mint_amount(deposit_amount as int, value_raw, value_exp, current_assets_usd as int, supply as int) <= u64::MAX,
    ensures
        mint_result(current_assets_usd, deposit_amount, value_raw, value_exp, supply) matches Ok(m) && {
            let num = mint_num(value_raw, value_exp, supply as int);
            let den = mint_den(current_assets_usd as int, value_exp);
            &&& m * den <= num
            &&& num < (m + 1) * den
        },
{
    let num = mint_num(value_raw, value_exp, supply as int);
    let den = mint_den(current_assets_usd as int, value_exp);
    lemma_pow10_pos((-value_exp) as nat);
    assert(den > 0) by (nonlinear_arith)
        requires
            den == (if value_exp >= 0 { current_assets_usd as int } else { current_assets_usd * pow10((-value_exp) as nat) }),
            current_assets_usd > 0,
            pow10((-value_exp) as nat) >= 1;
    let m = num / den;
    vstd::arithmetic::div_mod::lemma_fundamental_div_mod(num, den);
    assert(m * den <= num && num < (m + 1) * den) by (nonlinear_arith)
        requires den > 0, num == den * m + num % den, 0 <= num % den < den;
}

/// A deposit valued at the same price that valued the fund's assets mints in
/// proportion: where the assets are exactly the value of `supply` tokens at price
/// `price * 10^expo`, depositing `amount` tokens at that price mints `amount` fund
/// tokens.
pub proof fn lemma_mint_at_valuing_price(amount: u64, supply: u64, price: int, decimals: int, expo: int, current_assets_usd: u64)
    requires
        supply > 0,
        price > 0,
        current_assets_usd > MIN_ASSETS_USD,
        current_assets_usd == usd_value(supply as int, price, decimals, expo),
        USD_DECIMALS + expo - decimals >= 0
            || (supply * price) % (pow10((-(USD_DECIMALS + expo - decimals)) as nat) as int) == 0,
    ensures
        mint_result(current_assets_usd, amount, amount * price, USD_DECIMALS + expo - decimals, supply)
            == Ok::<u64, FundError>(amount),
{
    let e = USD_DECIMALS + expo - decimals;
    let a = amount as int;
    let s = supply as int;
    if e >= 0 {
        let p10 = pow10(e as nat) as int;
        lemma_pow10_pos(e as nat);
        assert(a * price * p10 * s == a * (s * price * p10)) by (nonlinear_arith);
        assert(s * price * p10 > 0) by (nonlinear_arith)
            requires s > 0, price > 0, p10 >= 1;
        vstd::arithmetic::div_mod::lemma_div_multiples_vanish(a, s * price * p10);
        assert((s * price * p10) * a == a * (s * price * p10)) by (nonlinear_arith);
    } else {
        let p10 = pow10((-e) as nat) as int;
        lemma_pow10_pos((-e) as nat);
        vstd::arithmetic::div_mod::lemma_fundamental_div_mod(s * price, p10);
        assert(current_assets_usd * p10 == s * price) by (nonlinear_arith)
            requires
                current_assets_usd == (s * price) / p10,
                s * price == p10 * ((s * price) / p10) + (s * price) % p10,
                (s * price) % p10 == 0;
        assert(a * price * s == (s * price) * a) by (nonlinear_arith);
        assert(s * price > 0) by (nonlinear_arith)
            requires s > 0, price > 0;
        vstd::arithmetic::div_mod::lemma_div_multiples_vanish(a, s * price);
    }
}

/// A deposit that completes mints at least one fund token: a zero mint fails the
/// instruction with the "nothing minted" error.
pub proof fn lemma_completed_deposit_mints(fund: Fund, info: FundInfo, a: TransferAccounts, net: u64, value: u64, now: i64)
    ensures
        deposit_completion(fund, info, a, net, value, now) matches Ok((minted, _)) ==> minted > 0,
        deposit_mint(info, a, net) == Ok::<u64, FundError>(0u64) ==> deposit_completion(fund, info, a, net, value, now) is Err,
{
}

/// A trading reading older than `max_price_age_sec` makes every valuation, of any
/// amount, in USD or in tokens, fail with the stale-price error.
pub proof fn lemma_stale_price_rejected(
    amount: u64,
    decimals: u8,
    max_price_error: u64,
    max_price_age_sec: u64,
    oracle: OraclePrice,
    current_slot: u64,
)
    requires
        oracle.trading,
        oracle.valid_slot <= current_slot,
        (current_slot - oracle.valid_slot) * MS_PER_SLOT <= u64::MAX,
        price_age_sec(current_slot as int, oracle.valid_slot as int) > max_price_age_sec,
    ensures
        price_check(Some(oracle), max_price_error, max_price_age_sec, current_slot) == Err::<(), FundError>(FundError::Custom(ERR_ORACLE_STALE)),
        asset_value_result(amount, decimals, max_price_error, max_price_age_sec, Some(oracle), current_slot)
            == Err::<u64, FundError>(FundError::Custom(ERR_ORACLE_STALE)),
        asset_tokens_result(amount, decimals, max_price_error, max_price_age_sec, Some(oracle), current_slot)
            == Err::<u64, FundError>(FundError::Custom(ERR_ORACLE_STALE)),
{
}

/// A reading that fails its checks (a stale price among them) fails every deposit
/// request, deposit approval and withdrawal approval, which then change nothing
/// and move no token.
pub proof fn lemma_bad_price_blocks_transfers(
    fund: Fund,
    info: FundInfo,
    user_info: FundUserInfo,
    a: TransferAccounts,
    amount: u64,
    clock: Clock,
)
    requires
        price_check(a.oracle, info.assets_config.max_price_error, info.assets_config.max_price_age_sec, clock.slot) is Err,
    ensures
        request_deposit_outcome(fund, info, user_info, a, amount, clock) is Err,
        approve_deposit_outcome(fund, info, user_info, a, amount, clock) is Err,
        approve_withdrawal_outcome(fund, info, user_info, a, amount, clock) is Err,
{
}

/// Adding a custody creates its record and two token accounts; removing it closes
/// the same three: the set of existing accounts is as it was before.
pub proof fn lemma_custody_add_remove(
    existing: Set<Seq<u8>>,
    added: Seq<AccountAction>,
    removed: Seq<AccountAction>,
    metadata: Address,
    account: Address,
    fees: Address,
)
    requires
        added.len() == 3,
        added[0].creates() && added[0].target() == metadata@,
        added[1].creates() && added[1].target() == account@,
        added[2].creates() && added[2].target() == fees@,
        removed == seq![
            AccountAction::CloseTokenAccount { address: account },
            AccountAction::CloseTokenAccount { address: fees },
            AccountAction::CloseRecord { address: metadata },
        ],
        !existing.contains(metadata@),
        !existing.contains(account@),
        !existing.contains(fees@),
    ensures
        accounts_after(accounts_after(existing, added), removed) == existing,
{
    reveal_with_fuel(accounts_after, 4);
    assert(added.drop_last().drop_last().drop_last() =~= Seq::<AccountAction>::empty());
    assert(removed.drop_last().drop_last().drop_last() =~= Seq::<AccountAction>::empty());
    let after_add = accounts_after(existing, added);
    assert(after_add == existing.insert(metadata@).insert(account@).insert(fees@));
    assert(accounts_after(after_add, removed) =~= existing);
}

/// Locking `x` tokens into the trading custody and unlocking `x` back leaves every
/// balance as it was; after the lock the trading custody holds at least `x`, so
/// the unlock is allowed.
pub proof fn lemma_lock_unlock_round_trip(balances: Map<Seq<u8>, int>, wd: Address, trading: Address, authority: Address, x: u64)
    requires
        balances.contains_key(wd@),
        balances.contains_key(trading@),
        wd@ != trading@,
        0 < x <= balances[wd@],
        balances[trading@] >= 0,
    ensures
        ({
            let locked = balances_after(balances, seq![TokenAction::Transfer { from: wd, to: trading, authority, amount: x }]);
            &&& locked[trading@] >= x
            &&& balances_after(locked, seq![TokenAction::Transfer { from: trading, to: wd, authority, amount: x }]) == balances
        }),
{
    reveal_with_fuel(balances_after, 2);
    let lock = seq![TokenAction::Transfer { from: wd, to: trading, authority, amount: x }];
    let unlock = seq![TokenAction::Transfer { from: trading, to: wd, authority, amount: x }];
    assert(lock.drop_last() =~= Seq::<TokenAction>::empty());
    assert(unlock.drop_last() =~= Seq::<TokenAction>::empty());
    let locked = balances_after(balances, lock);
    assert(locked[trading@] == balances[trading@] + x);
    assert(balances_after(locked, unlock) =~= balances);
}

} // verus!
