//! Deposit workflow: request, approval, denial and cancellation, with fee
//! computation, oracle valuation and NAV-based minting of fund tokens.
use vstd::prelude::*;
use crate::action::{Clock, TokenAction};
use crate::address::Address;
use crate::error::{FundError, ERR_DEPOSITS_NOT_ALLOWED, ERR_DEPOSIT_LIMIT, ERR_NOTHING_MINTED};
use crate::limits::{assets_limit_check, assets_update_check, check_assets_limit_usd, check_assets_update_time};
use crate::math::{fee_of, get_fund_token_to_mint_amount, mint_result, net_of_balance, split_amount, split_balance};
use crate::oracle::{asset_value_result, get_asset_value_usd, OraclePrice};
use crate::state::{DenyReason, Fund, FundCustody, FundInfo, FundUserAction, FundUserInfo, Token, TokenAccount, USD_DECIMALS};
use crate::validate::{
    check_fund_token_mint, check_user_info_account, check_wd_custody_accounts, fund_token_mint_check,
    user_info_check, wd_custody_check,
};

verus! {

/// Accounts of a deposit or withdrawal instruction, as loaded from the ledger.
#[derive(Clone, Debug)]
pub struct TransferAccounts {
    pub user: Address,
    pub user_is_signer: bool,
    pub fund_authority: Address,
    pub fund_token_mint: Address,
    pub fund_token_supply: u64,
    pub user_info_key: Address,
    /// The user's account of the custody's token.
    pub user_token_account: TokenAccount,
    /// The user's fund-token account; `None` where it holds no data.
    pub user_fund_token_account: Option<TokenAccount>,
    pub custody_account: TokenAccount,
    pub custody_fees_account: TokenAccount,
    pub custody_metadata_key: Address,
    pub custody: FundCustody,
    pub custody_token: Token,
    pub oracle_key: Address,
    pub oracle: Option<OraclePrice>,
}

/// All bytes zero.
pub open spec fn no_reason() -> Seq<u8> {
    Seq::new(64, |i: int| 0u8)
}

/// Fields of a user record that no request changes.
pub open spec fn same_identity(a: FundUserInfo, b: FundUserInfo) -> bool {
    &&& a.fund_ref == b.fund_ref
    &&& a.token_ref == b.token_ref
    &&& a.bump == b.bump
}

/// Account checks shared by requests and approvals, in order: the fund authority,
/// the owner of the user's fund-token account (where `check_owner`), the custody
/// accounts and the user-info account.
pub open spec fn transfer_accounts_check(fund: Fund, user_info: FundUserInfo, a: TransferAccounts, check_owner: bool) -> Result<(), FundError> {
    if a.fund_authority@ != fund.fund_authority@ {
        Err(FundError::InvalidArgument)
    } else if check_owner && !(a.user_fund_token_account matches Some(t) && t.owner@ == a.user@) {
        Err(FundError::IllegalOwner)
    } else {
        match wd_custody_check(fund, a.custody_token, a.user_token_account, a.custody_account,
            a.custody_fees_account, a.custody_metadata_key, a.custody, a.oracle_key) {
            Err(e) => Err(e),
            Ok(_) => user_info_check(fund, a.custody_token, user_info, a.user, a.user_info_key),
        }
    }
}

pub fn check_transfer_accounts(fund: &Fund, user_info: &FundUserInfo, a: &TransferAccounts, check_owner: bool) -> (r: Result<(), FundError>)
    ensures
        r == transfer_accounts_check(*fund, *user_info, *a, check_owner),
{
    if !a.fund_authority.same(&fund.fund_authority) {
        return Err(FundError::InvalidArgument);
    }
    if check_owner {
        match &a.user_fund_token_account {
            Some(t) => if !t.owner.same(&a.user) {
                return Err(FundError::IllegalOwner);
            },
            None => return Err(FundError::IllegalOwner),
        }
    }
    check_wd_custody_accounts(fund, &a.custody_token, &a.user_token_account, &a.custody_account,
        &a.custody_fees_account, &a.custody_metadata_key, &a.custody, &a.oracle_key)?;
    check_user_info_account(fund, &a.custody_token, user_info, &a.user, &a.user_info_key)
}

/// `(net, fee)` of a request for `amount` (0 = the whole `balance`) at rate `fee`.
pub open spec fn request_split(amount: u64, balance: u64, fee: u64) -> (int, int) {
    if amount == 0 {
        if fee == 0 {
            (balance as int, 0)
        } else {
            (net_of_balance(balance as int, fee as int), balance - net_of_balance(balance as int, fee as int))
        }
    } else {
        (amount - fee_of(amount as int, fee as int), fee_of(amount as int, fee as int))
    }
}

/// Fund tokens owed for `net` deposited tokens, from their value at the oracle's
/// price before any rounding: `net * price * 10^(USD_DECIMALS + expo - decimals)`.
pub open spec fn deposit_mint(info: FundInfo, a: TransferAccounts, net: u64) -> Result<u64, FundError> {
    let p = a.oracle.unwrap();
    mint_result(info.current_assets_usd, net, net * p.price, USD_DECIMALS + p.expo - a.custody_token.decimals,
        a.fund_token_supply)
}

/// The rest of an immediate deposit of `net` tokens worth `value`: the assets
/// limit, the freshness of the tracked assets, the mint amount (never zero) and the
/// fund-token mint; gives the amount minted and the updated record.
pub open spec fn deposit_completion(fund: Fund, info: FundInfo, a: TransferAccounts, net: u64, value: u64, now: i64) -> Result<(u64, FundInfo), FundError> {
    match assets_limit_check(info, value) {
        Err(e) => Err(e),
        Ok(_) => match assets_update_check(info.assets_update_time, info.assets_config.max_update_age_sec, now) {
            Err(e) => Err(e),
            Ok(_) => match deposit_mint(info, a, net) {
                Err(e) => Err(e),
                Ok(minted) => if minted == 0 {
                    Err(FundError::Custom(ERR_NOTHING_MINTED))
                } else {
                    match fund_token_mint_check(fund, a.fund_token_mint) {
                        Err(e) => Err(e),
                        Ok(_) => if info.amount_invested_usd + value > u64::MAX || info.current_assets_usd + value > u64::MAX {
                            Err(FundError::ArithmeticOverflow)
                        } else {
                            Ok((minted, FundInfo {
                                amount_invested_usd: (info.amount_invested_usd + value) as u64,
                                current_assets_usd: (info.current_assets_usd + value) as u64,
                                ..info
                            }))
                        },
                    }
                },
            },
        },
    }
}

fn complete_deposit(fund: &Fund, info: &FundInfo, a: &TransferAccounts, net: u64, value: u64, now: i64) -> (r: Result<(u64, FundInfo), FundError>)
    requires
        a.oracle matches Some(p) && p.price > 0,
    ensures
        r == deposit_completion(*fund, *info, *a, net, value, now),
{
    check_assets_limit_usd(info, value)?;
    check_assets_update_time(info.assets_update_time, info.assets_config.max_update_age_sec, now)?;
    let p = a.oracle.unwrap();
    proof {
        let n = net as int;
        let pr = p.price as int;
        assert(n * pr <= u64::MAX * u64::MAX) by (nonlinear_arith)
            requires 0 <= n <= u64::MAX, 0 < pr <= u64::MAX;
    }
    let raw: u128 = (net as u128) * (p.price as u128);
    let exp: i64 = USD_DECIMALS as i64 + p.expo as i64 - a.custody_token.decimals as i64;
    let minted = get_fund_token_to_mint_amount(info.current_assets_usd, net, raw, exp, a.fund_token_supply)?;
    if minted == 0 {
        return Err(FundError::Custom(ERR_NOTHING_MINTED));
    }
    check_fund_token_mint(fund, &a.fund_token_mint)?;
    let invested = match info.amount_invested_usd.checked_add(value) {
        Some(v) => v,
        None => return Err(FundError::ArithmeticOverflow),
    };
    let current = match info.current_assets_usd.checked_add(value) {
        Some(v) => v,
        None => return Err(FundError::ArithmeticOverflow),
    };
    Ok((minted, FundInfo { amount_invested_usd: invested, current_assets_usd: current, ..*info }))
}

/// Tokens into custody (the fee into the fee account, where there is one), then
/// fund tokens to the user.
pub open spec fn deposit_actions(a: TransferAccounts, authority: Address, net: u64, fee: u64, minted: u64) -> Seq<TokenAction> {
    seq![TokenAction::Transfer { from: a.user_token_account.address, to: a.custody_account.address, authority, amount: net }]
        + (if fee > 0 {
            seq![TokenAction::Transfer { from: a.user_token_account.address, to: a.custody_fees_account.address, authority, amount: fee }]
        } else {
            Seq::empty()
        })
        + seq![TokenAction::MintTo { mint: a.fund_token_mint, to: a.user_fund_token_account.unwrap().address, amount: minted }]
}

fn make_deposit_actions(a: &TransferAccounts, authority: Address, net: u64, fee: u64, minted: u64) -> (r: Vec<TokenAction>)
    requires
        a.user_fund_token_account is Some,
    ensures
        r@ == deposit_actions(*a, authority, net, fee, minted),
{
    let mut v: Vec<TokenAction> = Vec::new();
    v.push(TokenAction::Transfer { from: a.user_token_account.address, to: a.custody_account.address, authority, amount: net });
    if fee > 0 {
        v.push(TokenAction::Transfer { from: a.user_token_account.address, to: a.custody_fees_account.address, authority, amount: fee });
    }
    let to = match &a.user_fund_token_account {
        Some(t) => t.address,
        None => a.user_token_account.address,
    };
    v.push(TokenAction::MintTo { mint: a.fund_token_mint, to, amount: minted });
    assert(v@ =~= deposit_actions(*a, authority, net, fee, minted));
    v
}

/// How a deposit request that passes its checks is carried out.
pub enum DepositOutcome {
    /// Performed at once: `minted` fund tokens, the record after the deposit.
    Immediate { net: u64, fee: u64, minted: u64, info: FundInfo },
    /// Left for approval; the fund is made delegate for `net + fee`.
    Pending { net: u64, fee: u64 },
}

/// What a deposit request decides, in the order of its checks.
pub open spec fn request_deposit_outcome(fund: Fund, info: FundInfo, user_info: FundUserInfo, a: TransferAccounts, amount: u64, clock: Clock) -> Result<DepositOutcome, FundError> {
    if !FundInfo::in_window(info.deposit_schedule, clock.unix_timestamp) {
        Err(FundError::Custom(ERR_DEPOSITS_NOT_ALLOWED))
    } else if !a.user_is_signer {
        Err(FundError::MissingRequiredSignature)
    } else {
        match transfer_accounts_check(fund, user_info, a, true) {
            Err(e) => Err(e),
            Ok(_) => if user_info.withdrawal_request.amount != 0 || user_info.deposit_request.amount != 0 {
                Err(FundError::InvalidArgument)
            } else {
                let balance = a.user_token_account.amount;
                let (net, fee) = request_split(amount, balance, info.deposit_schedule.fee);
                if net == 0 || net + fee > balance {
                    Err(FundError::InsufficientFunds)
                } else {
                    let cfg = info.assets_config;
                    match asset_value_result(net as u64, a.custody_token.decimals, cfg.max_price_error, cfg.max_price_age_sec, a.oracle, clock.slot) {
                        Err(e) => Err(e),
                        Ok(value) => if info.deposit_schedule.limit_usd > 0 && info.deposit_schedule.limit_usd < value {
                            Err(FundError::Custom(ERR_DEPOSIT_LIMIT))
                        } else if info.deposit_schedule.approval_required {
                            Ok(DepositOutcome::Pending { net: net as u64, fee: fee as u64 })
                        } else {
                            match deposit_completion(fund, info, a, net as u64, value, clock.unix_timestamp) {
                                Err(e) => Err(e),
                                Ok((minted, info2)) => Ok(DepositOutcome::Immediate { net: net as u64, fee: fee as u64, minted, info: info2 }),
                            }
                        },
                    }
                }
            },
        }
    }
}

/// Requests a deposit of `amount` tokens (0 = the whole balance, less the fee).
/// Without approval the tokens move to custody at once and fund tokens are minted;
/// with approval the fund becomes delegate and the request is recorded. On any
/// failure nothing changes.
#[verifier::rlimit(50)]
pub fn request_deposit(
    fund: &Fund,
    fund_info: &mut FundInfo,
    user_info: &mut FundUserInfo,
    accounts: &TransferAccounts,
    amount: u64,
    clock: &Clock,
) -> (r: Result<Vec<TokenAction>, FundError>)
    requires
        old(fund_info).wf(),
    ensures
        final(fund_info).wf(),
        same_identity(*final(user_info), *old(user_info)),
        old(user_info).exclusive() ==> final(user_info).exclusive(),
        match request_deposit_outcome(*fund, *old(fund_info), *old(user_info), *accounts, amount, *clock) {
            Err(e) => r == Err::<Vec<TokenAction>, FundError>(e) && *final(fund_info) == *old(fund_info)
                && *final(user_info) == *old(user_info),
            Ok(DepositOutcome::Immediate { net, fee, minted, info }) => {
                &&& r matches Ok(v) && v@ == deposit_actions(*accounts, accounts.user, net, fee, minted)
                &&& *final(fund_info) == info
                &&& final(user_info).last_deposit == FundUserAction { time: clock.unix_timestamp, amount: net }
                &&& final(user_info).deposit_request == FundUserAction { time: 0, amount: 0 }
                &&& final(user_info).withdrawal_request == old(user_info).withdrawal_request
                &&& final(user_info).last_withdrawal == old(user_info).last_withdrawal
                &&& final(user_info).deny_reason@ == no_reason()
            },
            Ok(DepositOutcome::Pending { net, fee }) => {
                &&& r matches Ok(v) && v@ == seq![TokenAction::Approve {
                    account: accounts.user_token_account.address, delegate: accounts.fund_authority,
                    owner: accounts.user, amount: (net + fee) as u64 }]
                &&& *final(fund_info) == *old(fund_info)
                &&& final(user_info).deposit_request == FundUserAction { time: clock.unix_timestamp, amount: (net + fee) as u64 }
                &&& final(user_info).last_deposit == old(user_info).last_deposit
                &&& final(user_info).withdrawal_request == old(user_info).withdrawal_request
                &&& final(user_info).last_withdrawal == old(user_info).last_withdrawal
                &&& final(user_info).deny_reason@ == no_reason()
            },
        },
{
    let now = clock.unix_timestamp;
    if !fund_info.is_deposit_allowed(now) {
        return Err(FundError::Custom(ERR_DEPOSITS_NOT_ALLOWED));
    }
    if !accounts.user_is_signer {
        return Err(FundError::MissingRequiredSignature);
    }
    check_transfer_accounts(fund, user_info, accounts, true)?;
    if user_info.withdrawal_request.amount != 0 || user_info.deposit_request.amount != 0 {
        return Err(FundError::InvalidArgument);
    }
    let balance = accounts.user_token_account.amount;
    let fee_rate = fund_info.deposit_schedule.fee;
    let (net, fee) = if amount == 0 {
        split_balance(balance, fee_rate)
    } else {
        split_amount(amount, fee_rate)
    };
    if net == 0 || (net as u128) + (fee as u128) > balance as u128 {
        return Err(FundError::InsufficientFunds);
    }
    let cfg = fund_info.assets_config;
    let value = get_asset_value_usd(net, accounts.custody_token.decimals, cfg.max_price_error, cfg.max_price_age_sec, &accounts.oracle, clock.slot)?;
    let limit = fund_info.deposit_schedule.limit_usd;
    if limit > 0 && limit < value {
        return Err(FundError::Custom(ERR_DEPOSIT_LIMIT));
    }
    if !fund_info.deposit_schedule.approval_required {
        let (minted, info2) = complete_deposit(fund, fund_info, accounts, net, value, now)?;
        let actions = make_deposit_actions(accounts, accounts.user, net, fee, minted);
        *fund_info = info2;
        user_info.last_deposit = FundUserAction { time: now, amount: net };
        user_info.deposit_request = FundUserAction { time: 0, amount: 0 };
        user_info.deny_reason = DenyReason::empty();
        Ok(actions)
    } else {
        let total = net + fee;
        let mut actions: Vec<TokenAction> = Vec::new();
        actions.push(TokenAction::Approve {
            account: accounts.user_token_account.address,
            delegate: accounts.fund_authority,
            owner: accounts.user,
            amount: total,
        });
        user_info.deposit_request = FundUserAction { time: now, amount: total };
        user_info.deny_reason = DenyReason::empty();
        assert(actions@ =~= seq![TokenAction::Approve {
            account: accounts.user_token_account.address, delegate: accounts.fund_authority,
            owner: accounts.user, amount: total }]);
        Ok(actions)
    }
}

/// What an approval of a pending deposit decides: `(net, fee, minted, record)`.
/// The approved amount is the pending one, or `amount` where that is smaller and
/// not zero; the whole request is cleared either way.
pub open spec fn approve_deposit_outcome(fund: Fund, info: FundInfo, user_info: FundUserInfo, a: TransferAccounts, amount: u64, clock: Clock) -> Result<(u64, u64, u64, FundInfo), FundError> {
    if info.liquidation_start_time > 0 {
        Err(FundError::InvalidArgument)
    } else {
        match transfer_accounts_check(fund, user_info, a, true) {
            Err(e) => Err(e),
            Ok(_) => if user_info.deposit_request.amount == 0 {
                Err(FundError::InvalidArgument)
            } else {
                let pending = user_info.deposit_request.amount;
                let approved = if amount == 0 || pending <= amount { pending } else { amount };
                let fee = fee_of(approved as int, info.deposit_schedule.fee as int);
                let net = approved - fee;
                if net == 0 {
                    Err(FundError::InsufficientFunds)
                } else {
                    let cfg = info.assets_config;
                    match asset_value_result(net as u64, a.custody_token.decimals, cfg.max_price_error, cfg.max_price_age_sec, a.oracle, clock.slot) {
                        Err(e) => Err(e),
                        Ok(value) => match deposit_completion(fund, info, a, net as u64, value, clock.unix_timestamp) {
                            Err(e) => Err(e),
                            Ok((minted, info2)) => Ok((net as u64, fee as u64, minted,
                                FundInfo { admin_action_time: clock.unix_timestamp, ..info2 })),
                        },
                    }
                }
            },
        }
    }
}

/// Approves the user's pending deposit: the tokens move to custody through the
/// fund's delegation, fund tokens are minted, and the request is cleared. A partial
/// approval (`amount` below the pending amount) clears the whole request too; what
/// was not approved stays delegated until the user cancels. On any failure nothing
/// changes.
#[verifier::rlimit(50)]
pub fn approve_deposit(
    fund: &Fund,
    fund_info: &mut FundInfo,
    user_info: &mut FundUserInfo,
    accounts: &TransferAccounts,
    amount: u64,
    clock: &Clock,
) -> (r: Result<Vec<TokenAction>, FundError>)
    requires
        old(fund_info).wf(),
    ensures
        final(fund_info).wf(),
        same_identity(*final(user_info), *old(user_info)),
        old(user_info).exclusive() ==> final(user_info).exclusive(),
        match approve_deposit_outcome(*fund, *old(fund_info), *old(user_info), *accounts, amount, *clock) {
            Err(e) => r == Err::<Vec<TokenAction>, FundError>(e) && *final(fund_info) == *old(fund_info)
                && *final(user_info) == *old(user_info),
            Ok((net, fee, minted, info)) => {
                &&& r matches Ok(v) && v@ == deposit_actions(*accounts, fund.fund_authority, net, fee, minted)
                &&& *final(fund_info) == info
                &&& final(user_info).last_deposit == FundUserAction { time: old(user_info).deposit_request.time, amount: net }
                &&& final(user_info).deposit_request == FundUserAction { time: 0, amount: 0 }
                &&& final(user_info).withdrawal_request == old(user_info).withdrawal_request
                &&& final(user_info).last_withdrawal == old(user_info).last_withdrawal
                &&& final(user_info).deny_reason@ == no_reason()
            },
        },
{
    let now = clock.unix_timestamp;
    if fund_info.liquidation_start_time > 0 {
        return Err(FundError::InvalidArgument);
    }
    check_transfer_accounts(fund, user_info, accounts, true)?;
    let pending = user_info.deposit_request.amount;
    if pending == 0 {
        return Err(FundError::InvalidArgument);
    }
    let approved = if amount == 0 || pending <= amount { pending } else { amount };
    let (net, fee) = split_amount(approved, fund_info.deposit_schedule.fee);
    if net == 0 {
        return Err(FundError::InsufficientFunds);
    }
    let cfg = fund_info.assets_config;
    let value = get_asset_value_usd(net, accounts.custody_token.decimals, cfg.max_price_error, cfg.max_price_age_sec, &accounts.oracle, clock.slot)?;
    let (minted, info2) = complete_deposit(fund, fund_info, accounts, net, value, now)?;
    let actions = make_deposit_actions(accounts, fund.fund_authority, net, fee, minted);
    *fund_info = FundInfo { admin_action_time: now, ..info2 };
    user_info.last_deposit = FundUserAction { time: user_info.deposit_request.time, amount: net };
    user_info.deposit_request = FundUserAction { time: 0, amount: 0 };
    user_info.deny_reason = DenyReason::empty();
    Ok(actions)
}

/// Denies the user's pending deposit: the request moves to `last_deposit`, is
/// cleared, and `deny_reason` is recorded. No tokens move. Fails, changing nothing,
/// on a wrong user-info account or when no deposit is pending.
pub fn deny_deposit(
    fund: &Fund,
    fund_info: &mut FundInfo,
    user_info: &mut FundUserInfo,
    user: &Address,
    user_info_key: &Address,
    custody_token: &Token,
    deny_reason: &DenyReason,
    clock: &Clock,
) -> (r: Result<(), FundError>)
    ensures
        same_identity(*final(user_info), *old(user_info)),
        old(user_info).exclusive() ==> final(user_info).exclusive(),
        match user_info_check(*fund, *custody_token, *old(user_info), *user, *user_info_key) {
            Err(e) => r == Err::<(), FundError>(e),
            Ok(_) => if old(user_info).deposit_request.amount == 0 {
                r == Err::<(), FundError>(FundError::InvalidArgument)
            } else {
                r is Ok
            },
        },
        r is Err ==> *final(fund_info) == *old(fund_info) && *final(user_info) == *old(user_info),
        r is Ok ==> {
            &&& *final(fund_info) == FundInfo { admin_action_time: clock.unix_timestamp, ..*old(fund_info) }
            &&& final(user_info).last_deposit == old(user_info).deposit_request
            &&& final(user_info).deposit_request == FundUserAction { time: 0, amount: 0 }
            &&& final(user_info).withdrawal_request == old(user_info).withdrawal_request
            &&& final(user_info).last_withdrawal == old(user_info).last_withdrawal
            &&& final(user_info).deny_reason == *deny_reason
        },
{
    check_user_info_account(fund, custody_token, user_info, user, user_info_key)?;
    if user_info.deposit_request.amount == 0 {
        return Err(FundError::InvalidArgument);
    }
    fund_info.admin_action_time = clock.unix_timestamp;
    user_info.last_deposit = user_info.deposit_request;
    user_info.deposit_request = FundUserAction { time: 0, amount: 0 };
    user_info.deny_reason = *deny_reason;
    Ok(())
}

/// Cancels the user's pending deposit: the delegation on `user_token_account` is
/// revoked and the request cleared. Fails, changing nothing, without the user's
/// signature, on a wrong user-info account, or when no deposit is pending.
pub fn cancel_deposit(
    fund: &Fund,
    user_info: &mut FundUserInfo,
    user: &Address,
    user_is_signer: bool,
    user_info_key: &Address,
    custody_token: &Token,
    user_token_account: &Address,
) -> (r: Result<Vec<TokenAction>, FundError>)
    ensures
        same_identity(*final(user_info), *old(user_info)),
        old(user_info).exclusive() ==> final(user_info).exclusive(),
        !user_is_signer ==> r == Err::<Vec<TokenAction>, FundError>(FundError::MissingRequiredSignature),
        user_is_signer ==> match user_info_check(*fund, *custody_token, *old(user_info), *user, *user_info_key) {
            Err(e) => r == Err::<Vec<TokenAction>, FundError>(e),
            Ok(_) => if old(user_info).deposit_request.amount == 0 {
                r == Err::<Vec<TokenAction>, FundError>(FundError::InvalidArgument)
            } else {
                r is Ok
            },
        },
        r is Err ==> *final(user_info) == *old(user_info),
        r is Ok ==> {
            &&& r.unwrap()@ == seq![TokenAction::Revoke { account: *user_token_account, owner: *user }]
            &&& final(user_info).deposit_request == FundUserAction { time: 0, amount: 0 }
            &&& final(user_info).last_deposit == old(user_info).last_deposit
            &&& final(user_info).withdrawal_request == old(user_info).withdrawal_request
            &&& final(user_info).last_withdrawal == old(user_info).last_withdrawal
            &&& final(user_info).deny_reason@ == no_reason()
        },
{
    if !user_is_signer {
        return Err(FundError::MissingRequiredSignature);
    }
    check_user_info_account(fund, custody_token, user_info, user, user_info_key)?;
    let mut actions: Vec<TokenAction> = Vec::new();
    if user_info.deposit_request.amount == 0 {
        return Err(FundError::InvalidArgument);
    }
    actions.push(TokenAction::Revoke { account: *user_token_account, owner: *user });
    user_info.deposit_request = FundUserAction { time: 0, amount: 0 };
    user_info.deny_reason = DenyReason::empty();
    assert(actions@ =~= seq![TokenAction::Revoke { account: *user_token_account, owner: *user }]);
    Ok(actions)
}

} // verus!
