//! Withdrawal workflow: fund tokens are valued as a share of the fund's assets,
//! that value is turned back into custody tokens through the oracle, and the fund
//! tokens are burned.
use vstd::prelude::*;
use crate::action::{Clock, TokenAction};
use crate::address::Address;
use crate::deposit::{check_transfer_accounts, no_reason, request_split, same_identity, transfer_accounts_check, TransferAccounts};
use crate::error::{FundError, ERR_WITHDRAWALS_NOT_ALLOWED, ERR_WITHDRAWAL_LIMIT};
use crate::limits::{assets_update_check, check_assets_update_time};
use crate::math::{fee_of, get_share_value_usd, share_value, split_amount, split_balance};
use crate::oracle::{asset_tokens_result, get_asset_value_tokens};
use crate::state::{DenyReason, Fund, FundInfo, FundUserAction, FundUserInfo, Token};
use crate::validate::{check_fund_token_mint, check_user_info_account, fund_token_mint_check, user_info_check};

verus! {

/// The payout of a withdrawal worth `value`: custody tokens for that value, less
/// the fee (kept in the fee account), after the fund-token mint check; gives
/// `(paid_out, fee_tokens, record)`. The tracked assets drop by `value`, but not
/// below zero.
pub open spec fn withdrawal_completion(fund: Fund, info: FundInfo, a: TransferAccounts, value: u64, fee_rate: u64, clock: Clock) -> Result<(u64, u64, FundInfo), FundError> {
    let cfg = info.assets_config;
    match asset_tokens_result(value, a.custody_token.decimals, cfg.max_price_error, cfg.max_price_age_sec, a.oracle, clock.slot) {
        Err(e) => Err(e),
        Ok(tokens) => {
            let fee_tokens = fee_of(tokens as int, fee_rate as int);
            let paid = tokens - fee_tokens;
            if paid == 0 {
                Err(FundError::InsufficientFunds)
            } else if tokens > a.custody_account.amount {
                Err(FundError::InsufficientFunds)
            } else {
                match fund_token_mint_check(fund, a.fund_token_mint) {
                    Err(e) => Err(e),
                    Ok(_) => if info.amount_removed_usd + value > u64::MAX {
                        Err(FundError::ArithmeticOverflow)
                    } else {
                        Ok((paid as u64, fee_tokens as u64, FundInfo {
                            amount_removed_usd: (info.amount_removed_usd + value) as u64,
                            current_assets_usd: if info.current_assets_usd > value { (info.current_assets_usd - value) as u64 } else { 0 },
                            ..info
                        }))
                    },
                }
            }
        },
    }
}

fn complete_withdrawal(fund: &Fund, info: &FundInfo, a: &TransferAccounts, value: u64, fee_rate: u64, clock: &Clock) -> (r: Result<(u64, u64, FundInfo), FundError>)
    requires
        fee_rate <= crate::state::FEE_SCALE,
    ensures
        r == withdrawal_completion(*fund, *info, *a, value, fee_rate, *clock),
{
    let cfg = info.assets_config;
    let tokens = get_asset_value_tokens(value, a.custody_token.decimals, cfg.max_price_error, cfg.max_price_age_sec, &a.oracle, clock.slot)?;
    let (paid, fee_tokens) = split_amount(tokens, fee_rate);
    if paid == 0 {
        return Err(FundError::InsufficientFunds);
    }
    if tokens > a.custody_account.amount {
        return Err(FundError::InsufficientFunds);
    }
    check_fund_token_mint(fund, &a.fund_token_mint)?;
    let removed = match info.amount_removed_usd.checked_add(value) {
        Some(v) => v,
        None => return Err(FundError::ArithmeticOverflow),
    };
    let current = if info.current_assets_usd > value { info.current_assets_usd - value } else { 0 };
    Ok((paid, fee_tokens, FundInfo { amount_removed_usd: removed, current_assets_usd: current, ..*info }))
}

/// Custody tokens to the user (the fee to the fee account, where there is one),
/// both signed by the fund's authority, then the fund tokens burned.
pub open spec fn withdrawal_actions(a: TransferAccounts, fund_authority: Address, burn_authority: Address, paid: u64, fee_tokens: u64, burned: u64) -> Seq<TokenAction> {
    seq![TokenAction::Transfer { from: a.custody_account.address, to: a.user_token_account.address, authority: fund_authority, amount: paid }]
        + (if fee_tokens > 0 {
            seq![TokenAction::Transfer { from: a.custody_account.address, to: a.custody_fees_account.address, authority: fund_authority, amount: fee_tokens }]
        } else {
            Seq::empty()
        })
        + seq![TokenAction::Burn { from: a.user_fund_token_account.unwrap().address, mint: a.fund_token_mint, authority: burn_authority, amount: burned }]
}

fn make_withdrawal_actions(a: &TransferAccounts, fund_authority: Address, burn_authority: Address, paid: u64, fee_tokens: u64, burned: u64) -> (r: Vec<TokenAction>)
    requires
        a.user_fund_token_account is Some,
    ensures
        r@ == withdrawal_actions(*a, fund_authority, burn_authority, paid, fee_tokens, burned),
{
    let mut v: Vec<TokenAction> = Vec::new();
    v.push(TokenAction::Transfer { from: a.custody_account.address, to: a.user_token_account.address, authority: fund_authority, amount: paid });
    if fee_tokens > 0 {
        v.push(TokenAction::Transfer { from: a.custody_account.address, to: a.custody_fees_account.address, authority: fund_authority, amount: fee_tokens });
    }
    let from = match &a.user_fund_token_account {
        Some(t) => t.address,
        None => a.user_token_account.address,
    };
    v.push(TokenAction::Burn { from, mint: a.fund_token_mint, authority: burn_authority, amount: burned });
    assert(v@ =~= withdrawal_actions(*a, fund_authority, burn_authority, paid, fee_tokens, burned));
    v
}

/// How a withdrawal request that passes its checks is carried out.
pub enum WithdrawalOutcome {
    /// Performed at once.
    Immediate { net: u64, fee: u64, paid: u64, fee_tokens: u64, info: FundInfo },
    /// Left for approval; the fund is made delegate for `net + fee` fund tokens.
    Pending { net: u64, fee: u64 },
}

/// What a withdrawal request decides, in the order of its checks.
pub open spec fn request_withdrawal_outcome(fund: Fund, info: FundInfo, user_info: FundUserInfo, a: TransferAccounts, amount: u64, clock: Clock) -> Result<WithdrawalOutcome, FundError> {
    if !FundInfo::in_window(info.withdrawal_schedule, clock.unix_timestamp) {
        Err(FundError::Custom(ERR_WITHDRAWALS_NOT_ALLOWED))
    } else if !a.user_is_signer {
        Err(FundError::MissingRequiredSignature)
    } else {
        match transfer_accounts_check(fund, user_info, a, false) {
            Err(e) => Err(e),
            Ok(_) => if user_info.withdrawal_request.amount != 0 || user_info.deposit_request.amount != 0 {
                Err(FundError::InvalidArgument)
            } else if a.user_fund_token_account is None {
                Err(FundError::InvalidAccountData)
            } else {
                let balance = a.user_fund_token_account.unwrap().amount;
                let (net, fee) = request_split(amount, balance, info.withdrawal_schedule.fee);
                if net == 0 || net + fee > balance {
                    Err(FundError::InsufficientFunds)
                } else {
                    match assets_update_check(info.assets_update_time, info.assets_config.max_update_age_sec, clock.unix_timestamp) {
                        Err(e) => Err(e),
                        Ok(_) => if net + fee > a.fund_token_supply {
                            Err(FundError::InsufficientFunds)
                        } else {
                            let value = share_value(info.current_assets_usd as int, net + fee, a.fund_token_supply as int);
                            if info.withdrawal_schedule.limit_usd > 0 && info.withdrawal_schedule.limit_usd < value {
                                Err(FundError::Custom(ERR_WITHDRAWAL_LIMIT))
                            } else if info.withdrawal_schedule.approval_required {
                                Ok(WithdrawalOutcome::Pending { net: net as u64, fee: fee as u64 })
                            } else {
                                match withdrawal_completion(fund, info, a, value as u64, info.withdrawal_schedule.fee, clock) {
                                    Err(e) => Err(e),
                                    Ok((paid, fee_tokens, info2)) => Ok(WithdrawalOutcome::Immediate {
                                        net: net as u64, fee: fee as u64, paid, fee_tokens, info: info2 }),
                                }
                            }
                        },
                    }
                }
            },
        }
    }
}

/// Requests a withdrawal of `amount` fund tokens (0 = the whole fund-token balance,
/// less the fee). Without approval custody tokens are paid out at once and the fund
/// tokens burned; with approval the fund becomes delegate of the fund tokens and the
/// request is recorded. On any failure nothing changes.
#[verifier::rlimit(60)]
pub fn request_withdrawal(
    fund: &Fund,
    fund_info: &mut FundInfo,
    user_info: &mut FundUserInfo,
    accounts: &TransferAccounts,
    amount: u64,
    clock: &Clock,
) -> (r: Result<Vec<TokenAction>, FundError>)
    requires
        old(fund_info).wf(),
    ensures
        final(fund_info).wf(),
        same_identity(*final(user_info), *old(user_info)),
        old(user_info).exclusive() ==> final(user_info).exclusive(),
        match request_withdrawal_outcome(*fund, *old(fund_info), *old(user_info), *accounts, amount, *clock) {
            Err(e) => r == Err::<Vec<TokenAction>, FundError>(e) && *final(fund_info) == *old(fund_info)
                && *final(user_info) == *old(user_info),
            Ok(WithdrawalOutcome::Immediate { net, fee, paid, fee_tokens, info }) => {
                &&& r matches Ok(v) && v@ == withdrawal_actions(*accounts, fund.fund_authority, accounts.user, paid, fee_tokens, (net + fee) as u64)
                &&& *final(fund_info) == info
                &&& final(user_info).last_withdrawal == FundUserAction { time: clock.unix_timestamp, amount: net }
                &&& final(user_info).withdrawal_request == FundUserAction { time: 0, amount: 0 }
                &&& final(user_info).deposit_request == old(user_info).deposit_request
                &&& final(user_info).last_deposit == old(user_info).last_deposit
                &&& final(user_info).deny_reason@ == no_reason()
            },
            Ok(WithdrawalOutcome::Pending { net, fee }) => {
                &&& r matches Ok(v) && v@ == seq![TokenAction::Approve {
                    account: accounts.user_fund_token_account.unwrap().address, delegate: accounts.fund_authority,
                    owner: accounts.user, amount: (net + fee) as u64 }]
                &&& *final(fund_info) == *old(fund_info)
                &&& final(user_info).withdrawal_request == FundUserAction { time: clock.unix_timestamp, amount: (net + fee) as u64 }
                &&& final(user_info).last_withdrawal == old(user_info).last_withdrawal
                &&& final(user_info).deposit_request == old(user_info).deposit_request
                &&& final(user_info).last_deposit == old(user_info).last_deposit
                &&& final(user_info).deny_reason@ == no_reason()
            },
        },
{
    let now = clock.unix_timestamp;
    if !fund_info.is_withdrawal_allowed(now) {
        return Err(FundError::Custom(ERR_WITHDRAWALS_NOT_ALLOWED));
    }
    if !accounts.user_is_signer {
        return Err(FundError::MissingRequiredSignature);
    }
    check_transfer_accounts(fund, user_info, accounts, false)?;
    if user_info.withdrawal_request.amount != 0 || user_info.deposit_request.amount != 0 {
        return Err(FundError::InvalidArgument);
    }
    let ft_account = match &accounts.user_fund_token_account {
        Some(t) => *t,
        None => return Err(FundError::InvalidAccountData),
    };
    let balance = ft_account.amount;
    let fee_rate = fund_info.withdrawal_schedule.fee;
    let (net, fee) = if amount == 0 {
        split_balance(balance, fee_rate)
    } else {
        split_amount(amount, fee_rate)
    };
    if net == 0 || (net as u128) + (fee as u128) > balance as u128 {
        return Err(FundError::InsufficientFunds);
    }
    let total = net + fee;
    check_assets_update_time(fund_info.assets_update_time, fund_info.assets_config.max_update_age_sec, now)?;
    let supply = accounts.fund_token_supply;
    if total > supply {
        return Err(FundError::InsufficientFunds);
    }
    let value = get_share_value_usd(fund_info.current_assets_usd, total, supply);
    let limit = fund_info.withdrawal_schedule.limit_usd;
    if limit > 0 && limit < value {
        return Err(FundError::Custom(ERR_WITHDRAWAL_LIMIT));
    }
    if !fund_info.withdrawal_schedule.approval_required {
        let (paid, fee_tokens, info2) = complete_withdrawal(fund, fund_info, accounts, value, fee_rate, clock)?;
        let actions = make_withdrawal_actions(accounts, fund.fund_authority, accounts.user, paid, fee_tokens, total);
        *fund_info = info2;
        user_info.last_withdrawal = FundUserAction { time: now, amount: net };
        user_info.withdrawal_request = FundUserAction { time: 0, amount: 0 };
        user_info.deny_reason = DenyReason::empty();
        Ok(actions)
    } else {
        let mut actions: Vec<TokenAction> = Vec::new();
        actions.push(TokenAction::Approve {
            account: ft_account.address,
            delegate: accounts.fund_authority,
            owner: accounts.user,
            amount: total,
        });
        user_info.withdrawal_request = FundUserAction { time: now, amount: total };
        user_info.deny_reason = DenyReason::empty();
        assert(actions@ =~= seq![TokenAction::Approve {
            account: ft_account.address, delegate: accounts.fund_authority,
            owner: accounts.user, amount: total }]);
        Ok(actions)
    }
}

/// What an approval of a pending withdrawal decides: `(net, approved, paid,
/// fee_tokens, record)`. The approved amount is the pending one, or `amount` where
/// that is smaller and not zero; the whole request is cleared either way.
pub open spec fn approve_withdrawal_outcome(fund: Fund, info: FundInfo, user_info: FundUserInfo, a: TransferAccounts, amount: u64, clock: Clock) -> Result<(u64, u64, u64, u64, FundInfo), FundError> {
    if info.liquidation_start_time > 0 {
        Err(FundError::InvalidArgument)
    } else {
        match transfer_accounts_check(fund, user_info, a, false) {
            Err(e) => Err(e),
            Ok(_) => if user_info.withdrawal_request.amount == 0 {
                Err(FundError::InvalidArgument)
            } else if a.user_fund_token_account is None {
                Err(FundError::InvalidAccountData)
            } else {
                let pending = user_info.withdrawal_request.amount;
                let approved = if amount == 0 || pending <= amount { pending } else { amount };
                let fee = fee_of(approved as int, info.withdrawal_schedule.fee as int);
                let net = approved - fee;
                if net == 0 {
                    Err(FundError::InsufficientFunds)
                } else {
                    match assets_update_check(info.assets_update_time, info.assets_config.max_update_age_sec, clock.unix_timestamp) {
                        Err(e) => Err(e),
                        Ok(_) => if approved > a.fund_token_supply {
                            Err(FundError::InsufficientFunds)
                        } else {
                            let value = share_value(info.current_assets_usd as int, approved as int, a.fund_token_supply as int);
                            match withdrawal_completion(fund, info, a, value as u64, info.withdrawal_schedule.fee, clock) {
                                Err(e) => Err(e),
                                Ok((paid, fee_tokens, info2)) => Ok((net as u64, approved, paid, fee_tokens,
                                    FundInfo { admin_action_time: clock.unix_timestamp, ..info2 })),
                            }
                        },
                    }
                }
            },
        }
    }
}

/// Approves the user's pending withdrawal: custody tokens are paid out, the fund
/// tokens burned through the fund's delegation, and the request cleared. A partial
/// approval clears the whole request too; what was not approved stays delegated
/// until the user cancels. On any failure nothing changes.
#[verifier::rlimit(60)]
pub fn approve_withdrawal(
    fund: &Fund,
    fund_info: &mut FundInfo,
    user_info: &mut FundUserInfo,
    accounts: &TransferAccounts,
    amount: u64,
    clock: &Clock,
) -> (r: Result<Vec<TokenAction>, FundError>)
    requires
        old(fund_info).wf(),
    ensures
        final(fund_info).wf(),
        same_identity(*final(user_info), *old(user_info)),
        old(user_info).exclusive() ==> final(user_info).exclusive(),
        match approve_withdrawal_outcome(*fund, *old(fund_info), *old(user_info), *accounts, amount, *clock) {
            Err(e) => r == Err::<Vec<TokenAction>, FundError>(e) && *final(fund_info) == *old(fund_info)
                && *final(user_info) == *old(user_info),
            Ok((net, approved, paid, fee_tokens, info)) => {
                &&& r matches Ok(v) && v@ == withdrawal_actions(*accounts, fund.fund_authority, fund.fund_authority, paid, fee_tokens, approved)
                &&& *final(fund_info) == info
                &&& final(user_info).last_withdrawal == FundUserAction { time: old(user_info).withdrawal_request.time, amount: net }
                &&& final(user_info).withdrawal_request == FundUserAction { time: 0, amount: 0 }
                &&& final(user_info).deposit_request == old(user_info).deposit_request
                &&& final(user_info).last_deposit == old(user_info).last_deposit
                &&& final(user_info).deny_reason@ == no_reason()
            },
        },
{
    let now = clock.unix_timestamp;
    if fund_info.liquidation_start_time > 0 {
        return Err(FundError::InvalidArgument);
    }
    check_transfer_accounts(fund, user_info, accounts, false)?;
    let pending = user_info.withdrawal_request.amount;
    if pending == 0 {
        return Err(FundError::InvalidArgument);
    }
    if accounts.user_fund_token_account.is_none() {
        return Err(FundError::InvalidAccountData);
    }
    let approved = if amount == 0 || pending <= amount { pending } else { amount };
    let fee_rate = fund_info.withdrawal_schedule.fee;
    let (net, _fee) = split_amount(approved, fee_rate);
    if net == 0 {
        return Err(FundError::InsufficientFunds);
    }
    check_assets_update_time(fund_info.assets_update_time, fund_info.assets_config.max_update_age_sec, now)?;
    let supply = accounts.fund_token_supply;
    if approved > supply {
        return Err(FundError::InsufficientFunds);
    }
    let value = get_share_value_usd(fund_info.current_assets_usd, approved, supply);
    let (paid, fee_tokens, info2) = complete_withdrawal(fund, fund_info, accounts, value, fee_rate, clock)?;
    let actions = make_withdrawal_actions(accounts, fund.fund_authority, fund.fund_authority, paid, fee_tokens, approved);
    *fund_info = FundInfo { admin_action_time: now, ..info2 };
    user_info.last_withdrawal = FundUserAction { time: user_info.withdrawal_request.time, amount: net };
    user_info.withdrawal_request = FundUserAction { time: 0, amount: 0 };
    user_info.deny_reason = DenyReason::empty();
    Ok(actions)
}

/// Denies the user's pending withdrawal: the request moves to `last_withdrawal`,
/// is cleared, and `deny_reason` is recorded. No tokens move. Fails, changing
/// nothing, on a wrong user-info account or when no withdrawal is pending.
pub fn deny_withdrawal(
    fund: &Fund,
    fund_info: &mut FundInfo,
    user_info: &mut FundUserInfo,
    user: &Address,
    user_info_key: &Address,
    custody_token: &Token,
    deny_reason: &DenyReason,
    clock: &Clock,
) -> (r: Result<(), FundError>)
    ensures
        same_identity(*final(user_info), *old(user_info)),
        old(user_info).exclusive() ==> final(user_info).exclusive(),
        match user_info_check(*fund, *custody_token, *old(user_info), *user, *user_info_key) {
            Err(e) => r == Err::<(), FundError>(e),
            Ok(_) => if old(user_info).withdrawal_request.amount == 0 {
                r == Err::<(), FundError>(FundError::InvalidArgument)
            } else {
                r is Ok
            },
        },
        r is Err ==> *final(fund_info) == *old(fund_info) && *final(user_info) == *old(user_info),
        r is Ok ==> {
            &&& *final(fund_info) == FundInfo { admin_action_time: clock.unix_timestamp, ..*old(fund_info) }
            &&& final(user_info).last_withdrawal == old(user_info).withdrawal_request
            &&& final(user_info).withdrawal_request == FundUserAction { time: 0, amount: 0 }
            &&& final(user_info).deposit_request == old(user_info).deposit_request
            &&& final(user_info).last_deposit == old(user_info).last_deposit
            &&& final(user_info).deny_reason == *deny_reason
        },
{
    check_user_info_account(fund, custody_token, user_info, user, user_info_key)?;
    if user_info.withdrawal_request.amount == 0 {
        return Err(FundError::InvalidArgument);
    }
    fund_info.admin_action_time = clock.unix_timestamp;
    user_info.last_withdrawal = user_info.withdrawal_request;
    user_info.withdrawal_request = FundUserAction { time: 0, amount: 0 };
    user_info.deny_reason = *deny_reason;
    Ok(())
}

/// Cancels the user's pending withdrawal: the delegation on the user's fund-token
/// account is revoked and the request cleared. Fails, changing nothing, without the
/// user's signature, on a wrong user-info account, or when no withdrawal is pending.
pub fn cancel_withdrawal(
    fund: &Fund,
    user_info: &mut FundUserInfo,
    user: &Address,
    user_is_signer: bool,
    user_info_key: &Address,
    custody_token: &Token,
    user_fund_token_account: &Address,
) -> (r: Result<Vec<TokenAction>, FundError>)
    ensures
        same_identity(*final(user_info), *old(user_info)),
        old(user_info).exclusive() ==> final(user_info).exclusive(),
        !user_is_signer ==> r == Err::<Vec<TokenAction>, FundError>(FundError::MissingRequiredSignature),
        user_is_signer ==> match user_info_check(*fund, *custody_token, *old(user_info), *user, *user_info_key) {
            Err(e) => r == Err::<Vec<TokenAction>, FundError>(e),
            Ok(_) => if old(user_info).withdrawal_request.amount == 0 {
                r == Err::<Vec<TokenAction>, FundError>(FundError::InvalidArgument)
            } else {
                r is Ok
            },
        },
        r is Err ==> *final(user_info) == *old(user_info),
        r is Ok ==> {
            &&& r.unwrap()@ == seq![TokenAction::Revoke { account: *user_fund_token_account, owner: *user }]
            &&& final(user_info).withdrawal_request == FundUserAction { time: 0, amount: 0 }
            &&& final(user_info).last_withdrawal == old(user_info).last_withdrawal
            &&& final(user_info).deposit_request == old(user_info).deposit_request
            &&& final(user_info).last_deposit == old(user_info).last_deposit
            &&& final(user_info).deny_reason@ == no_reason()
        },
{
    if !user_is_signer {
        return Err(FundError::MissingRequiredSignature);
    }
    check_user_info_account(fund, custody_token, user_info, user, user_info_key)?;
    let mut actions: Vec<TokenAction> = Vec::new();
    if user_info.withdrawal_request.amount == 0 {
        return Err(FundError::InvalidArgument);
    }
    actions.push(TokenAction::Revoke { account: *user_fund_token_account, owner: *user });
    user_info.withdrawal_request = FundUserAction { time: 0, amount: 0 };
    user_info.deny_reason = DenyReason::empty();
    assert(actions@ =~= seq![TokenAction::Revoke { account: *user_fund_token_account, owner: *user }]);
    Ok(actions)
}

} // verus!
