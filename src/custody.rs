//! Custody lifecycle (add, remove, refresh) and movement of assets between the
//! deposit/withdrawal custody and the trading custody of a token.
use vstd::prelude::*;
use crate::action::{Clock, TokenAction};
use crate::address::{find_bump, find_check, found_address, seeds_view, Address};
use crate::error::FundError;
use crate::state::{Fund, FundAssets, FundCustody, FundCustodyType, FundInfo, Token, TokenAccount};
use crate::validate::{
    build_custody_seeds, check_custodies_assets_info, check_custody_account, custodies_assets_seeds,
    custody_account_check, custody_account_prefix, custody_account_prefix_bytes, custody_fees_prefix,
    custody_fees_prefix_bytes, custody_info_prefix, custody_info_prefix_bytes, custody_seeds,
};

verus! {

/// Creation or closing of a program-owned account.
#[derive(Clone, Debug)]
pub enum AccountAction {
    /// Create a record account owned by the program at `address`, derived from
    /// `seeds` and `bump`.
    CreateRecord { address: Address, seeds: Vec<Vec<u8>>, bump: u8 },
    /// Create a token account for `mint` at `address`, derived from `seeds` and
    /// `bump`, owned by the fund's authority.
    CreateTokenAccount { address: Address, mint: Address, seeds: Vec<Vec<u8>>, bump: u8 },
    /// Create the fund-token mint at `address` with `decimals`, derived from `seeds`
    /// and `bump`, with the fund's authority as mint authority.
    CreateMint { address: Address, decimals: u8, seeds: Vec<Vec<u8>>, bump: u8 },
    /// Close a token account held by the fund's authority.
    CloseTokenAccount { address: Address },
    /// Close a record account.
    CloseRecord { address: Address },
}

impl AccountAction {
    pub open spec fn target(self) -> Seq<u8> {
        match self {
            AccountAction::CreateRecord { address, .. } => address@,
            AccountAction::CreateTokenAccount { address, .. } => address@,
            AccountAction::CreateMint { address, .. } => address@,
            AccountAction::CloseTokenAccount { address } => address@,
            AccountAction::CloseRecord { address } => address@,
        }
    }

    pub open spec fn creates(self) -> bool {
        self is CreateRecord || self is CreateTokenAccount || self is CreateMint
    }
}

/// The set of existing accounts after `actions`, in order.
pub open spec fn accounts_after(existing: Set<Seq<u8>>, actions: Seq<AccountAction>) -> Set<Seq<u8>>
    decreases actions.len(),
{
    if actions.len() == 0 {
        existing
    } else {
        let a = actions.last();
        let before = accounts_after(existing, actions.drop_last());
        if a.creates() {
            before.insert(a.target())
        } else {
            before.remove(a.target())
        }
    }
}

/// `a` creates a record account at `address` from `seeds` and `bump`.
pub open spec fn created_record(a: AccountAction, address: Address, seeds: Seq<Seq<u8>>, bump: u8) -> bool {
    a matches AccountAction::CreateRecord { address: x, seeds: s, bump: b }
        && x == address && seeds_view(s@) == seeds && b == bump
}

/// `a` creates a token account for `mint` at `address`, the address found for
/// `seeds`, with the bump it was found with.
pub open spec fn created_token_account(a: AccountAction, address: Address, mint: Address, seeds: Seq<Seq<u8>>, program_id: Seq<u8>) -> bool {
    a matches AccountAction::CreateTokenAccount { address: x, mint: m, seeds: s, bump: b }
        && x == address && m == mint && seeds_view(s@) == seeds && found_address(seeds, program_id, address@, b)
}

/// Accounts of an AddCustody instruction.
#[derive(Clone, Debug)]
pub struct AddCustodyAccounts {
    pub fund_metadata: Address,
    pub fund_authority: Address,
    pub custodies_assets_info: Address,
    pub custody_account: Address,
    pub custody_account_is_empty: bool,
    pub custody_fees_account: Address,
    pub custody_fees_account_is_empty: bool,
    pub custody_metadata: Address,
    pub custody_token_ref: Address,
    pub custody_token: Token,
    pub custody_token_mint: Address,
    pub oracle_key: Address,
}

/// The checks of an AddCustody, in order: the fund authority, the custody token
/// accounts are still empty, and the record, the two token accounts and the
/// custodies' integrity record are at the addresses found for their seeds.
pub open spec fn add_custody_check(fund: Fund, a: AddCustodyAccounts, custody_type: FundCustodyType) -> Result<(), FundError> {
    let name = a.custody_token.name@;
    let pid = fund.fund_program_id@;
    if a.fund_authority@ != fund.fund_authority@ {
        Err(FundError::InvalidArgument)
    } else if !(a.custody_account_is_empty && a.custody_fees_account_is_empty) {
        Err(FundError::AccountAlreadyInitialized)
    } else {
        match find_check(custody_seeds(custody_info_prefix(custody_type), name, fund.name@), pid, a.custody_metadata@) {
            Err(e) => Err(e),
            Ok(_) => match find_check(custody_seeds(custody_account_prefix(custody_type), name, fund.name@), pid, a.custody_account@) {
                Err(e) => Err(e),
                Ok(_) => match find_check(custody_seeds(custody_fees_prefix(custody_type), name, fund.name@), pid, a.custody_fees_account@) {
                    Err(e) => Err(e),
                    Ok(_) => find_check(custodies_assets_seeds(fund.name@), pid, a.custodies_assets_info@),
                },
            },
        }
    }
}

/// Adds a custody of `custody_type` for a token: the custody record and its two
/// token accounts are created at the addresses found for their seeds, and the
/// custody set's integrity record is reset to await `target_hash`. Fails, changing
/// nothing, exactly when `add_custody_check` does. On success the record is
/// returned and the actions create the record, then the custody token account,
/// then the fee account.
#[verifier::rlimit(40)]
pub fn add_custody(
    fund: &Fund,
    fund_info: &mut FundInfo,
    custodies_assets: &mut FundAssets,
    accounts: &AddCustodyAccounts,
    target_hash: u64,
    custody_id: u32,
    custody_type: FundCustodyType,
    clock: &Clock,
) -> (r: Result<(FundCustody, Vec<AccountAction>), FundError>)
    ensures
        match add_custody_check(*fund, *accounts, custody_type) {
            Err(e) => r == Err::<(FundCustody, Vec<AccountAction>), FundError>(e)
                && *final(fund_info) == *old(fund_info) && *final(custodies_assets) == *old(custodies_assets),
            Ok(_) => r is Ok,
        },
        r matches Ok((custody, actions)) ==> {
            &&& found_address(custody_seeds(custody_info_prefix(custody_type), accounts.custody_token.name@, fund.name@),
                fund.fund_program_id@, accounts.custody_metadata@, custody.bump)
            &&& custody.fund_ref == accounts.fund_metadata && custody.custody_id == custody_id
            &&& custody.custody_type == custody_type && custody.token_ref == accounts.custody_token_ref
            &&& custody.address == accounts.custody_account && custody.fees_address == accounts.custody_fees_account
            &&& custody.pyth_price_info == accounts.oracle_key
            &&& custody.liquidation_id == 0 && custody.liquidation_token_amount == 0
            &&& actions@.len() == 3
            &&& created_record(actions@[0], accounts.custody_metadata,
                custody_seeds(custody_info_prefix(custody_type), accounts.custody_token.name@, fund.name@), custody.bump)
            &&& created_token_account(actions@[1], accounts.custody_account, accounts.custody_token_mint,
                custody_seeds(custody_account_prefix(custody_type), accounts.custody_token.name@, fund.name@), fund.fund_program_id@)
            &&& created_token_account(actions@[2], accounts.custody_fees_account, accounts.custody_token_mint,
                custody_seeds(custody_fees_prefix(custody_type), accounts.custody_token.name@, fund.name@), fund.fund_program_id@)
            &&& *final(custodies_assets) == FundAssets { current_hash: 0, target_hash }
            &&& *final(fund_info) == FundInfo { admin_action_time: clock.unix_timestamp, ..*old(fund_info) }
        },
{
    if !accounts.fund_authority.same(&fund.fund_authority) {
        return Err(FundError::InvalidArgument);
    }
    if !accounts.custody_account_is_empty || !accounts.custody_fees_account_is_empty {
        return Err(FundError::AccountAlreadyInitialized);
    }
    let token = &accounts.custody_token;
    let info_seeds = build_custody_seeds(custody_info_prefix_bytes(custody_type), &token.name, &fund.name);
    let bump = find_bump(&info_seeds, &fund.fund_program_id, &accounts.custody_metadata)?;
    let account_seeds = build_custody_seeds(custody_account_prefix_bytes(custody_type), &token.name, &fund.name);
    let account_bump = find_bump(&account_seeds, &fund.fund_program_id, &accounts.custody_account)?;
    let fees_seeds = build_custody_seeds(custody_fees_prefix_bytes(custody_type), &token.name, &fund.name);
    let fees_bump = find_bump(&fees_seeds, &fund.fund_program_id, &accounts.custody_fees_account)?;
    check_custodies_assets_info(fund, &accounts.custodies_assets_info)?;
    let custody = FundCustody {
        fund_ref: accounts.fund_metadata,
        custody_id,
        custody_type,
        token_ref: accounts.custody_token_ref,
        address: accounts.custody_account,
        fees_address: accounts.custody_fees_account,
        pyth_price_info: accounts.oracle_key,
        liquidation_id: 0,
        liquidation_token_amount: 0,
        bump,
    };
    let mut actions: Vec<AccountAction> = Vec::new();
    actions.push(AccountAction::CreateRecord { address: accounts.custody_metadata, seeds: info_seeds, bump });
    actions.push(AccountAction::CreateTokenAccount {
        address: accounts.custody_account, mint: accounts.custody_token_mint, seeds: account_seeds, bump: account_bump });
    actions.push(AccountAction::CreateTokenAccount {
        address: accounts.custody_fees_account, mint: accounts.custody_token_mint, seeds: fees_seeds, bump: fees_bump });
    custodies_assets.current_hash = 0;
    custodies_assets.target_hash = target_hash;
    fund_info.admin_action_time = clock.unix_timestamp;
    Ok((custody, actions))
}

/// Accounts of a RemoveCustody instruction.
#[derive(Clone, Debug)]
pub struct RemoveCustodyAccounts {
    pub fund_authority: Address,
    pub custodies_assets_info: Address,
    pub custody_account: TokenAccount,
    pub custody_fees_account: Address,
    pub custody_metadata: Address,
    pub custody: FundCustody,
    pub custody_token: Token,
}

/// The accounts a removal closes, in order: the two token accounts, then the record.
pub open spec fn remove_custody_actions(a: RemoveCustodyAccounts) -> Seq<AccountAction> {
    seq![
        AccountAction::CloseTokenAccount { address: a.custody_account.address },
        AccountAction::CloseTokenAccount { address: a.custody_fees_account },
        AccountAction::CloseRecord { address: a.custody_metadata },
    ]
}

/// Removes a custody: outside liquidation, with the fund's authority, and only for
/// the custody record and token accounts the fund derives for this token and type
/// (the fee account must be the record's, and the custodies' integrity record at
/// its found address), closes the two token accounts and the record and resets the
/// integrity record to await `target_hash`. On any failure nothing changes.
pub fn remove_custody(
    fund: &Fund,
    fund_info: &mut FundInfo,
    custodies_assets: &mut FundAssets,
    accounts: &RemoveCustodyAccounts,
    target_hash: u64,
    custody_type: FundCustodyType,
    clock: &Clock,
) -> (r: Result<Vec<AccountAction>, FundError>)
    ensures
        old(fund_info).liquidation_start_time > 0 ==> r == Err::<Vec<AccountAction>, FundError>(FundError::InvalidArgument),
        old(fund_info).liquidation_start_time <= 0 && accounts.fund_authority@ != fund.fund_authority@
            ==> r == Err::<Vec<AccountAction>, FundError>(FundError::InvalidArgument),
        old(fund_info).liquidation_start_time <= 0 && accounts.fund_authority@ == fund.fund_authority@ ==> match custody_account_check(
            *fund, accounts.custody_token, accounts.custody_account, accounts.custody_metadata, accounts.custody, custody_type) {
            Err(e) => r == Err::<Vec<AccountAction>, FundError>(e),
            Ok(_) => if accounts.custody.fees_address@ != accounts.custody_fees_account@ {
                r == Err::<Vec<AccountAction>, FundError>(FundError::InvalidArgument)
            } else {
                match find_check(custodies_assets_seeds(fund.name@), fund.fund_program_id@, accounts.custodies_assets_info@) {
                    Err(e) => r == Err::<Vec<AccountAction>, FundError>(e),
                    Ok(_) => r is Ok,
                }
            },
        },
        r is Err ==> *final(fund_info) == *old(fund_info) && *final(custodies_assets) == *old(custodies_assets),
        r matches Ok(actions) ==> {
            &&& custody_account_check(*fund, accounts.custody_token, accounts.custody_account, accounts.custody_metadata, accounts.custody, custody_type) is Ok
            &&& accounts.custody.fees_address@ == accounts.custody_fees_account@
            &&& actions@ == remove_custody_actions(*accounts)
            &&& *final(custodies_assets) == FundAssets { current_hash: 0, target_hash }
            &&& *final(fund_info) == FundInfo { admin_action_time: clock.unix_timestamp, ..*old(fund_info) }
        },
{
    if fund_info.liquidation_start_time > 0 {
        return Err(FundError::InvalidArgument);
    }
    if !accounts.fund_authority.same(&fund.fund_authority) {
        return Err(FundError::InvalidArgument);
    }
    check_custody_account(fund, &accounts.custody_token, &accounts.custody_account, &accounts.custody_metadata, &accounts.custody, custody_type)?;
    if !accounts.custody.fees_address.same(&accounts.custody_fees_account) {
        return Err(FundError::InvalidArgument);
    }
    check_custodies_assets_info(fund, &accounts.custodies_assets_info)?;
    let mut actions: Vec<AccountAction> = Vec::new();
    actions.push(AccountAction::CloseTokenAccount { address: accounts.custody_account.address });
    actions.push(AccountAction::CloseTokenAccount { address: accounts.custody_fees_account });
    actions.push(AccountAction::CloseRecord { address: accounts.custody_metadata });
    custodies_assets.current_hash = 0;
    custodies_assets.target_hash = target_hash;
    fund_info.admin_action_time = clock.unix_timestamp;
    assert(actions@ =~= remove_custody_actions(*accounts));
    Ok(actions)
}

/// Accounts of a LockAssets or UnlockAssets instruction.
#[derive(Clone, Debug)]
pub struct LockAccounts {
    pub fund_authority: Address,
    pub wd_custody_account: TokenAccount,
    pub wd_custody_metadata: Address,
    pub wd_custody: FundCustody,
    pub trading_custody_account: TokenAccount,
    pub trading_custody_metadata: Address,
    pub trading_custody: FundCustody,
    pub custody_token: Token,
}

/// Checks shared by lock and unlock: the fund authority, then both custodies.
pub open spec fn lock_accounts_check(fund: Fund, a: LockAccounts) -> Result<(), FundError> {
    if a.fund_authority@ != fund.fund_authority@ {
        Err(FundError::InvalidArgument)
    } else {
        match custody_account_check(fund, a.custody_token, a.wd_custody_account, a.wd_custody_metadata, a.wd_custody, FundCustodyType::DepositWithdraw) {
            Err(e) => Err(e),
            Ok(_) => custody_account_check(fund, a.custody_token, a.trading_custody_account, a.trading_custody_metadata, a.trading_custody, FundCustodyType::Trading),
        }
    }
}

fn check_lock_accounts(fund: &Fund, a: &LockAccounts) -> (r: Result<(), FundError>)
    ensures
        r == lock_accounts_check(*fund, *a),
{
    if !a.fund_authority.same(&fund.fund_authority) {
        return Err(FundError::InvalidArgument);
    }
    check_custody_account(fund, &a.custody_token, &a.wd_custody_account, &a.wd_custody_metadata, &a.wd_custody, FundCustodyType::DepositWithdraw)?;
    check_custody_account(fund, &a.custody_token, &a.trading_custody_account, &a.trading_custody_metadata, &a.trading_custody, FundCustodyType::Trading)
}

/// The amount a lock or unlock moves: `amount`, or the whole `balance` when it is 0.
pub open spec fn moved_amount(amount: u64, balance: u64) -> u64 {
    if amount > 0 { amount } else { balance }
}

/// Moves `amount` (0 = all) from the deposit/withdrawal custody to the trading
/// custody, signed by the fund's authority. Fails, changing nothing, in liquidation,
/// on wrong accounts, or when the amount is zero or more than the source holds.
pub fn lock_assets(
    fund: &Fund,
    fund_info: &mut FundInfo,
    accounts: &LockAccounts,
    amount: u64,
    clock: &Clock,
) -> (r: Result<Vec<TokenAction>, FundError>)
    ensures
        old(fund_info).liquidation_start_time > 0 ==> r == Err::<Vec<TokenAction>, FundError>(FundError::InvalidArgument),
        old(fund_info).liquidation_start_time <= 0 ==> match lock_accounts_check(*fund, *accounts) {
            Err(e) => r == Err::<Vec<TokenAction>, FundError>(e),
            Ok(_) => {
                let x = moved_amount(amount, accounts.wd_custody_account.amount);
                if x == 0 || x > accounts.wd_custody_account.amount {
                    r == Err::<Vec<TokenAction>, FundError>(FundError::InvalidArgument)
                } else {
                    &&& r matches Ok(v) && v@ == seq![TokenAction::Transfer {
                        from: accounts.wd_custody_account.address, to: accounts.trading_custody_account.address,
                        authority: fund.fund_authority, amount: x }]
                    &&& *final(fund_info) == FundInfo { admin_action_time: clock.unix_timestamp, ..*old(fund_info) }
                }
            },
        },
        r is Err ==> *final(fund_info) == *old(fund_info),
{
    if fund_info.liquidation_start_time > 0 {
        return Err(FundError::InvalidArgument);
    }
    check_lock_accounts(fund, accounts)?;
    let balance = accounts.wd_custody_account.amount;
    let x = if amount > 0 { amount } else { balance };
    if x == 0 || x > balance {
        return Err(FundError::InvalidArgument);
    }
    let mut actions: Vec<TokenAction> = Vec::new();
    actions.push(TokenAction::Transfer {
        from: accounts.wd_custody_account.address,
        to: accounts.trading_custody_account.address,
        authority: fund.fund_authority,
        amount: x,
    });
    fund_info.admin_action_time = clock.unix_timestamp;
    assert(actions@ =~= seq![TokenAction::Transfer {
        from: accounts.wd_custody_account.address, to: accounts.trading_custody_account.address,
        authority: fund.fund_authority, amount: x }]);
    Ok(actions)
}

/// Moves `amount` (0 = all) from the trading custody back to the
/// deposit/withdrawal custody, signed by the fund's authority; allowed during
/// liquidation. Fails, changing nothing, on wrong accounts, or when the amount is
/// zero or more than the source holds.
pub fn unlock_assets(
    fund: &Fund,
    fund_info: &mut FundInfo,
    accounts: &LockAccounts,
    amount: u64,
    clock: &Clock,
) -> (r: Result<Vec<TokenAction>, FundError>)
    ensures
        match lock_accounts_check(*fund, *accounts) {
            Err(e) => r == Err::<Vec<TokenAction>, FundError>(e),
            Ok(_) => {
                let x = moved_amount(amount, accounts.trading_custody_account.amount);
                if x == 0 || x > accounts.trading_custody_account.amount {
                    r == Err::<Vec<TokenAction>, FundError>(FundError::InvalidArgument)
                } else {
                    &&& r matches Ok(v) && v@ == seq![TokenAction::Transfer {
                        from: accounts.trading_custody_account.address, to: accounts.wd_custody_account.address,
                        authority: fund.fund_authority, amount: x }]
                    &&& *final(fund_info) == FundInfo { admin_action_time: clock.unix_timestamp, ..*old(fund_info) }
                }
            },
        },
        r is Err ==> *final(fund_info) == *old(fund_info),
{
    check_lock_accounts(fund, accounts)?;
    let balance = accounts.trading_custody_account.amount;
    let x = if amount > 0 { amount } else { balance };
    if x == 0 || x > balance {
        return Err(FundError::InvalidArgument);
    }
    let mut actions: Vec<TokenAction> = Vec::new();
    actions.push(TokenAction::Transfer {
        from: accounts.trading_custody_account.address,
        to: accounts.wd_custody_account.address,
        authority: fund.fund_authority,
        amount: x,
    });
    fund_info.admin_action_time = clock.unix_timestamp;
    assert(actions@ =~= seq![TokenAction::Transfer {
        from: accounts.trading_custody_account.address, to: accounts.wd_custody_account.address,
        authority: fund.fund_authority, amount: x }]);
    Ok(actions)
}

/// Marks the tracked assets as refreshed at `now` after checking the custody's
/// accounts; not allowed during liquidation. On failure nothing changes.
pub fn update_assets_with_custody(
    fund: &Fund,
    fund_info: &mut FundInfo,
    custody_account: &TokenAccount,
    custody_metadata: &Address,
    custody: &FundCustody,
    custody_token: &Token,
    clock: &Clock,
) -> (r: Result<(), FundError>)
    ensures
        old(fund_info).liquidation_start_time > 0 ==> r == Err::<(), FundError>(FundError::InvalidArgument),
        old(fund_info).liquidation_start_time <= 0 ==> r == custody_account_check(
            *fund, *custody_token, *custody_account, *custody_metadata, *custody, custody.custody_type),
        r is Err ==> *final(fund_info) == *old(fund_info),
        r is Ok ==> *final(fund_info) == (FundInfo { assets_update_time: clock.unix_timestamp, ..*old(fund_info) }),
{
    if fund_info.liquidation_start_time > 0 {
        return Err(FundError::InvalidArgument);
    }
    check_custody_account(fund, custody_token, custody_account, custody_metadata, custody, custody.custody_type)?;
    fund_info.assets_update_time = clock.unix_timestamp;
    Ok(())
}

} // verus!
