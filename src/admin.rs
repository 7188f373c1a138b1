//! Administrative handlers: fund and user initialization, deposit and withdrawal
//! schedules, and assets-tracking parameters.
use vstd::prelude::*;
use vstd::string::StringSliceAdditionalSpecFns;
use crate::action::Clock;
use crate::address::{find_bump, find_check, found_address, seeds_view, Address};
use crate::custody::AccountAction;
use crate::error::FundError;
use crate::state::{
    DenyReason, Fund, FundAssets, FundAssetsTrackingConfig, FundInfo, FundSchedule, FundUserAction,
    FundUserInfo, Token, FEE_SCALE,
};
use crate::validate::{build_user_info_seeds, user_info_seeds};

verus! {

/// A schedule is accepted when its window is not empty and its fee is at most 100%.
pub open spec fn schedule_valid(s: FundSchedule) -> bool {
    s.start_time < s.end_time && s.fee <= FEE_SCALE
}

/// Sets the deposit schedule; rejects, changing nothing, an empty window or a fee
/// over 100%.
pub fn set_deposit_schedule(fund_info: &mut FundInfo, schedule: &FundSchedule, clock: &Clock) -> (r: Result<(), FundError>)
    requires
        old(fund_info).wf(),
    ensures
        final(fund_info).wf(),
        !schedule_valid(*schedule) ==> r == Err::<(), FundError>(FundError::InvalidArgument) && *final(fund_info) == *old(fund_info),
        schedule_valid(*schedule) ==> r is Ok && *final(fund_info) == (FundInfo {
            deposit_schedule: *schedule, admin_action_time: clock.unix_timestamp, ..*old(fund_info) }),
{
    if schedule.start_time >= schedule.end_time || schedule.fee > FEE_SCALE {
        return Err(FundError::InvalidArgument);
    }
    fund_info.deposit_schedule = *schedule;
    fund_info.admin_action_time = clock.unix_timestamp;
    Ok(())
}

/// Sets the withdrawal schedule; rejects, changing nothing, an empty window or a fee
/// over 100%.
pub fn set_withdrawal_schedule(fund_info: &mut FundInfo, schedule: &FundSchedule, clock: &Clock) -> (r: Result<(), FundError>)
    requires
        old(fund_info).wf(),
    ensures
        final(fund_info).wf(),
        !schedule_valid(*schedule) ==> r == Err::<(), FundError>(FundError::InvalidArgument) && *final(fund_info) == *old(fund_info),
        schedule_valid(*schedule) ==> r is Ok && *final(fund_info) == (FundInfo {
            withdrawal_schedule: *schedule, admin_action_time: clock.unix_timestamp, ..*old(fund_info) }),
{
    if schedule.start_time >= schedule.end_time || schedule.fee > FEE_SCALE {
        return Err(FundError::InvalidArgument);
    }
    fund_info.withdrawal_schedule = *schedule;
    fund_info.admin_action_time = clock.unix_timestamp;
    Ok(())
}

/// Closes the deposit window; the other deposit terms are kept.
pub fn disable_deposits(fund_info: &mut FundInfo, clock: &Clock)
    requires
        old(fund_info).wf(),
    ensures
        final(fund_info).wf(),
        *final(fund_info) == (FundInfo {
            deposit_schedule: FundSchedule { start_time: 0, end_time: 0, ..old(fund_info).deposit_schedule },
            admin_action_time: clock.unix_timestamp,
            ..*old(fund_info)
        }),
        forall|t: i64| !FundInfo::in_window(#[trigger] final(fund_info).deposit_schedule, t),
{
    fund_info.deposit_schedule.start_time = 0;
    fund_info.deposit_schedule.end_time = 0;
    fund_info.admin_action_time = clock.unix_timestamp;
}

/// Closes the withdrawal window; the other withdrawal terms are kept.
pub fn disable_withdrawals(fund_info: &mut FundInfo, clock: &Clock)
    requires
        old(fund_info).wf(),
    ensures
        final(fund_info).wf(),
        *final(fund_info) == (FundInfo {
            withdrawal_schedule: FundSchedule { start_time: 0, end_time: 0, ..old(fund_info).withdrawal_schedule },
            admin_action_time: clock.unix_timestamp,
            ..*old(fund_info)
        }),
        forall|t: i64| !FundInfo::in_window(#[trigger] final(fund_info).withdrawal_schedule, t),
{
    fund_info.withdrawal_schedule.start_time = 0;
    fund_info.withdrawal_schedule.end_time = 0;
    fund_info.admin_action_time = clock.unix_timestamp;
}

/// Sets the assets-tracking parameters.
pub fn set_assets_tracking_config(fund_info: &mut FundInfo, config: &FundAssetsTrackingConfig, clock: &Clock)
    requires
        old(fund_info).wf(),
    ensures
        final(fund_info).wf(),
        *final(fund_info) == (FundInfo { assets_config: *config, admin_action_time: clock.unix_timestamp, ..*old(fund_info) }),
{
    fund_info.assets_config = *config;
    fund_info.admin_action_time = clock.unix_timestamp;
}

/// Creates the record of `user` for a token. It must go to the address found for
/// the user's seeds, and fails, as `find_check` says, otherwise; it starts with no
/// requests and no deny reason.
pub fn user_init(
    fund: &Fund,
    user: &Address,
    fund_metadata: &Address,
    user_info_key: &Address,
    custody_token_ref: &Address,
    custody_token: &Token,
) -> (r: Result<(FundUserInfo, AccountAction), FundError>)
    ensures
        match find_check(user_info_seeds(custody_token.name@, user@, fund.name@), fund.fund_program_id@, user_info_key@) {
            Err(e) => r == Err::<(FundUserInfo, AccountAction), FundError>(e),
            Ok(_) => r is Ok,
        },
        r matches Ok((info, action)) ==> {
            &&& found_address(user_info_seeds(custody_token.name@, user@, fund.name@), fund.fund_program_id@, user_info_key@, info.bump)
            &&& info.fund_ref == *fund_metadata && info.token_ref == *custody_token_ref
            &&& info.deposit_request == FundUserAction { time: 0, amount: 0 }
            &&& info.last_deposit == FundUserAction { time: 0, amount: 0 }
            &&& info.withdrawal_request == FundUserAction { time: 0, amount: 0 }
            &&& info.last_withdrawal == FundUserAction { time: 0, amount: 0 }
            &&& info.deny_reason@ == Seq::new(64, |i: int| 0u8)
            &&& info.exclusive()
            &&& action is CreateRecord && action.target() == user_info_key@
        },
{
    let seeds = build_user_info_seeds(&custody_token.name, user, &fund.name);
    let bump = find_bump(&seeds, &fund.fund_program_id, user_info_key)?;
    let none = FundUserAction { time: 0, amount: 0 };
    let info = FundUserInfo {
        fund_ref: *fund_metadata,
        token_ref: *custody_token_ref,
        deposit_request: none,
        last_deposit: none,
        withdrawal_request: none,
        last_withdrawal: none,
        deny_reason: DenyReason::empty(),
        bump,
    };
    Ok((info, AccountAction::CreateRecord { address: *user_info_key, seeds, bump }))
}

/// Accounts of a fund's Init instruction.
#[derive(Clone, Debug)]
pub struct InitAccounts {
    pub fund_authority: Address,
    pub fund_program: Address,
    pub fund_info_account: Address,
    pub fund_token_mint: Address,
    pub fund_token_ref: Address,
    pub fund_token: Token,
    pub vaults_assets_info: Address,
    pub custodies_assets_info: Address,
}

pub open spec fn fund_seeds(prefix: Seq<u8>, fund_name: Seq<u8>) -> Seq<Seq<u8>> {
    seq![prefix, fund_name]
}

fn build_fund_seeds(prefix: &str, fund_name: &Vec<u8>) -> (r: Vec<Vec<u8>>)
    ensures
        seeds_view(r@) == fund_seeds(prefix.spec_bytes(), fund_name@),
{
    let mut name: Vec<u8> = Vec::new();
    let mut i: usize = 0;
    while i < fund_name.len()
        invariant
            0 <= i <= fund_name@.len(),
            name@ == fund_name@.subrange(0, i as int),
        decreases fund_name@.len() - i,
    {
        name.push(fund_name[i]);
        i = i + 1;
        assert(name@ =~= fund_name@.subrange(0, i as int));
    }
    assert(fund_name@.subrange(0, fund_name@.len() as int) =~= fund_name@);
    let mut seeds: Vec<Vec<u8>> = Vec::new();
    seeds.push(vstd::slice::slice_to_vec(prefix.as_bytes()));
    seeds.push(name);
    assert(seeds_view(seeds@) =~= fund_seeds(prefix.spec_bytes(), fund_name@));
    seeds
}

/// Finds the address for `[prefix, fund name]` and checks it is `key`.
fn fund_account(prefix: &str, fund: &Fund, key: &Address) -> (r: Result<(Vec<Vec<u8>>, u8), FundError>)
    ensures
        match find_check(fund_seeds(prefix.spec_bytes(), fund.name@), fund.fund_program_id@, key@) {
            Err(e) => r == Err::<(Vec<Vec<u8>>, u8), FundError>(e),
            Ok(_) => r matches Ok((seeds, bump)) && seeds_view(seeds@) == fund_seeds(prefix.spec_bytes(), fund.name@)
                && found_address(fund_seeds(prefix.spec_bytes(), fund.name@), fund.fund_program_id@, key@, bump),
        },
{
    let seeds = build_fund_seeds(prefix, &fund.name);
    let bump = find_bump(&seeds, &fund.fund_program_id, key)?;
    Ok((seeds, bump))
}

/// The checks of a fund's Init, in order: the fund's authority, token record and
/// program; then the authority, info record, fund-token mint (which must be the fund
/// token's mint), and the two integrity records are at the addresses found for
/// `[name, fund name]`.
pub open spec fn init_check(fund: Fund, a: InitAccounts) -> Result<(), FundError> {
    let pid = fund.fund_program_id@;
    let n = fund.name@;
    if a.fund_authority@ != fund.fund_authority@ || a.fund_token_ref@ != fund.fund_token_ref@ || a.fund_program@ != pid {
        Err(FundError::InvalidArgument)
    } else {
        match find_check(fund_seeds("fund_authority".spec_bytes(), n), pid, a.fund_authority@) {
            Err(e) => Err(e),
            Ok(_) => match find_check(fund_seeds("info_account".spec_bytes(), n), pid, a.fund_info_account@) {
                Err(e) => Err(e),
                Ok(_) => if a.fund_token_mint@ != a.fund_token.mint@ {
                    Err(FundError::InvalidArgument)
                } else {
                    match find_check(fund_seeds("fund_token_mint".spec_bytes(), n), pid, a.fund_token_mint@) {
                        Err(e) => Err(e),
                        Ok(_) => match find_check(fund_seeds("vaults_assets_info".spec_bytes(), n), pid, a.vaults_assets_info@) {
                            Err(e) => Err(e),
                            Ok(_) => find_check(fund_seeds("custodies_assets_info".spec_bytes(), n), pid, a.custodies_assets_info@),
                        },
                    }
                },
            },
        }
    }
}

/// `a` creates a record account at `address`, the address found for
/// `[prefix, fund name]`, with its seeds and the bump it was found with.
pub open spec fn created_found_record(a: AccountAction, address: Address, prefix: Seq<u8>, fund: Fund) -> bool {
    a matches AccountAction::CreateRecord { address: x, seeds: s, bump: b }
        && x == address && seeds_view(s@) == fund_seeds(prefix, fund.name@)
        && found_address(fund_seeds(prefix, fund.name@), fund.fund_program_id@, address@, b)
}

/// `a` creates the fund-token mint with `decimals` at `address`, the address found
/// for `["fund_token_mint", fund name]`, with its seeds and bump.
pub open spec fn created_mint(a: AccountAction, address: Address, decimals: u8, fund: Fund) -> bool {
    a matches AccountAction::CreateMint { address: x, decimals: d, seeds: s, bump: b }
        && x == address && d == decimals && seeds_view(s@) == fund_seeds("fund_token_mint".spec_bytes(), fund.name@)
        && found_address(fund_seeds("fund_token_mint".spec_bytes(), fund.name@), fund.fund_program_id@, address@, b)
}

/// Initializes a fund: its authority, info record, fund-token mint and the two
/// integrity records are created at the addresses found for their seeds. Fails
/// exactly when `init_check` does; gives the fresh info record, the two integrity
/// records and the accounts to create, in that order.
pub fn init(fund: &Fund, accounts: &InitAccounts) -> (r: Result<(FundInfo, FundAssets, FundAssets, Vec<AccountAction>), FundError>)
    ensures
        match init_check(*fund, *accounts) {
            Err(e) => r == Err::<(FundInfo, FundAssets, FundAssets, Vec<AccountAction>), FundError>(e),
            Ok(_) => r is Ok,
        },
        r matches Ok((info, vaults, custodies, actions)) ==> {
            &&& info == FundInfo::spec_new()
            &&& vaults == FundAssets { current_hash: 0, target_hash: 0 }
            &&& custodies == FundAssets { current_hash: 0, target_hash: 0 }
            &&& actions@.len() == 5
            &&& created_found_record(actions@[0], accounts.fund_authority, "fund_authority".spec_bytes(), *fund)
            &&& created_found_record(actions@[1], accounts.fund_info_account, "info_account".spec_bytes(), *fund)
            &&& created_mint(actions@[2], accounts.fund_token_mint, accounts.fund_token.decimals, *fund)
            &&& created_found_record(actions@[3], accounts.vaults_assets_info, "vaults_assets_info".spec_bytes(), *fund)
            &&& created_found_record(actions@[4], accounts.custodies_assets_info, "custodies_assets_info".spec_bytes(), *fund)
        },
{
    if !accounts.fund_authority.same(&fund.fund_authority) || !accounts.fund_token_ref.same(&fund.fund_token_ref)
        || !accounts.fund_program.same(&fund.fund_program_id) {
        return Err(FundError::InvalidArgument);
    }
    let (authority_seeds, authority_bump) = fund_account("fund_authority", fund, &accounts.fund_authority)?;
    let (info_seeds, info_bump) = fund_account("info_account", fund, &accounts.fund_info_account)?;
    if !accounts.fund_token_mint.same(&accounts.fund_token.mint) {
        return Err(FundError::InvalidArgument);
    }
    let (mint_seeds, mint_bump) = fund_account("fund_token_mint", fund, &accounts.fund_token_mint)?;
    let (vaults_seeds, vaults_bump) = fund_account("vaults_assets_info", fund, &accounts.vaults_assets_info)?;
    let (custodies_seeds, custodies_bump) = fund_account("custodies_assets_info", fund, &accounts.custodies_assets_info)?;
    let mut actions: Vec<AccountAction> = Vec::new();
    actions.push(AccountAction::CreateRecord { address: accounts.fund_authority, seeds: authority_seeds, bump: authority_bump });
    actions.push(AccountAction::CreateRecord { address: accounts.fund_info_account, seeds: info_seeds, bump: info_bump });
    actions.push(AccountAction::CreateMint {
        address: accounts.fund_token_mint, decimals: accounts.fund_token.decimals, seeds: mint_seeds, bump: mint_bump });
    actions.push(AccountAction::CreateRecord { address: accounts.vaults_assets_info, seeds: vaults_seeds, bump: vaults_bump });
    actions.push(AccountAction::CreateRecord { address: accounts.custodies_assets_info, seeds: custodies_seeds, bump: custodies_bump });
    let empty = FundAssets { current_hash: 0, target_hash: 0 };
    Ok((FundInfo::new(), empty, empty, actions))
}

} // verus!
