use fund::action::{Clock, TokenAction};
use fund::address::Address;
use fund::admin::{disable_deposits, set_deposit_schedule, user_init};
use fund::authority::{check_authority, policy_of, process_instruction, AuthorityPolicy};
use fund::instruction::FundInstruction;
use fund::custody::{add_custody, lock_assets, remove_custody, unlock_assets, AccountAction, AddCustodyAccounts, LockAccounts, RemoveCustodyAccounts};
use fund::deposit::{approve_deposit, cancel_deposit, deny_deposit, request_deposit, TransferAccounts};
use fund::error::FundError;
use fund::instruction::FundInstructionType;
use fund::oracle::OraclePrice;
use fund::state::{
    DenyReason, Fund, FundAssets, FundAssetsTrackingConfig, FundCustody, FundCustodyType, FundInfo,
    FundSchedule, FundUserAction, FundUserInfo, Token, TokenAccount, FEE_SCALE,
};
use fund::validate::check_user_info_account;
use fund::withdrawal::{request_withdrawal, cancel_withdrawal};
use solana_program::pubkey::Pubkey;

const PROGRAM: [u8; 32] = [7u8; 32];
const FUND_NAME: &str = "TestFund";
const TOKEN_NAME: &str = "COIN";

fn addr(b: u8) -> Address {
    Address::new([b; 32])
}

fn pda(seeds: &[&[u8]]) -> (Address, u8) {
    let (key, bump) = Pubkey::find_program_address(seeds, &Pubkey::new_from_array(PROGRAM));
    (Address::new(key.to_bytes()), bump)
}

fn fund() -> Fund {
    let (_, mint_bump) = pda(&[b"fund_token_mint", FUND_NAME.as_bytes()]);
    Fund {
        name: FUND_NAME.as_bytes().to_vec(),
        admin_account: addr(1),
        fund_manager: addr(2),
        fund_program_id: Address::new(PROGRAM),
        fund_authority: addr(3),
        fund_token_ref: addr(4),
        info_account: addr(5),
        vaults_assets_info: addr(6),
        custodies_assets_info: pda(&[b"custodies_assets_info", FUND_NAME.as_bytes()]).0,
        liquidation_state: addr(8),
        authority_bump: 0,
        fund_token_bump: mint_bump,
        metadata_bump: fund_metadata().1,
    }
}

const REGISTRY: [u8; 32] = [12u8; 32];

fn fund_metadata() -> (Address, u8) {
    let (key, bump) = Pubkey::find_program_address(&[b"Fund", FUND_NAME.as_bytes()], &Pubkey::new_from_array(REGISTRY));
    (Address::new(key.to_bytes()), bump)
}

fn token() -> Token {
    Token { name: TOKEN_NAME.as_bytes().to_vec(), mint: addr(9), decimals: 0 }
}

fn custody_record(ty: FundCustodyType) -> (Address, FundCustody) {
    let (prefix, account, fees): (&[u8], u8, u8) = match ty {
        FundCustodyType::DepositWithdraw => (b"fund_wd_custody_info", 40, 41),
        FundCustodyType::Trading => (b"fund_trading_custody_info", 43, 44),
    };
    let (key, bump) = pda(&[prefix, TOKEN_NAME.as_bytes(), FUND_NAME.as_bytes()]);
    let custody = FundCustody {
        fund_ref: addr(10),
        custody_id: 1,
        custody_type: ty,
        token_ref: addr(11),
        address: addr(account),
        fees_address: addr(fees),
        pyth_price_info: addr(42),
        liquidation_id: 0,
        liquidation_token_amount: 0,
        bump,
    };
    (key, custody)
}

fn user_record(user: &Address) -> (Address, FundUserInfo) {
    let (key, bump) = pda(&[b"user_info_account", TOKEN_NAME.as_bytes(), &user.bytes, FUND_NAME.as_bytes()]);
    let none = FundUserAction { time: 0, amount: 0 };
    let info = FundUserInfo {
        fund_ref: addr(10),
        token_ref: addr(11),
        deposit_request: none,
        last_deposit: none,
        withdrawal_request: none,
        last_withdrawal: none,
        deny_reason: DenyReason::empty(),
        bump,
    };
    (key, info)
}

fn token_account(address: Address, mint: Address, owner: Address, amount: u64) -> TokenAccount {
    TokenAccount { address, mint, owner, amount }
}

fn schedule(fee: u64, approval_required: bool) -> FundSchedule {
    FundSchedule { start_time: 0, end_time: 10_000, approval_required, limit_usd: 0, fee }
}

fn fund_info(fee: u64, approval_required: bool) -> FundInfo {
    let mut info = FundInfo::new();
    info.deposit_schedule = schedule(fee, approval_required);
    info.withdrawal_schedule = schedule(fee, approval_required);
    info.assets_config = FundAssetsTrackingConfig {
        assets_limit_usd: 0,
        max_update_age_sec: 1_000_000,
        max_price_error: 10_000,
        max_price_age_sec: 60,
    };
    info.assets_update_time = 1_000;
    info
}

fn clock() -> Clock {
    Clock { unix_timestamp: 1_000, slot: 100 }
}

/// $1.00 per token.
fn one_dollar() -> Option<OraclePrice> {
    Some(OraclePrice { price: 100_000_000, conf: 0, expo: -8, valid_slot: 100, trading: true })
}

fn accounts(user_index: u8, balance: u64, fund_token_balance: u64, supply: u64, custody_balance: u64) -> (TransferAccounts, FundUserInfo) {
    let user = addr(20 + user_index);
    let (user_info_key, user_info) = user_record(&user);
    let (custody_metadata_key, custody) = custody_record(FundCustodyType::DepositWithdraw);
    let fund_mint = pda(&[b"fund_token_mint", FUND_NAME.as_bytes()]).0;
    let a = TransferAccounts {
        user,
        user_is_signer: true,
        fund_authority: addr(3),
        fund_token_mint: fund_mint,
        fund_token_supply: supply,
        user_info_key,
        user_token_account: token_account(addr(50 + user_index), addr(9), user, balance),
        user_fund_token_account: Some(token_account(addr(60 + user_index), fund_mint, user, fund_token_balance)),
        custody_account: token_account(addr(40), addr(9), addr(3), custody_balance),
        custody_fees_account: token_account(addr(41), addr(9), addr(3), 0),
        custody_metadata_key,
        custody,
        custody_token: token(),
        oracle_key: addr(42),
        oracle: one_dollar(),
    };
    (a, user_info)
}

fn transferred_into(actions: &[TokenAction], account: &Address) -> u64 {
    actions.iter().map(|a| match a {
        TokenAction::Transfer { to, amount, .. } if to.bytes == account.bytes => *amount,
        _ => 0,
    }).sum()
}

fn minted(actions: &[TokenAction]) -> u64 {
    actions.iter().map(|a| match a {
        TokenAction::MintTo { amount, .. } => *amount,
        _ => 0,
    }).sum()
}

#[test]
fn end_to_end_two_deposits() {
    let fund = fund();
    let mut info = fund_info(0, false);
    let mut custody_balance = 0u64;
    let mut supply = 0u64;

    let (a, mut user) = accounts(0, 1_000, 0, supply, custody_balance);
    let actions = request_deposit(&fund, &mut info, &mut user, &a, 100, &clock()).unwrap();
    custody_balance += transferred_into(&actions, &addr(40));
    supply += minted(&actions);
    assert_eq!(custody_balance, 100);
    assert_eq!(supply, 100);
    assert_eq!(info.current_assets_usd, 100 * 1_000_000);
    assert_eq!(info.amount_invested_usd, 100 * 1_000_000);
    assert_eq!(user.last_deposit, FundUserAction { time: 1_000, amount: 100 });

    let (b, mut user2) = accounts(1, 1_000, 0, supply, custody_balance);
    let actions = request_deposit(&fund, &mut info, &mut user2, &b, 50, &clock()).unwrap();
    custody_balance += transferred_into(&actions, &addr(40));
    supply += minted(&actions);
    assert_eq!(minted(&actions), 50);
    assert_eq!(supply, 150);
    assert_eq!(custody_balance, 150);
    assert_eq!(info.current_assets_usd, 150 * 1_000_000);
}

#[test]
fn approval_workflow() {
    let fund = fund();
    let mut info = fund_info(0, true);
    let before = info;
    let (a, mut user) = accounts(0, 1_000, 0, 0, 0);
    let actions = request_deposit(&fund, &mut info, &mut user, &a, 10, &clock()).unwrap();
    assert_eq!(user.deposit_request.amount, 10);
    assert_eq!(actions.len(), 1);
    assert!(matches!(actions[0], TokenAction::Approve { amount: 10, .. }));
    assert_eq!(transferred_into(&actions, &addr(40)), 0);
    assert_eq!(minted(&actions), 0);
    assert_eq!(format!("{:?}", info), format!("{:?}", before));

    let mut approver = a.clone();
    approver.user_is_signer = false;
    let later = Clock { unix_timestamp: 1_500, slot: 100 };
    let actions = approve_deposit(&fund, &mut info, &mut user, &approver, 5, &later).unwrap();
    assert_eq!(transferred_into(&actions, &addr(40)), 5);
    match actions[0] {
        TokenAction::Transfer { authority, .. } => assert_eq!(authority.bytes, addr(3).bytes),
        _ => panic!("expected a transfer"),
    }
    assert_eq!(minted(&actions), 5);
    assert_eq!(user.deposit_request.amount, 0);
    assert_eq!(user.last_deposit, FundUserAction { time: 1_000, amount: 5 });
    assert_eq!(info.admin_action_time, 1_500);
}

#[test]
fn deposit_fee_goes_to_fee_account() {
    let fund = fund();
    let mut info = fund_info(FEE_SCALE / 10, false);
    let (a, mut user) = accounts(0, 1_000, 0, 0, 0);
    let actions = request_deposit(&fund, &mut info, &mut user, &a, 100, &clock()).unwrap();
    assert_eq!(transferred_into(&actions, &addr(40)), 90);
    assert_eq!(transferred_into(&actions, &addr(41)), 10);
    assert_eq!(minted(&actions), 90);
}

#[test]
fn deposit_of_whole_balance() {
    let fund = fund();
    let mut info = fund_info(FEE_SCALE / 10, false);
    let (a, mut user) = accounts(0, 110, 0, 0, 0);
    let actions = request_deposit(&fund, &mut info, &mut user, &a, 0, &clock()).unwrap();
    assert_eq!(transferred_into(&actions, &addr(40)), 100);
    assert_eq!(transferred_into(&actions, &addr(41)), 10);
}

#[test]
fn deposit_errors_leave_state_untouched() {
    let fund = fund();
    let (a, user0) = accounts(0, 50, 0, 0, 0);

    let mut info = fund_info(0, false);
    let mut user = user0;
    assert_eq!(request_deposit(&fund, &mut info, &mut user, &a, 100, &clock()).unwrap_err(), FundError::InsufficientFunds);
    assert_eq!(format!("{:?}", user), format!("{:?}", user0));

    let late = Clock { unix_timestamp: 20_000, slot: 100 };
    assert_eq!(request_deposit(&fund, &mut info, &mut user, &a, 10, &late).unwrap_err(), FundError::Custom(220));

    let mut unsigned = a.clone();
    unsigned.user_is_signer = false;
    assert_eq!(request_deposit(&fund, &mut info, &mut user, &unsigned, 10, &clock()).unwrap_err(), FundError::MissingRequiredSignature);

    let mut wrong_info = a.clone();
    wrong_info.user_info_key = addr(99);
    assert_eq!(request_deposit(&fund, &mut info, &mut user, &wrong_info, 10, &clock()).unwrap_err(), FundError::InvalidArgument);

    let mut wrong_custody = a.clone();
    wrong_custody.custody_metadata_key = addr(98);
    assert_eq!(request_deposit(&fund, &mut info, &mut user, &wrong_custody, 10, &clock()).unwrap_err(), FundError::InvalidArgument);

    let mut foreign = a.clone();
    foreign.user_fund_token_account = Some(token_account(addr(60), addr(0), addr(77), 0));
    assert_eq!(request_deposit(&fund, &mut info, &mut user, &foreign, 10, &clock()).unwrap_err(), FundError::IllegalOwner);

    let mut stale = a.clone();
    stale.oracle = Some(OraclePrice { price: 100_000_000, conf: 0, expo: -8, valid_slot: 0, trading: true });
    let now = Clock { unix_timestamp: 1_000, slot: 1_000 };
    assert_eq!(request_deposit(&fund, &mut info, &mut user, &stale, 10, &now).unwrap_err(), FundError::Custom(302));

    let mut limited = fund_info(0, false);
    limited.deposit_schedule.limit_usd = 5_000_000;
    assert_eq!(request_deposit(&fund, &mut limited, &mut user, &a, 10, &clock()).unwrap_err(), FundError::Custom(221));

    assert_eq!(format!("{:?}", info), format!("{:?}", fund_info(0, false)));
    assert_eq!(format!("{:?}", user), format!("{:?}", user0));
}

#[test]
fn requests_are_mutually_exclusive() {
    let fund = fund();
    let mut info = fund_info(0, true);
    let (a, mut user) = accounts(0, 1_000, 500, 1_000, 1_000);
    request_deposit(&fund, &mut info, &mut user, &a, 10, &clock()).unwrap();
    assert_eq!(request_withdrawal(&fund, &mut info, &mut user, &a, 10, &clock()).unwrap_err(), FundError::InvalidArgument);
    assert_eq!(request_deposit(&fund, &mut info, &mut user, &a, 10, &clock()).unwrap_err(), FundError::InvalidArgument);
    assert_eq!(user.withdrawal_request.amount, 0);
}

#[test]
fn immediate_withdrawal_pays_out_and_burns() {
    let fund = fund();
    let mut info = fund_info(0, false);
    info.current_assets_usd = 100 * 1_000_000;
    let (a, mut user) = accounts(0, 0, 100, 100, 100);
    let actions = request_withdrawal(&fund, &mut info, &mut user, &a, 40, &clock()).unwrap();
    assert_eq!(transferred_into(&actions, &addr(50)), 40);
    assert!(matches!(actions[actions.len() - 1], TokenAction::Burn { amount: 40, .. }));
    assert_eq!(info.current_assets_usd, 60 * 1_000_000);
    assert_eq!(info.amount_removed_usd, 40 * 1_000_000);
    assert_eq!(user.last_withdrawal, FundUserAction { time: 1_000, amount: 40 });
}

#[test]
fn withdrawal_beyond_custody_fails() {
    let fund = fund();
    let mut info = fund_info(0, false);
    info.current_assets_usd = 100 * 1_000_000;
    let (a, mut user) = accounts(0, 0, 100, 100, 10);
    assert_eq!(request_withdrawal(&fund, &mut info, &mut user, &a, 40, &clock()).unwrap_err(), FundError::InsufficientFunds);
    assert_eq!(info.current_assets_usd, 100 * 1_000_000);
}

#[test]
fn pending_withdrawal_then_cancel() {
    let fund = fund();
    let mut info = fund_info(0, true);
    info.current_assets_usd = 100 * 1_000_000;
    let (a, mut user) = accounts(0, 0, 100, 100, 100);
    let actions = request_withdrawal(&fund, &mut info, &mut user, &a, 30, &clock()).unwrap();
    assert!(matches!(actions[0], TokenAction::Approve { amount: 30, .. }));
    assert_eq!(user.withdrawal_request.amount, 30);
    let actions = cancel_withdrawal(&fund, &mut user, &a.user, true, &a.user_info_key, &token(), &addr(60)).unwrap();
    assert!(matches!(actions[0], TokenAction::Revoke { .. }));
    assert_eq!(user.withdrawal_request.amount, 0);
    assert_eq!(
        cancel_withdrawal(&fund, &mut user, &a.user, true, &a.user_info_key, &token(), &addr(60)).unwrap_err(),
        FundError::InvalidArgument
    );
}

#[test]
fn deny_and_cancel_deposit() {
    let fund = fund();
    let mut info = fund_info(0, true);
    let (a, mut user) = accounts(0, 1_000, 0, 0, 0);
    request_deposit(&fund, &mut info, &mut user, &a, 10, &clock()).unwrap();
    let mut text = [0u8; 64];
    text[..3].copy_from_slice(b"kyc");
    let why = DenyReason { bytes: text };
    deny_deposit(&fund, &mut info, &mut user, &a.user, &a.user_info_key, &token(), &why, &clock()).unwrap();
    assert_eq!(user.deposit_request.amount, 0);
    assert_eq!(user.last_deposit.amount, 10);
    assert_eq!(user.deny_reason.bytes, text);
    assert_eq!(
        deny_deposit(&fund, &mut info, &mut user, &a.user, &a.user_info_key, &token(), &why, &clock()).unwrap_err(),
        FundError::InvalidArgument
    );
    let before = user;
    assert_eq!(
        cancel_deposit(&fund, &mut user, &a.user, true, &a.user_info_key, &token(), &addr(50)).unwrap_err(),
        FundError::InvalidArgument
    );
    assert_eq!(format!("{:?}", user), format!("{:?}", before));

    request_deposit(&fund, &mut info, &mut user, &a, 10, &clock()).unwrap();
    assert_eq!(user.deny_reason.bytes, [0u8; 64]);
    assert_eq!(
        cancel_deposit(&fund, &mut user, &a.user, false, &a.user_info_key, &token(), &addr(50)).unwrap_err(),
        FundError::MissingRequiredSignature
    );
    let actions = cancel_deposit(&fund, &mut user, &a.user, true, &a.user_info_key, &token(), &addr(50)).unwrap();
    assert!(matches!(actions[0], TokenAction::Revoke { .. }));
    assert_eq!(user.deposit_request.amount, 0);
}

fn lock_accounts(wd_balance: u64, trading_balance: u64) -> LockAccounts {
    let (wd_key, wd) = custody_record(FundCustodyType::DepositWithdraw);
    let (tr_key, tr) = custody_record(FundCustodyType::Trading);
    LockAccounts {
        fund_authority: addr(3),
        wd_custody_account: token_account(addr(40), addr(9), addr(3), wd_balance),
        wd_custody_metadata: wd_key,
        wd_custody: wd,
        trading_custody_account: token_account(addr(43), addr(9), addr(3), trading_balance),
        trading_custody_metadata: tr_key,
        trading_custody: tr,
        custody_token: token(),
    }
}

#[test]
fn lock_then_unlock_restores_balances() {
    let fund = fund();
    let mut info = fund_info(0, false);
    let (mut wd, mut trading) = (100u64, 5u64);
    let actions = lock_assets(&fund, &mut info, &lock_accounts(wd, trading), 30, &clock()).unwrap();
    wd -= 30;
    trading += transferred_into(&actions, &addr(43));
    assert_eq!(trading, 35);
    let actions = unlock_assets(&fund, &mut info, &lock_accounts(wd, trading), 30, &clock()).unwrap();
    wd += transferred_into(&actions, &addr(40));
    trading -= 30;
    assert_eq!((wd, trading), (100, 5));
}

#[test]
fn lock_errors() {
    let fund = fund();
    let mut info = fund_info(0, false);
    assert_eq!(lock_assets(&fund, &mut info, &lock_accounts(10, 0), 11, &clock()).unwrap_err(), FundError::InvalidArgument);
    assert_eq!(lock_assets(&fund, &mut info, &lock_accounts(0, 0), 0, &clock()).unwrap_err(), FundError::InvalidArgument);
    let all = lock_assets(&fund, &mut info, &lock_accounts(10, 0), 0, &clock()).unwrap();
    assert_eq!(transferred_into(&all, &addr(43)), 10);
    let mut swapped = lock_accounts(10, 0);
    swapped.wd_custody_metadata = swapped.trading_custody_metadata;
    assert_eq!(lock_assets(&fund, &mut info, &swapped, 5, &clock()).unwrap_err(), FundError::InvalidArgument);
    info.liquidation_start_time = 5;
    assert_eq!(lock_assets(&fund, &mut info, &lock_accounts(10, 0), 5, &clock()).unwrap_err(), FundError::InvalidArgument);
    assert!(unlock_assets(&fund, &mut info, &lock_accounts(0, 10), 5, &clock()).is_ok());
}

#[test]
fn add_then_remove_custody() {
    let fund = fund();
    let mut info = fund_info(0, false);
    let mut assets = FundAssets { current_hash: 5, target_hash: 6 };
    let (meta, bump) = pda(&[b"fund_wd_custody_info", TOKEN_NAME.as_bytes(), FUND_NAME.as_bytes()]);
    let (account, _) = pda(&[b"fund_wd_custody_account", TOKEN_NAME.as_bytes(), FUND_NAME.as_bytes()]);
    let (fees, _) = pda(&[b"fund_wd_custody_fees_account", TOKEN_NAME.as_bytes(), FUND_NAME.as_bytes()]);
    let add = AddCustodyAccounts {
        fund_metadata: addr(10),
        fund_authority: addr(3),
        custodies_assets_info: fund.custodies_assets_info,
        custody_account: account,
        custody_account_is_empty: true,
        custody_fees_account: fees,
        custody_fees_account_is_empty: true,
        custody_metadata: meta,
        custody_token_ref: addr(11),
        custody_token: token(),
        custody_token_mint: addr(9),
        oracle_key: addr(42),
    };
    let (custody, actions) = add_custody(&fund, &mut info, &mut assets, &add, 77, 3, FundCustodyType::DepositWithdraw, &clock()).unwrap();
    assert_eq!(custody.bump, bump);
    assert_eq!(custody.address.bytes, account.bytes);
    assert_eq!(assets, FundAssets { current_hash: 0, target_hash: 77 });
    assert_eq!(actions.len(), 3);
    assert!(matches!(actions[0], AccountAction::CreateRecord { .. }));

    let mut busy = add.clone();
    busy.custody_account_is_empty = false;
    assert_eq!(
        add_custody(&fund, &mut info, &mut assets, &busy, 1, 3, FundCustodyType::DepositWithdraw, &clock()).unwrap_err(),
        FundError::AccountAlreadyInitialized
    );
    let mut misplaced = add.clone();
    misplaced.custody_metadata = addr(97);
    assert_eq!(
        add_custody(&fund, &mut info, &mut assets, &misplaced, 1, 3, FundCustodyType::DepositWithdraw, &clock()).unwrap_err(),
        FundError::InvalidArgument
    );

    let remove = RemoveCustodyAccounts {
        fund_authority: addr(3),
        custodies_assets_info: fund.custodies_assets_info,
        custody_account: token_account(account, addr(9), addr(3), 0),
        custody_fees_account: fees,
        custody_metadata: meta,
        custody,
        custody_token: token(),
    };
    let closed = remove_custody(&fund, &mut info, &mut assets, &remove, 88, FundCustodyType::DepositWithdraw, &clock()).unwrap();
    assert_eq!(closed.len(), 3);
    assert!(matches!(closed[2], AccountAction::CloseRecord { .. }));
    assert_eq!(assets, FundAssets { current_hash: 0, target_hash: 88 });

    let (again, _) = add_custody(&fund, &mut info, &mut assets, &add, 99, 3, FundCustodyType::DepositWithdraw, &clock()).unwrap();
    assert_eq!(again.bump, custody.bump);
    assert_eq!(again.address.bytes, custody.address.bytes);

    info.liquidation_start_time = 1;
    assert_eq!(
        remove_custody(&fund, &mut info, &mut assets, &remove, 1, FundCustodyType::DepositWithdraw, &clock()).unwrap_err(),
        FundError::InvalidArgument
    );
}

#[test]
fn user_record_is_derived() {
    let fund = fund();
    let user = addr(20);
    let (key, expected) = user_record(&user);
    let (info, action) = user_init(&fund, &user, &addr(10), &key, &addr(11), &token()).unwrap();
    assert_eq!(info.bump, expected.bump);
    assert!(matches!(action, AccountAction::CreateRecord { .. }));
    assert_eq!(user_init(&fund, &user, &addr(10), &addr(99), &addr(11), &token()).unwrap_err(), FundError::InvalidArgument);
    assert_eq!(check_user_info_account(&fund, &token(), &info, &user, &key), Ok(()));
    assert_eq!(check_user_info_account(&fund, &token(), &info, &user, &addr(99)), Err(FundError::InvalidArgument));
    assert!(check_user_info_account(&fund, &token(), &info, &addr(21), &key).is_err());
}

#[test]
fn schedules() {
    let mut info = FundInfo::new();
    assert!(!info.is_deposit_allowed(0));
    let bad = FundSchedule { start_time: 5, end_time: 5, approval_required: false, limit_usd: 0, fee: 0 };
    assert_eq!(set_deposit_schedule(&mut info, &bad, &clock()), Err(FundError::InvalidArgument));
    let too_dear = FundSchedule { start_time: 0, end_time: 5, approval_required: false, limit_usd: 0, fee: FEE_SCALE + 1 };
    assert_eq!(set_deposit_schedule(&mut info, &too_dear, &clock()), Err(FundError::InvalidArgument));
    assert_eq!(set_deposit_schedule(&mut info, &schedule(0, false), &clock()), Ok(()));
    assert!(info.is_deposit_allowed(9_999));
    assert!(!info.is_deposit_allowed(10_000));
    disable_deposits(&mut info, &clock());
    assert!(!info.is_deposit_allowed(0));
    assert_eq!(info.admin_action_time, 1_000);
}

#[test]
fn authority_policies() {
    let fund = fund();
    assert_eq!(policy_of(FundInstructionType::AddCustody), AuthorityPolicy::Admin);
    assert_eq!(policy_of(FundInstructionType::ApproveDeposit), AuthorityPolicy::ManagerOrAdmin);
    assert_eq!(policy_of(FundInstructionType::UnlockAssets), AuthorityPolicy::ManagerOrLiquidation);
    assert_eq!(policy_of(FundInstructionType::RequestDeposit), AuthorityPolicy::Anyone);
    assert_eq!(check_authority(AuthorityPolicy::Admin, &addr(2), true, &fund, 0), Err(FundError::IllegalOwner));
    assert_eq!(check_authority(AuthorityPolicy::Admin, &addr(1), false, &fund, 0), Err(FundError::MissingRequiredSignature));
    assert_eq!(check_authority(AuthorityPolicy::ManagerOrAdmin, &addr(2), true, &fund, 0), Ok(()));
    assert_eq!(check_authority(AuthorityPolicy::ManagerOrLiquidation, &addr(30), false, &fund, 0), Err(FundError::IllegalOwner));
    assert_eq!(check_authority(AuthorityPolicy::ManagerOrLiquidation, &addr(30), false, &fund, 9), Ok(()));
    let program = Address::new(PROGRAM);
    let registry = Address::new(REGISTRY);
    let meta = fund_metadata().0;
    let entry = |info: &Address, meta_key: &Address, owner: &Address, prog: &Address, caller: u8, signer: bool, liq: i64, data: &[u8]| {
        process_instruction(&fund, prog, &registry, meta_key, owner, info, &addr(caller), signer, liq, data)
    };
    let deposit = FundInstruction::RequestDeposit { amount: 5 }.to_vec().unwrap();
    let ok = entry(&addr(5), &meta, &registry, &program, 30, false, 0, &deposit).unwrap();
    assert_eq!(ok.instruction_type(), FundInstructionType::RequestDeposit);
    assert_eq!(entry(&addr(6), &meta, &registry, &program, 30, false, 0, &deposit).unwrap_err(), FundError::Custom(511));
    assert_eq!(entry(&addr(5), &addr(13), &registry, &program, 30, false, 0, &deposit).unwrap_err(), FundError::Custom(511));
    assert_eq!(entry(&addr(5), &meta, &addr(13), &program, 30, false, 0, &deposit).unwrap_err(), FundError::Custom(511));
    assert_eq!(entry(&addr(5), &meta, &registry, &addr(0), 30, false, 0, &deposit).unwrap_err(), FundError::IncorrectProgramId);
    assert_eq!(entry(&addr(5), &meta, &registry, &program, 30, false, 0, &[99]).unwrap_err(), FundError::InvalidInstructionData);
    let lock = FundInstruction::LockAssets { amount: 1 }.to_vec().unwrap();
    assert_eq!(entry(&addr(5), &meta, &registry, &program, 30, true, 0, &lock).unwrap_err(), FundError::IllegalOwner);
    assert_eq!(entry(&addr(5), &meta, &registry, &program, 2, false, 0, &lock).unwrap_err(), FundError::MissingRequiredSignature);
    assert!(entry(&addr(5), &meta, &registry, &program, 2, true, 0, &lock).is_ok());
    let unlock = FundInstruction::UnlockAssets { amount: 1 }.to_vec().unwrap();
    assert!(entry(&addr(5), &meta, &registry, &program, 30, false, 7, &unlock).is_ok());
}

#[test]
fn more_deposit_and_withdrawal_errors() {
    let fund = fund();
    let (a, user0) = accounts(0, 1_000, 0, 0, 0);

    let mut capped = fund_info(0, false);
    capped.assets_config.assets_limit_usd = 50_000_000;
    let mut user = user0;
    assert_eq!(request_deposit(&fund, &mut capped, &mut user, &a, 60, &clock()).unwrap_err(), FundError::Custom(223));

    let mut stale = fund_info(0, false);
    stale.assets_config.max_update_age_sec = 10;
    stale.assets_update_time = 0;
    assert_eq!(request_deposit(&fund, &mut stale, &mut user, &a, 60, &clock()).unwrap_err(), FundError::Custom(222));

    // the fund holds far more value than one token is worth: nothing would be minted
    let mut rich = fund_info(0, false);
    rich.current_assets_usd = 1_000_000_000_000;
    let (b, _) = accounts(0, 1_000, 0, 10, 0);
    assert_eq!(request_deposit(&fund, &mut rich, &mut user, &b, 1, &clock()).unwrap_err(), FundError::Custom(170));

    let late = Clock { unix_timestamp: 20_000, slot: 100 };
    let mut info = fund_info(0, false);
    info.current_assets_usd = 100 * 1_000_000;
    let (w, _) = accounts(0, 0, 100, 100, 100);
    assert_eq!(request_withdrawal(&fund, &mut info, &mut user, &w, 10, &late).unwrap_err(), FundError::Custom(224));

    info.withdrawal_schedule.limit_usd = 5_000_000;
    assert_eq!(request_withdrawal(&fund, &mut info, &mut user, &w, 10, &clock()).unwrap_err(), FundError::Custom(225));

    let mut no_account = w.clone();
    no_account.user_fund_token_account = None;
    assert_eq!(request_withdrawal(&fund, &mut info, &mut user, &no_account, 10, &clock()).unwrap_err(), FundError::InvalidAccountData);
    assert_eq!(format!("{:?}", user), format!("{:?}", user0));
}

#[test]
fn refused_derivation_is_invalid_seeds() {
    let fund = fund();
    let user = addr(20);
    let (key, mut info) = user_record(&user);
    let program = Pubkey::new_from_array(PROGRAM);
    let refused = (1..=255u8).rev().find(|b| {
        Pubkey::create_program_address(
            &[b"user_info_account", TOKEN_NAME.as_bytes(), &user.bytes, FUND_NAME.as_bytes(), &[*b]],
            &program,
        )
        .is_err()
    });
    let bump = refused.expect("some bump lands on the curve");
    info.bump = bump;
    assert_eq!(check_user_info_account(&fund, &token(), &info, &user, &key), Err(FundError::InvalidSeeds));
}

#[test]
fn second_deposit_at_unchanged_price_mints_in_proportion() {
    let fund = fund();
    let mut info = fund_info(0, false);
    let price = Some(OraclePrice { price: 123_457, conf: 0, expo: -8, valid_slot: 100, trading: true });
    let (mut a, mut user) = accounts(0, 1_000, 0, 0, 0);
    a.oracle = price;
    let actions = request_deposit(&fund, &mut info, &mut user, &a, 100, &clock()).unwrap();
    assert_eq!(minted(&actions), 100);
    assert_eq!(info.current_assets_usd, 123_457);

    let (mut b, mut user2) = accounts(1, 1_000, 0, 100, 100);
    b.oracle = price;
    let actions = request_deposit(&fund, &mut info, &mut user2, &b, 50, &clock()).unwrap();
    assert_eq!(minted(&actions), 50);
    assert_eq!(transferred_into(&actions, &addr(40)), 50);
}
