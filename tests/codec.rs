use fund::error::FundError;
use fund::instruction::{FundInstruction, FundInstructionType};
use fund::state::{DenyReason, FundAssetsTrackingConfig, FundCustodyType, FundSchedule};

fn reason(text: &str) -> DenyReason {
    let mut bytes = [0u8; 64];
    bytes[..text.len()].copy_from_slice(text.as_bytes());
    DenyReason { bytes }
}

fn round_trip(ins: FundInstruction) -> FundInstruction {
    let bytes = ins.to_vec().unwrap();
    FundInstruction::unpack(&bytes).unwrap()
}

#[test]
fn encoded_lengths_follow_the_tag() {
    assert_eq!(FundInstruction::UserInit.to_vec().unwrap().len(), 1);
    assert_eq!(FundInstruction::RequestDeposit { amount: 5 }.to_vec().unwrap().len(), 9);
    let schedule = FundSchedule { start_time: 1, end_time: 2, approval_required: true, limit_usd: 3, fee: 4 };
    assert_eq!(FundInstruction::SetDepositSchedule { schedule }.to_vec().unwrap().len(), 34);
    assert_eq!(FundInstruction::DenyDeposit { deny_reason: reason("no") }.to_vec().unwrap().len(), 65);
    let add = FundInstruction::AddCustody { target_hash: 1, custody_id: 2, custody_type: FundCustodyType::Trading };
    assert_eq!(add.to_vec().unwrap().len(), 14);
    let config = FundAssetsTrackingConfig { assets_limit_usd: 1, max_update_age_sec: 2, max_price_error: 3, max_price_age_sec: 4 };
    assert_eq!(FundInstruction::SetAssetsTrackingConfig { config }.to_vec().unwrap().len(), 33);
}

#[test]
fn request_deposit_bytes_are_tag_and_little_endian_amount() {
    let bytes = FundInstruction::RequestDeposit { amount: 0x0102030405060708 }.to_vec().unwrap();
    assert_eq!(bytes, vec![1, 8, 7, 6, 5, 4, 3, 2, 1]);
}

#[test]
fn add_custody_bytes() {
    let add = FundInstruction::AddCustody { target_hash: 258, custody_id: 7, custody_type: FundCustodyType::Trading };
    assert_eq!(add.to_vec().unwrap(), vec![21, 2, 1, 0, 0, 0, 0, 0, 0, 7, 0, 0, 0, 1]);
}

#[test]
fn every_variant_round_trips() {
    let schedule = FundSchedule { start_time: -5, end_time: 1_700_000_000, approval_required: true, limit_usd: 99, fee: 2_500 };
    let config = FundAssetsTrackingConfig { assets_limit_usd: 10, max_update_age_sec: 600, max_price_error: 20_000, max_price_age_sec: 60 };
    let all = vec![
        FundInstruction::UserInit,
        FundInstruction::RequestDeposit { amount: 100 },
        FundInstruction::CancelDeposit,
        FundInstruction::RequestWithdrawal { amount: 7 },
        FundInstruction::CancelWithdrawal,
        FundInstruction::Init { step: 3 },
        FundInstruction::SetDepositSchedule { schedule },
        FundInstruction::DisableDeposits,
        FundInstruction::ApproveDeposit { amount: u64::MAX },
        FundInstruction::DenyDeposit { deny_reason: reason("limit") },
        FundInstruction::SetWithdrawalSchedule { schedule },
        FundInstruction::DisableWithdrawals,
        FundInstruction::ApproveWithdrawal { amount: 1 },
        FundInstruction::DenyWithdrawal { deny_reason: reason("kyc") },
        FundInstruction::LockAssets { amount: 30 },
        FundInstruction::UnlockAssets { amount: 0 },
        FundInstruction::SetAssetsTrackingConfig { config },
        FundInstruction::UpdateAssetsWithVault,
        FundInstruction::UpdateAssetsWithCustody,
        FundInstruction::AddVault,
        FundInstruction::RemoveVault,
        FundInstruction::AddCustody { target_hash: 9, custody_id: 4, custody_type: FundCustodyType::DepositWithdraw },
        FundInstruction::RemoveCustody,
    ];
    for ins in all {
        let back = round_trip(ins);
        assert_eq!(format!("{:?}", back), format!("{:?}", ins));
        assert_eq!(back.instruction_type(), ins.instruction_type());
    }
}

#[test]
fn unknown_tag_is_rejected() {
    assert_eq!(FundInstruction::unpack(&[23]).unwrap_err(), FundError::InvalidInstructionData);
    assert_eq!(FundInstruction::unpack(&[255, 0, 0]).unwrap_err(), FundError::InvalidInstructionData);
    assert_eq!(FundInstructionType::try_from_primitive(23), None);
    assert_eq!(FundInstructionType::try_from_primitive(22), Some(FundInstructionType::RemoveCustody));
}

#[test]
fn short_buffers_are_rejected() {
    assert_eq!(FundInstruction::unpack(&[]).unwrap_err(), FundError::InvalidInstructionData);
    assert_eq!(FundInstruction::unpack(&[1, 0, 0, 0]).unwrap_err(), FundError::InvalidInstructionData);
    let mut deny = vec![9u8; 64];
    deny[0] = 9;
    assert_eq!(FundInstruction::unpack(&deny).unwrap_err(), FundError::InvalidInstructionData);
}

#[test]
fn malformed_flag_and_custody_type_are_rejected() {
    let schedule = FundSchedule { start_time: 1, end_time: 2, approval_required: false, limit_usd: 0, fee: 0 };
    let mut bytes = FundInstruction::SetDepositSchedule { schedule }.to_vec().unwrap();
    bytes[17] = 2;
    assert_eq!(FundInstruction::unpack(&bytes).unwrap_err(), FundError::InvalidInstructionData);
    let add = FundInstruction::AddCustody { target_hash: 1, custody_id: 1, custody_type: FundCustodyType::Trading };
    let mut bytes = add.to_vec().unwrap();
    bytes[13] = 7;
    assert_eq!(FundInstruction::unpack(&bytes).unwrap_err(), FundError::InvalidInstructionData);
}

#[test]
fn trailing_bytes_are_ignored() {
    let ins = FundInstruction::unpack(&[0, 1, 2, 3]).unwrap();
    assert_eq!(ins.instruction_type(), FundInstructionType::UserInit);
}

#[test]
fn pack_writes_prefix_and_reports_length() {
    let mut out = [0xAAu8; 12];
    let n = FundInstruction::LockAssets { amount: 3 }.pack(&mut out).unwrap();
    assert_eq!(n, 9);
    assert_eq!(out, [14, 3, 0, 0, 0, 0, 0, 0, 0, 0xAA, 0xAA, 0xAA]);
}

#[test]
fn pack_into_short_buffer_fails_untouched() {
    let mut out = [0u8; 8];
    let r = FundInstruction::RequestDeposit { amount: 3 }.pack(&mut out);
    assert_eq!(r, Err(FundError::AccountDataTooSmall));
    assert_eq!(out, [0u8; 8]);
}
