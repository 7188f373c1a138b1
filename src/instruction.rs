//! Fixed-layout binary encoding of the fund's instructions: a one-byte tag followed
//! by a little-endian payload whose length is fixed by the tag.
use vstd::prelude::*;
use vstd::bytes::{
    spec_u32_from_le_bytes, spec_u32_to_le_bytes, spec_u64_from_le_bytes, spec_u64_to_le_bytes,
    u32_from_le_bytes, u32_to_le_bytes, u64_from_le_bytes, u64_to_le_bytes,
};
use vstd::slice::slice_subrange;
use crate::error::FundError;
use crate::state::{DenyReason, FundAssetsTrackingConfig, FundCustodyType, FundSchedule};

verus! {

/// An instruction of the fund program.
#[derive(Clone, Copy, Debug)]
pub enum FundInstruction {
    /// Initialize on-chain record for a new user
    UserInit,
    /// Request deposit to the Fund
    RequestDeposit { amount: u64 },
    /// Cancel pending deposit to the Fund
    CancelDeposit,
    /// Request withdrawal from the Fund
    RequestWithdrawal { amount: u64 },
    /// Cancel pending withdrawal from the Fund
    CancelWithdrawal,
    /// Initialize the Fund
    Init { step: u64 },
    /// Set schedule and enable deposits
    SetDepositSchedule { schedule: FundSchedule },
    /// Disable all deposits
    DisableDeposits,
    /// Approve pending deposit for the user
    ApproveDeposit { amount: u64 },
    /// Deny pending deposit for the user
    DenyDeposit { deny_reason: DenyReason },
    /// Set schedule and enable withdrawals
    SetWithdrawalSchedule { schedule: FundSchedule },
    /// Disable all withdrawals
    DisableWithdrawals,
    /// Approve pending withdrawal for the user
    ApproveWithdrawal { amount: u64 },
    /// Deny pending withdrawal for the user
    DenyWithdrawal { deny_reason: DenyReason },
    /// Move funds from deposit/withdrawal custody to trading custody
    LockAssets { amount: u64 },
    /// Move funds from trading custody to deposit/withdrawal custody
    UnlockAssets { amount: u64 },
    /// Set parameters for assets tracking
    SetAssetsTrackingConfig { config: FundAssetsTrackingConfig },
    /// Update Fund assets with the Vault's holdings
    UpdateAssetsWithVault,
    /// Update Fund assets with the Custody's holdings
    UpdateAssetsWithCustody,
    /// Add a Vault to the Fund
    AddVault,
    /// Remove a Vault from the Fund
    RemoveVault,
    /// Add a Custody to the Fund
    AddCustody { target_hash: u64, custody_id: u32, custody_type: FundCustodyType },
    /// Remove a Custody from the Fund
    RemoveCustody,
}

/// The tag of an instruction; its position in this list is its first byte on the wire.
#[derive(Clone, Copy, Debug, PartialEq, Eq, Structural)]
pub enum FundInstructionType {
    UserInit,
    RequestDeposit,
    CancelDeposit,
    RequestWithdrawal,
    CancelWithdrawal,
    Init,
    SetDepositSchedule,
    DisableDeposits,
    ApproveDeposit,
    DenyDeposit,
    SetWithdrawalSchedule,
    DisableWithdrawals,
    ApproveWithdrawal,
    DenyWithdrawal,
    LockAssets,
    UnlockAssets,
    SetAssetsTrackingConfig,
    UpdateAssetsWithVault,
    UpdateAssetsWithCustody,
    AddVault,
    RemoveVault,
    AddCustody,
    RemoveCustody,
}

/// Longest encoded instruction.
pub const MAX_LEN: usize = 65;

impl FundInstructionType {
    pub open spec fn spec_to_u8(self) -> u8 {
        match self {
            FundInstructionType::UserInit => 0,
            FundInstructionType::RequestDeposit => 1,
            FundInstructionType::CancelDeposit => 2,
            FundInstructionType::RequestWithdrawal => 3,
            FundInstructionType::CancelWithdrawal => 4,
            FundInstructionType::Init => 5,
            FundInstructionType::SetDepositSchedule => 6,
            FundInstructionType::DisableDeposits => 7,
            FundInstructionType::ApproveDeposit => 8,
            FundInstructionType::DenyDeposit => 9,
            FundInstructionType::SetWithdrawalSchedule => 10,
            FundInstructionType::DisableWithdrawals => 11,
            FundInstructionType::ApproveWithdrawal => 12,
            FundInstructionType::DenyWithdrawal => 13,
            FundInstructionType::LockAssets => 14,
            FundInstructionType::UnlockAssets => 15,
            FundInstructionType::SetAssetsTrackingConfig => 16,
            FundInstructionType::UpdateAssetsWithVault => 17,
            FundInstructionType::UpdateAssetsWithCustody => 18,
            FundInstructionType::AddVault => 19,
            FundInstructionType::RemoveVault => 20,
            FundInstructionType::AddCustody => 21,
            FundInstructionType::RemoveCustody => 22,
        }
    }

    pub open spec fn spec_from_u8(b: u8) -> Option<FundInstructionType> {
        if b == 0 {
            Some(FundInstructionType::UserInit)
        } else if b == 1 {
            Some(FundInstructionType::RequestDeposit)
        } else if b == 2 {
            Some(FundInstructionType::CancelDeposit)
        } else if b == 3 {
            Some(FundInstructionType::RequestWithdrawal)
        } else if b == 4 {
            Some(FundInstructionType::CancelWithdrawal)
        } else if b == 5 {
            Some(FundInstructionType::Init)
        } else if b == 6 {
            Some(FundInstructionType::SetDepositSchedule)
        } else if b == 7 {
            Some(FundInstructionType::DisableDeposits)
        } else if b == 8 {
            Some(FundInstructionType::ApproveDeposit)
        } else if b == 9 {
            Some(FundInstructionType::DenyDeposit)
        } else if b == 10 {
            Some(FundInstructionType::SetWithdrawalSchedule)
        } else if b == 11 {
            Some(FundInstructionType::DisableWithdrawals)
        } else if b == 12 {
            Some(FundInstructionType::ApproveWithdrawal)
        } else if b == 13 {
            Some(FundInstructionType::DenyWithdrawal)
        } else if b == 14 {
            Some(FundInstructionType::LockAssets)
        } else if b == 15 {
            Some(FundInstructionType::UnlockAssets)
        } else if b == 16 {
            Some(FundInstructionType::SetAssetsTrackingConfig)
        } else if b == 17 {
            Some(FundInstructionType::UpdateAssetsWithVault)
        } else if b == 18 {
            Some(FundInstructionType::UpdateAssetsWithCustody)
        } else if b == 19 {
            Some(FundInstructionType::AddVault)
        } else if b == 20 {
            Some(FundInstructionType::RemoveVault)
        } else if b == 21 {
            Some(FundInstructionType::AddCustody)
        } else if b == 22 {
            Some(FundInstructionType::RemoveCustody)
        } else {
            None
        }
    }

    /// Encoded length of an instruction with this tag.
    pub open spec fn spec_len(self) -> nat {
        match self {
            FundInstructionType::UserInit => 1,
            FundInstructionType::RequestDeposit => 9,
            FundInstructionType::CancelDeposit => 1,
            FundInstructionType::RequestWithdrawal => 9,
            FundInstructionType::CancelWithdrawal => 1,
            FundInstructionType::Init => 9,
            FundInstructionType::SetDepositSchedule => 34,
            FundInstructionType::DisableDeposits => 1,
            FundInstructionType::ApproveDeposit => 9,
            FundInstructionType::DenyDeposit => 65,
            FundInstructionType::SetWithdrawalSchedule => 34,
            FundInstructionType::DisableWithdrawals => 1,
            FundInstructionType::ApproveWithdrawal => 9,
            FundInstructionType::DenyWithdrawal => 65,
            FundInstructionType::LockAssets => 9,
            FundInstructionType::UnlockAssets => 9,
            FundInstructionType::SetAssetsTrackingConfig => 33,
            FundInstructionType::UpdateAssetsWithVault => 1,
            FundInstructionType::UpdateAssetsWithCustody => 1,
            FundInstructionType::AddVault => 1,
            FundInstructionType::RemoveVault => 1,
            FundInstructionType::AddCustody => 14,
            FundInstructionType::RemoveCustody => 1,
        }
    }

    pub fn to_u8(&self) -> (r: u8)
        ensures
            r == self.spec_to_u8(),
    {
        match self {
            FundInstructionType::UserInit => 0,
            FundInstructionType::RequestDeposit => 1,
            FundInstructionType::CancelDeposit => 2,
            FundInstructionType::RequestWithdrawal => 3,
            FundInstructionType::CancelWithdrawal => 4,
            FundInstructionType::Init => 5,
            FundInstructionType::SetDepositSchedule => 6,
            FundInstructionType::DisableDeposits => 7,
            FundInstructionType::ApproveDeposit => 8,
            FundInstructionType::DenyDeposit => 9,
            FundInstructionType::SetWithdrawalSchedule => 10,
            FundInstructionType::DisableWithdrawals => 11,
            FundInstructionType::ApproveWithdrawal => 12,
            FundInstructionType::DenyWithdrawal => 13,
            FundInstructionType::LockAssets => 14,
            FundInstructionType::UnlockAssets => 15,
            FundInstructionType::SetAssetsTrackingConfig => 16,
            FundInstructionType::UpdateAssetsWithVault => 17,
            FundInstructionType::UpdateAssetsWithCustody => 18,
            FundInstructionType::AddVault => 19,
            FundInstructionType::RemoveVault => 20,
            FundInstructionType::AddCustody => 21,
            FundInstructionType::RemoveCustody => 22,
        }
    }

    /// The tag that byte `b` names, if any.
    pub fn try_from_primitive(b: u8) -> (r: Option<FundInstructionType>)
        ensures
            r == FundInstructionType::spec_from_u8(b),
    {
        if b == 0 {
            Some(FundInstructionType::UserInit)
        } else if b == 1 {
            Some(FundInstructionType::RequestDeposit)
        } else if b == 2 {
            Some(FundInstructionType::CancelDeposit)
        } else if b == 3 {
            Some(FundInstructionType::RequestWithdrawal)
        } else if b == 4 {
            Some(FundInstructionType::CancelWithdrawal)
        } else if b == 5 {
            Some(FundInstructionType::Init)
        } else if b == 6 {
            Some(FundInstructionType::SetDepositSchedule)
        } else if b == 7 {
            Some(FundInstructionType::DisableDeposits)
        } else if b == 8 {
            Some(FundInstructionType::ApproveDeposit)
        } else if b == 9 {
            Some(FundInstructionType::DenyDeposit)
        } else if b == 10 {
            Some(FundInstructionType::SetWithdrawalSchedule)
        } else if b == 11 {
            Some(FundInstructionType::DisableWithdrawals)
        } else if b == 12 {
            Some(FundInstructionType::ApproveWithdrawal)
        } else if b == 13 {
            Some(FundInstructionType::DenyWithdrawal)
        } else if b == 14 {
            Some(FundInstructionType::LockAssets)
        } else if b == 15 {
            Some(FundInstructionType::UnlockAssets)
        } else if b == 16 {
            Some(FundInstructionType::SetAssetsTrackingConfig)
        } else if b == 17 {
            Some(FundInstructionType::UpdateAssetsWithVault)
        } else if b == 18 {
            Some(FundInstructionType::UpdateAssetsWithCustody)
        } else if b == 19 {
            Some(FundInstructionType::AddVault)
        } else if b == 20 {
            Some(FundInstructionType::RemoveVault)
        } else if b == 21 {
            Some(FundInstructionType::AddCustody)
        } else if b == 22 {
            Some(FundInstructionType::RemoveCustody)
        } else {
            None
        }
    }

    pub fn encoded_len(&self) -> (r: usize)
        ensures
            r == self.spec_len(),
    {
        match self {
            FundInstructionType::UserInit => 1,
            FundInstructionType::RequestDeposit => 9,
            FundInstructionType::CancelDeposit => 1,
            FundInstructionType::RequestWithdrawal => 9,
            FundInstructionType::CancelWithdrawal => 1,
            FundInstructionType::Init => 9,
            FundInstructionType::SetDepositSchedule => 34,
            FundInstructionType::DisableDeposits => 1,
            FundInstructionType::ApproveDeposit => 9,
            FundInstructionType::DenyDeposit => 65,
            FundInstructionType::SetWithdrawalSchedule => 34,
            FundInstructionType::DisableWithdrawals => 1,
            FundInstructionType::ApproveWithdrawal => 9,
            FundInstructionType::DenyWithdrawal => 65,
            FundInstructionType::LockAssets => 9,
            FundInstructionType::UnlockAssets => 9,
            FundInstructionType::SetAssetsTrackingConfig => 33,
            FundInstructionType::UpdateAssetsWithVault => 1,
            FundInstructionType::UpdateAssetsWithCustody => 1,
            FundInstructionType::AddVault => 1,
            FundInstructionType::RemoveVault => 1,
            FundInstructionType::AddCustody => 14,
            FundInstructionType::RemoveCustody => 1,
        }
    }
}

pub open spec fn i64_bytes(x: i64) -> Seq<u8> {
    spec_u64_to_le_bytes(x as u64)
}

pub open spec fn bool_byte(b: bool) -> u8 {
    if b { 1 } else { 0 }
}

pub open spec fn schedule_bytes(s: FundSchedule) -> Seq<u8> {
    i64_bytes(s.start_time) + i64_bytes(s.end_time) + seq![bool_byte(s.approval_required)]
        + spec_u64_to_le_bytes(s.limit_usd) + spec_u64_to_le_bytes(s.fee)
}

pub open spec fn config_bytes(c: FundAssetsTrackingConfig) -> Seq<u8> {
    spec_u64_to_le_bytes(c.assets_limit_usd) + spec_u64_to_le_bytes(c.max_update_age_sec)
        + spec_u64_to_le_bytes(c.max_price_error) + spec_u64_to_le_bytes(c.max_price_age_sec)
}

/// The bytes of one 64-bit field at `at`.
pub open spec fn field8(s: Seq<u8>, at: int) -> Seq<u8> {
    s.subrange(at, at + 8)
}

pub open spec fn decode_bool(b: u8) -> Option<bool> {
    if b == 0 {
        Some(false)
    } else if b == 1 {
        Some(true)
    } else {
        None
    }
}

/// The schedule held in the 33 bytes after the tag.
pub open spec fn decode_schedule(s: Seq<u8>) -> Option<FundSchedule> {
    match decode_bool(s[17]) {
        Some(approval_required) => Some(FundSchedule {
            start_time: spec_u64_from_le_bytes(field8(s, 1)) as i64,
            end_time: spec_u64_from_le_bytes(field8(s, 9)) as i64,
            approval_required,
            limit_usd: spec_u64_from_le_bytes(field8(s, 18)),
            fee: spec_u64_from_le_bytes(field8(s, 26)),
        }),
        None => None,
    }
}

pub open spec fn decode_config(s: Seq<u8>) -> FundAssetsTrackingConfig {
    FundAssetsTrackingConfig {
        assets_limit_usd: spec_u64_from_le_bytes(field8(s, 1)),
        max_update_age_sec: spec_u64_from_le_bytes(field8(s, 9)),
        max_price_error: spec_u64_from_le_bytes(field8(s, 17)),
        max_price_age_sec: spec_u64_from_le_bytes(field8(s, 25)),
    }
}

pub open spec fn decode_reason(s: Seq<u8>) -> DenyReason {
    DenyReason { bytes: choose|a: [u8; 64]| a@ == s.subrange(1, 65) }
}

impl FundInstruction {
    pub open spec fn spec_type(self) -> FundInstructionType {
        match self {
            FundInstruction::UserInit { .. } => FundInstructionType::UserInit,
            FundInstruction::RequestDeposit { .. } => FundInstructionType::RequestDeposit,
            FundInstruction::CancelDeposit { .. } => FundInstructionType::CancelDeposit,
            FundInstruction::RequestWithdrawal { .. } => FundInstructionType::RequestWithdrawal,
            FundInstruction::CancelWithdrawal { .. } => FundInstructionType::CancelWithdrawal,
            FundInstruction::Init { .. } => FundInstructionType::Init,
            FundInstruction::SetDepositSchedule { .. } => FundInstructionType::SetDepositSchedule,
            FundInstruction::DisableDeposits { .. } => FundInstructionType::DisableDeposits,
            FundInstruction::ApproveDeposit { .. } => FundInstructionType::ApproveDeposit,
            FundInstruction::DenyDeposit { .. } => FundInstructionType::DenyDeposit,
            FundInstruction::SetWithdrawalSchedule { .. } => FundInstructionType::SetWithdrawalSchedule,
            FundInstruction::DisableWithdrawals { .. } => FundInstructionType::DisableWithdrawals,
            FundInstruction::ApproveWithdrawal { .. } => FundInstructionType::ApproveWithdrawal,
            FundInstruction::DenyWithdrawal { .. } => FundInstructionType::DenyWithdrawal,
            FundInstruction::LockAssets { .. } => FundInstructionType::LockAssets,
            FundInstruction::UnlockAssets { .. } => FundInstructionType::UnlockAssets,
            FundInstruction::SetAssetsTrackingConfig { .. } => FundInstructionType::SetAssetsTrackingConfig,
            FundInstruction::UpdateAssetsWithVault { .. } => FundInstructionType::UpdateAssetsWithVault,
            FundInstruction::UpdateAssetsWithCustody { .. } => FundInstructionType::UpdateAssetsWithCustody,
            FundInstruction::AddVault { .. } => FundInstructionType::AddVault,
            FundInstruction::RemoveVault { .. } => FundInstructionType::RemoveVault,
            FundInstruction::AddCustody { .. } => FundInstructionType::AddCustody,
            FundInstruction::RemoveCustody { .. } => FundInstructionType::RemoveCustody,
        }
    }

    /// The bytes of this instruction on the wire.
    pub open spec fn encode(self) -> Seq<u8> {
        seq![self.spec_type().spec_to_u8()] + match self {
            FundInstruction::RequestDeposit { amount } => spec_u64_to_le_bytes(amount),
            FundInstruction::RequestWithdrawal { amount } => spec_u64_to_le_bytes(amount),
            FundInstruction::Init { step } => spec_u64_to_le_bytes(step),
            FundInstruction::SetDepositSchedule { schedule } => schedule_bytes(schedule),
            FundInstruction::ApproveDeposit { amount } => spec_u64_to_le_bytes(amount),
            FundInstruction::DenyDeposit { deny_reason } => deny_reason@,
            FundInstruction::SetWithdrawalSchedule { schedule } => schedule_bytes(schedule),
            FundInstruction::ApproveWithdrawal { amount } => spec_u64_to_le_bytes(amount),
            FundInstruction::DenyWithdrawal { deny_reason } => deny_reason@,
            FundInstruction::LockAssets { amount } => spec_u64_to_le_bytes(amount),
            FundInstruction::UnlockAssets { amount } => spec_u64_to_le_bytes(amount),
            FundInstruction::SetAssetsTrackingConfig { config } => config_bytes(config),
            FundInstruction::AddCustody { target_hash, custody_id, custody_type } =>
                spec_u64_to_le_bytes(target_hash) + spec_u32_to_le_bytes(custody_id)
                    + seq![custody_type.spec_to_u8()],
            _ => Seq::empty(),
        }
    }

    /// The instruction that `s` encodes, if any: its tag must be known and `s` at least
    /// as long as that tag's fixed length; bytes past that length are ignored.
    pub open spec fn decode(s: Seq<u8>) -> Option<FundInstruction> {
        if s.len() < 1 {
            None
        } else {
            match FundInstructionType::spec_from_u8(s[0]) {
                None => None,
                Some(t) => if s.len() < t.spec_len() {
                    None
                } else {
                    match t {
                        FundInstructionType::UserInit => Some(FundInstruction::UserInit),
                        FundInstructionType::RequestDeposit => Some(FundInstruction::RequestDeposit { amount: spec_u64_from_le_bytes(field8(s, 1)) }),
                        FundInstructionType::CancelDeposit => Some(FundInstruction::CancelDeposit),
                        FundInstructionType::RequestWithdrawal => Some(FundInstruction::RequestWithdrawal { amount: spec_u64_from_le_bytes(field8(s, 1)) }),
                        FundInstructionType::CancelWithdrawal => Some(FundInstruction::CancelWithdrawal),
                        FundInstructionType::Init => Some(FundInstruction::Init { step: spec_u64_from_le_bytes(field8(s, 1)) }),
                        FundInstructionType::SetDepositSchedule => match decode_schedule(s) {
                            Some(schedule) => Some(FundInstruction::SetDepositSchedule { schedule }),
                            None => None,
                        },
                        FundInstructionType::DisableDeposits => Some(FundInstruction::DisableDeposits),
                        FundInstructionType::ApproveDeposit => Some(FundInstruction::ApproveDeposit { amount: spec_u64_from_le_bytes(field8(s, 1)) }),
                        FundInstructionType::DenyDeposit => Some(FundInstruction::DenyDeposit { deny_reason: decode_reason(s) }),
                        FundInstructionType::SetWithdrawalSchedule => match decode_schedule(s) {
                            Some(schedule) => Some(FundInstruction::SetWithdrawalSchedule { schedule }),
                            None => None,
                        },
                        FundInstructionType::DisableWithdrawals => Some(FundInstruction::DisableWithdrawals),
                        FundInstructionType::ApproveWithdrawal => Some(FundInstruction::ApproveWithdrawal { amount: spec_u64_from_le_bytes(field8(s, 1)) }),
                        FundInstructionType::DenyWithdrawal => Some(FundInstruction::DenyWithdrawal { deny_reason: decode_reason(s) }),
                        FundInstructionType::LockAssets => Some(FundInstruction::LockAssets { amount: spec_u64_from_le_bytes(field8(s, 1)) }),
                        FundInstructionType::UnlockAssets => Some(FundInstruction::UnlockAssets { amount: spec_u64_from_le_bytes(field8(s, 1)) }),
                        FundInstructionType::SetAssetsTrackingConfig => Some(FundInstruction::SetAssetsTrackingConfig { config: decode_config(s) }),
                        FundInstructionType::UpdateAssetsWithVault => Some(FundInstruction::UpdateAssetsWithVault),
                        FundInstructionType::UpdateAssetsWithCustody => Some(FundInstruction::UpdateAssetsWithCustody),
                        FundInstructionType::AddVault => Some(FundInstruction::AddVault),
                        FundInstructionType::RemoveVault => Some(FundInstruction::RemoveVault),
                        FundInstructionType::AddCustody => match FundCustodyType::spec_from_u8(s[13]) {
                            Some(custody_type) => Some(FundInstruction::AddCustody {
                                target_hash: spec_u64_from_le_bytes(field8(s, 1)),
                                custody_id: spec_u32_from_le_bytes(s.subrange(9, 13)),
                                custody_type,
                            }),
                            None => None,
                        },
                        FundInstructionType::RemoveCustody => Some(FundInstruction::RemoveCustody),
                    }
                },
            }
        }
    }

    pub fn instruction_type(&self) -> (r: FundInstructionType)
        ensures
            r == self.spec_type(),
    {
        match self {
            FundInstruction::UserInit { .. } => FundInstructionType::UserInit,
            FundInstruction::RequestDeposit { .. } => FundInstructionType::RequestDeposit,
            FundInstruction::CancelDeposit { .. } => FundInstructionType::CancelDeposit,
            FundInstruction::RequestWithdrawal { .. } => FundInstructionType::RequestWithdrawal,
            FundInstruction::CancelWithdrawal { .. } => FundInstructionType::CancelWithdrawal,
            FundInstruction::Init { .. } => FundInstructionType::Init,
            FundInstruction::SetDepositSchedule { .. } => FundInstructionType::SetDepositSchedule,
            FundInstruction::DisableDeposits { .. } => FundInstructionType::DisableDeposits,
            FundInstruction::ApproveDeposit { .. } => FundInstructionType::ApproveDeposit,
            FundInstruction::DenyDeposit { .. } => FundInstructionType::DenyDeposit,
            FundInstruction::SetWithdrawalSchedule { .. } => FundInstructionType::SetWithdrawalSchedule,
            FundInstruction::DisableWithdrawals { .. } => FundInstructionType::DisableWithdrawals,
            FundInstruction::ApproveWithdrawal { .. } => FundInstructionType::ApproveWithdrawal,
            FundInstruction::DenyWithdrawal { .. } => FundInstructionType::DenyWithdrawal,
            FundInstruction::LockAssets { .. } => FundInstructionType::LockAssets,
            FundInstruction::UnlockAssets { .. } => FundInstructionType::UnlockAssets,
            FundInstruction::SetAssetsTrackingConfig { .. } => FundInstructionType::SetAssetsTrackingConfig,
            FundInstruction::UpdateAssetsWithVault { .. } => FundInstructionType::UpdateAssetsWithVault,
            FundInstruction::UpdateAssetsWithCustody { .. } => FundInstructionType::UpdateAssetsWithCustody,
            FundInstruction::AddVault { .. } => FundInstructionType::AddVault,
            FundInstruction::RemoveVault { .. } => FundInstructionType::RemoveVault,
            FundInstruction::AddCustody { .. } => FundInstructionType::AddCustody,
            FundInstruction::RemoveCustody { .. } => FundInstructionType::RemoveCustody,
        }
    }

    /// The encoded bytes of this instruction.
    pub fn encoded(&self) -> (r: Vec<u8>)
        ensures
            r@ == self.encode(),
    {
        let mut out: Vec<u8> = vec![self.instruction_type().to_u8()];
        match self {
            FundInstruction::RequestDeposit { amount } => {
                let mut b = u64_to_le_bytes(*amount);
                out.append(&mut b);
            },
            FundInstruction::RequestWithdrawal { amount } => {
                let mut b = u64_to_le_bytes(*amount);
                out.append(&mut b);
            },
            FundInstruction::Init { step } => {
                let mut b = u64_to_le_bytes(*step);
                out.append(&mut b);
            },
            FundInstruction::SetDepositSchedule { schedule } => {
                let mut b = encode_schedule(schedule);
                out.append(&mut b);
            },
            FundInstruction::ApproveDeposit { amount } => {
                let mut b = u64_to_le_bytes(*amount);
                out.append(&mut b);
            },
            FundInstruction::DenyDeposit { deny_reason } => {
                let mut b = array_to_vec(&deny_reason.bytes);
                out.append(&mut b);
            },
            FundInstruction::SetWithdrawalSchedule { schedule } => {
                let mut b = encode_schedule(schedule);
                out.append(&mut b);
            },
            FundInstruction::ApproveWithdrawal { amount } => {
                let mut b = u64_to_le_bytes(*amount);
                out.append(&mut b);
            },
            FundInstruction::DenyWithdrawal { deny_reason } => {
                let mut b = array_to_vec(&deny_reason.bytes);
                out.append(&mut b);
            },
            FundInstruction::LockAssets { amount } => {
                let mut b = u64_to_le_bytes(*amount);
                out.append(&mut b);
            },
            FundInstruction::UnlockAssets { amount } => {
                let mut b = u64_to_le_bytes(*amount);
                out.append(&mut b);
            },
            FundInstruction::SetAssetsTrackingConfig { config } => {
                let mut b = encode_config(config);
                out.append(&mut b);
            },
            FundInstruction::AddCustody { target_hash, custody_id, custody_type } => {
                let mut a = u64_to_le_bytes(*target_hash);
                let mut b = u32_to_le_bytes(*custody_id);
                out.append(&mut a);
                out.append(&mut b);
                out.push(custody_type.to_u8());
            },
            _ => {},
        }
        assert(out@ =~= self.encode());
        out
    }

    /// Writes the encoding at the start of `output` and returns its length; fails
    /// when `output` is too short, leaving it untouched.
    pub fn pack(&self, output: &mut [u8]) -> (r: Result<usize, FundError>)
        ensures
            old(output)@.len() < self.encode().len() ==> r == Err::<usize, FundError>(FundError::AccountDataTooSmall)
                && final(output)@ == old(output)@,
            old(output)@.len() >= self.encode().len() ==> r == Ok::<usize, FundError>(self.encode().len() as usize)
                && final(output)@ == self.encode() + old(output)@.subrange(self.encode().len() as int, old(output)@.len() as int),
    {
        let bytes = self.encoded();
        if output.len() < bytes.len() {
            return Err(FundError::AccountDataTooSmall);
        }
        let mut i: usize = 0;
        while i < bytes.len()
            invariant
                0 <= i <= bytes@.len() <= output@.len(),
                output@.len() == old(output)@.len(),
                bytes@ == self.encode(),
                forall|j: int| 0 <= j < i ==> output@[j] == bytes@[j],
                forall|j: int| i <= j < output@.len() ==> output@[j] == old(output)@[j],
            decreases bytes@.len() - i,
        {
            output[i] = bytes[i];
            i = i + 1;
        }
        assert(output@ =~= self.encode() + old(output)@.subrange(self.encode().len() as int, old(output)@.len() as int));
        Ok(bytes.len())
    }

    /// The encoding as a vector of exactly its length.
    pub fn to_vec(&self) -> (r: Result<Vec<u8>, FundError>)
        ensures
            r matches Ok(v) && v@ == self.encode(),
    {
        Ok(self.encoded())
    }

    /// Decodes an instruction: fails with `InvalidInstructionData` on an empty or
    /// short buffer, an unknown tag, or a malformed flag or custody type.
    pub fn unpack(input: &[u8]) -> (r: Result<FundInstruction, FundError>)
        ensures
            FundInstruction::decode(input@) matches Some(i) ==> r matches Ok(j) && j == i,
            FundInstruction::decode(input@) is None ==> r == Err::<FundInstruction, FundError>(FundError::InvalidInstructionData),
    {
        if input.len() < 1 {
            return Err(FundError::InvalidInstructionData);
        }
        let t = match FundInstructionType::try_from_primitive(input[0]) {
            Some(t) => t,
            None => return Err(FundError::InvalidInstructionData),
        };
        if input.len() < t.encoded_len() {
            return Err(FundError::InvalidInstructionData);
        }
        match t {
            FundInstructionType::UserInit => Ok(FundInstruction::UserInit),
            FundInstructionType::RequestDeposit => Ok(FundInstruction::RequestDeposit { amount: u64_from_le_bytes(slice_subrange(input, 1, 9)) }),
            FundInstructionType::CancelDeposit => Ok(FundInstruction::CancelDeposit),
            FundInstructionType::RequestWithdrawal => Ok(FundInstruction::RequestWithdrawal { amount: u64_from_le_bytes(slice_subrange(input, 1, 9)) }),
            FundInstructionType::CancelWithdrawal => Ok(FundInstruction::CancelWithdrawal),
            FundInstructionType::Init => Ok(FundInstruction::Init { step: u64_from_le_bytes(slice_subrange(input, 1, 9)) }),
            FundInstructionType::SetDepositSchedule => match unpack_schedule(input) {
                Some(schedule) => Ok(FundInstruction::SetDepositSchedule { schedule }),
                None => Err(FundError::InvalidInstructionData),
            },
            FundInstructionType::DisableDeposits => Ok(FundInstruction::DisableDeposits),
            FundInstructionType::ApproveDeposit => Ok(FundInstruction::ApproveDeposit { amount: u64_from_le_bytes(slice_subrange(input, 1, 9)) }),
            FundInstructionType::DenyDeposit => Ok(FundInstruction::DenyDeposit { deny_reason: unpack_reason(input) }),
            FundInstructionType::SetWithdrawalSchedule => match unpack_schedule(input) {
                Some(schedule) => Ok(FundInstruction::SetWithdrawalSchedule { schedule }),
                None => Err(FundError::InvalidInstructionData),
            },
            FundInstructionType::DisableWithdrawals => Ok(FundInstruction::DisableWithdrawals),
            FundInstructionType::ApproveWithdrawal => Ok(FundInstruction::ApproveWithdrawal { amount: u64_from_le_bytes(slice_subrange(input, 1, 9)) }),
            FundInstructionType::DenyWithdrawal => Ok(FundInstruction::DenyWithdrawal { deny_reason: unpack_reason(input) }),
            FundInstructionType::LockAssets => Ok(FundInstruction::LockAssets { amount: u64_from_le_bytes(slice_subrange(input, 1, 9)) }),
            FundInstructionType::UnlockAssets => Ok(FundInstruction::UnlockAssets { amount: u64_from_le_bytes(slice_subrange(input, 1, 9)) }),
            FundInstructionType::SetAssetsTrackingConfig => Ok(FundInstruction::SetAssetsTrackingConfig { config: unpack_config(input) }),
            FundInstructionType::UpdateAssetsWithVault => Ok(FundInstruction::UpdateAssetsWithVault),
            FundInstructionType::UpdateAssetsWithCustody => Ok(FundInstruction::UpdateAssetsWithCustody),
            FundInstructionType::AddVault => Ok(FundInstruction::AddVault),
            FundInstructionType::RemoveVault => Ok(FundInstruction::RemoveVault),
            FundInstructionType::AddCustody => match FundCustodyType::try_from_u8(input[13]) {
                Some(custody_type) => Ok(FundInstruction::AddCustody {
                    target_hash: u64_from_le_bytes(slice_subrange(input, 1, 9)),
                    custody_id: u32_from_le_bytes(slice_subrange(input, 9, 13)),
                    custody_type,
                }),
                None => Err(FundError::InvalidInstructionData),
            },
            FundInstructionType::RemoveCustody => Ok(FundInstruction::RemoveCustody),
        }
    }
}

fn array_to_vec(a: &[u8; 64]) -> (r: Vec<u8>)
    ensures
        r@ == a@,
{
    let mut v: Vec<u8> = Vec::new();
    let mut i: usize = 0;
    while i < 64
        invariant
            0 <= i <= 64,
            a@.len() == 64,
            v@ == a@.subrange(0, i as int),
        decreases 64 - i,
    {
        v.push(a[i]);
        i = i + 1;
        assert(v@ =~= a@.subrange(0, i as int));
    }
    assert(a@.subrange(0, 64) =~= a@);
    v
}

fn encode_schedule(s: &FundSchedule) -> (r: Vec<u8>)
    ensures
        r@ == schedule_bytes(*s),
{
    let mut out = u64_to_le_bytes(s.start_time as u64);
    let mut b = u64_to_le_bytes(s.end_time as u64);
    out.append(&mut b);
    out.push(if s.approval_required { 1u8 } else { 0u8 });
    let mut c = u64_to_le_bytes(s.limit_usd);
    out.append(&mut c);
    let mut d = u64_to_le_bytes(s.fee);
    out.append(&mut d);
    assert(out@ =~= schedule_bytes(*s));
    out
}

fn encode_config(c: &FundAssetsTrackingConfig) -> (r: Vec<u8>)
    ensures
        r@ == config_bytes(*c),
{
    let mut out = u64_to_le_bytes(c.assets_limit_usd);
    let mut b = u64_to_le_bytes(c.max_update_age_sec);
    out.append(&mut b);
    let mut d = u64_to_le_bytes(c.max_price_error);
    out.append(&mut d);
    let mut e = u64_to_le_bytes(c.max_price_age_sec);
    out.append(&mut e);
    assert(out@ =~= config_bytes(*c));
    out
}

fn unpack_schedule(input: &[u8]) -> (r: Option<FundSchedule>)
    requires
        input@.len() >= 34,
    ensures
        r == decode_schedule(input@),
{
    let flag = input[17];
    let approval_required = if flag == 0 {
        false
    } else if flag == 1 {
        true
    } else {
        return None;
    };
    Some(FundSchedule {
        start_time: u64_from_le_bytes(slice_subrange(input, 1, 9)) as i64,
        end_time: u64_from_le_bytes(slice_subrange(input, 9, 17)) as i64,
        approval_required,
        limit_usd: u64_from_le_bytes(slice_subrange(input, 18, 26)),
        fee: u64_from_le_bytes(slice_subrange(input, 26, 34)),
    })
}

fn unpack_config(input: &[u8]) -> (r: FundAssetsTrackingConfig)
    requires
        input@.len() >= 33,
    ensures
        r == decode_config(input@),
{
    FundAssetsTrackingConfig {
        assets_limit_usd: u64_from_le_bytes(slice_subrange(input, 1, 9)),
        max_update_age_sec: u64_from_le_bytes(slice_subrange(input, 9, 17)),
        max_price_error: u64_from_le_bytes(slice_subrange(input, 17, 25)),
        max_price_age_sec: u64_from_le_bytes(slice_subrange(input, 25, 33)),
    }
}

fn unpack_reason(input: &[u8]) -> (r: DenyReason)
    requires
        input@.len() >= 65,
    ensures
        r == decode_reason(input@),
{
    let mut bytes = [0u8; 64];
    let mut i: usize = 0;
    while i < 64
        invariant
            0 <= i <= 64,
            input@.len() >= 65,
            bytes@.len() == 64,
            forall|j: int| 0 <= j < i ==> bytes@[j] == input@[j + 1],
        decreases 64 - i,
    {
        bytes[i] = input[i + 1];
        i = i + 1;
    }
    assert(bytes@ =~= input@.subrange(1, 65));
    let r = DenyReason { bytes };
    let ghost c = decode_reason(input@);
    assert(c.bytes@ == bytes@);
    assert(c.bytes == bytes);
    r
}

proof fn lemma_i64_round_trip(x: i64)
    ensures
        (x as u64) as i64 == x,
{
    assert((x as u64) as i64 == x) by (bit_vector);
}

/// Decoding the encoding of any instruction gives that instruction back.
pub proof fn lemma_decode_encode(ins: FundInstruction)
    ensures
        FundInstruction::decode(ins.encode()) == Some(ins),
{
    vstd::bytes::lemma_auto_spec_u64_to_from_le_bytes();
    vstd::bytes::lemma_auto_spec_u32_to_from_le_bytes();
    let e = ins.encode();
    match ins {
        FundInstruction::SetDepositSchedule { schedule } | FundInstruction::SetWithdrawalSchedule { schedule } => {
            let p = schedule_bytes(schedule);
            assert(e == seq![ins.spec_type().spec_to_u8()] + p);
            assert(field8(e, 1) =~= i64_bytes(schedule.start_time));
            assert(field8(e, 9) =~= i64_bytes(schedule.end_time));
            assert(e[17] == bool_byte(schedule.approval_required));
            assert(field8(e, 18) =~= spec_u64_to_le_bytes(schedule.limit_usd));
            assert(field8(e, 26) =~= spec_u64_to_le_bytes(schedule.fee));
            lemma_i64_round_trip(schedule.start_time);
            lemma_i64_round_trip(schedule.end_time);
        },
        FundInstruction::DenyDeposit { deny_reason } | FundInstruction::DenyWithdrawal { deny_reason } => {
            assert(e.subrange(1, 65) =~= deny_reason@);
            let c = decode_reason(e);
            assert(c.bytes@ == deny_reason.bytes@);
            assert(c.bytes == deny_reason.bytes);
        },
        FundInstruction::SetAssetsTrackingConfig { config } => {
            assert(field8(e, 1) =~= spec_u64_to_le_bytes(config.assets_limit_usd));
            assert(field8(e, 9) =~= spec_u64_to_le_bytes(config.max_update_age_sec));
            assert(field8(e, 17) =~= spec_u64_to_le_bytes(config.max_price_error));
            assert(field8(e, 25) =~= spec_u64_to_le_bytes(config.max_price_age_sec));
        },
        FundInstruction::AddCustody { target_hash, custody_id, custody_type } => {
            assert(field8(e, 1) =~= spec_u64_to_le_bytes(target_hash));
            assert(e.subrange(9, 13) =~= spec_u32_to_le_bytes(custody_id));
            assert(e[13] == custody_type.spec_to_u8());
        },
        FundInstruction::RequestDeposit { amount } | FundInstruction::RequestWithdrawal { amount }
        | FundInstruction::ApproveDeposit { amount } | FundInstruction::ApproveWithdrawal { amount }
        | FundInstruction::LockAssets { amount } | FundInstruction::UnlockAssets { amount }
        | FundInstruction::Init { step: amount } => {
            assert(field8(e, 1) =~= spec_u64_to_le_bytes(amount));
        },
        _ => {},
    }
}

} // verus!
