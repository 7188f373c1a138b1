//! Who may run which instruction, and the checks made on every instruction before
//! it reaches its handler.
use vstd::prelude::*;
use crate::address::Address;
use crate::error::FundError;
use crate::instruction::{FundInstruction, FundInstructionType};
use crate::state::Fund;
use crate::validate::{derive_fund_metadata, fund_metadata_derivation};

verus! {

/// Error when the fund's info or metadata account does not match the fund record.
pub const ERR_INVALID_FUND_ACCOUNTS: u32 = 511;

/// The caller an instruction requires.
#[derive(Clone, Copy, Debug, PartialEq, Eq, Structural)]
pub enum AuthorityPolicy {
    /// Any caller; the handler checks the user's own signature where it needs one.
    Anyone,
    /// The fund's admin, signing.
    Admin,
    /// The fund's manager or admin, signing.
    ManagerOrAdmin,
    /// As `ManagerOrAdmin`, but anyone while the fund is being liquidated.
    ManagerOrLiquidation,
}

pub open spec fn spec_policy_of(t: FundInstructionType) -> AuthorityPolicy {
    match t {
        FundInstructionType::Init | FundInstructionType::SetAssetsTrackingConfig | FundInstructionType::AddVault
        | FundInstructionType::RemoveVault | FundInstructionType::AddCustody
        | FundInstructionType::RemoveCustody => AuthorityPolicy::Admin,
        FundInstructionType::SetDepositSchedule | FundInstructionType::DisableDeposits
        | FundInstructionType::ApproveDeposit | FundInstructionType::DenyDeposit
        | FundInstructionType::SetWithdrawalSchedule | FundInstructionType::DisableWithdrawals
        | FundInstructionType::ApproveWithdrawal | FundInstructionType::DenyWithdrawal
        | FundInstructionType::LockAssets => AuthorityPolicy::ManagerOrAdmin,
        FundInstructionType::UnlockAssets => AuthorityPolicy::ManagerOrLiquidation,
        _ => AuthorityPolicy::Anyone,
    }
}

pub fn policy_of(t: FundInstructionType) -> (r: AuthorityPolicy)
    ensures
        r == spec_policy_of(t),
{
    match t {
        FundInstructionType::Init | FundInstructionType::SetAssetsTrackingConfig | FundInstructionType::AddVault
        | FundInstructionType::RemoveVault | FundInstructionType::AddCustody
        | FundInstructionType::RemoveCustody => AuthorityPolicy::Admin,
        FundInstructionType::SetDepositSchedule | FundInstructionType::DisableDeposits
        | FundInstructionType::ApproveDeposit | FundInstructionType::DenyDeposit
        | FundInstructionType::SetWithdrawalSchedule | FundInstructionType::DisableWithdrawals
        | FundInstructionType::ApproveWithdrawal | FundInstructionType::DenyWithdrawal
        | FundInstructionType::LockAssets => AuthorityPolicy::ManagerOrAdmin,
        FundInstructionType::UnlockAssets => AuthorityPolicy::ManagerOrLiquidation,
        _ => AuthorityPolicy::Anyone,
    }
}

/// Whether `caller` (signing or not) satisfies `policy` for `fund`.
pub open spec fn authority_check(policy: AuthorityPolicy, caller: Address, is_signer: bool, fund: Fund, liquidation_start_time: i64) -> Result<(), FundError> {
    match policy {
        AuthorityPolicy::Anyone => Ok(()),
        AuthorityPolicy::Admin => if caller@ != fund.admin_account@ {
            Err(FundError::IllegalOwner)
        } else if !is_signer {
            Err(FundError::MissingRequiredSignature)
        } else {
            Ok(())
        },
        AuthorityPolicy::ManagerOrAdmin => if caller@ != fund.fund_manager@ && caller@ != fund.admin_account@ {
            Err(FundError::IllegalOwner)
        } else if !is_signer {
            Err(FundError::MissingRequiredSignature)
        } else {
            Ok(())
        },
        AuthorityPolicy::ManagerOrLiquidation => if liquidation_start_time > 0 {
            Ok(())
        } else if caller@ != fund.fund_manager@ && caller@ != fund.admin_account@ {
            Err(FundError::IllegalOwner)
        } else if !is_signer {
            Err(FundError::MissingRequiredSignature)
        } else {
            Ok(())
        },
    }
}

pub fn check_authority(policy: AuthorityPolicy, caller: &Address, is_signer: bool, fund: &Fund, liquidation_start_time: i64) -> (r: Result<(), FundError>)
    ensures
        r == authority_check(policy, *caller, is_signer, *fund, liquidation_start_time),
{
    match policy {
        AuthorityPolicy::Anyone => Ok(()),
        AuthorityPolicy::Admin => {
            if !caller.same(&fund.admin_account) {
                Err(FundError::IllegalOwner)
            } else if !is_signer {
                Err(FundError::MissingRequiredSignature)
            } else {
                Ok(())
            }
        },
        AuthorityPolicy::ManagerOrAdmin | AuthorityPolicy::ManagerOrLiquidation => {
            if policy == AuthorityPolicy::ManagerOrLiquidation && liquidation_start_time > 0 {
                Ok(())
            } else if !caller.same(&fund.fund_manager) && !caller.same(&fund.admin_account) {
                Err(FundError::IllegalOwner)
            } else if !is_signer {
                Err(FundError::MissingRequiredSignature)
            } else {
                Ok(())
            }
        },
    }
}

/// What the program decides on entry, in order: the fund's metadata address is
/// derived under the registry program; the info account, the metadata account and
/// its owner must be the fund's, and the fund must belong to the running program;
/// then the instruction is decoded and the caller held to its policy. On success
/// the decoded instruction is returned for its handler.
pub open spec fn entry_result(
    fund: Fund,
    program_id: Address,
    registry: Address,
    fund_metadata_key: Address,
    fund_metadata_owner: Address,
    fund_info_key: Address,
    caller: Address,
    caller_is_signer: bool,
    liquidation_start_time: i64,
    data: Seq<u8>,
) -> Result<FundInstruction, FundError> {
    match fund_metadata_derivation(fund, registry, fund_metadata_key) {
        Err(e) => Err(e),
        Ok(metadata_matches) => if fund.info_account@ != fund_info_key@ || !metadata_matches
            || fund_metadata_owner@ != registry@ {
            Err(FundError::Custom(ERR_INVALID_FUND_ACCOUNTS))
        } else if fund.fund_program_id@ != program_id@ {
            Err(FundError::IncorrectProgramId)
        } else {
            match FundInstruction::decode(data) {
                None => Err(FundError::InvalidInstructionData),
                Some(i) => match authority_check(spec_policy_of(i.spec_type()), caller, caller_is_signer, fund, liquidation_start_time) {
                    Err(e) => Err(e),
                    Ok(_) => Ok(i),
                },
            }
        },
    }
}

pub fn process_instruction(
    fund: &Fund,
    program_id: &Address,
    registry: &Address,
    fund_metadata_key: &Address,
    fund_metadata_owner: &Address,
    fund_info_key: &Address,
    caller: &Address,
    caller_is_signer: bool,
    liquidation_start_time: i64,
    instruction_data: &[u8],
) -> (r: Result<FundInstruction, FundError>)
    ensures
        entry_result(*fund, *program_id, *registry, *fund_metadata_key, *fund_metadata_owner, *fund_info_key,
            *caller, caller_is_signer, liquidation_start_time, instruction_data@) matches Ok(i) ==> r matches Ok(j) && j == i,
        entry_result(*fund, *program_id, *registry, *fund_metadata_key, *fund_metadata_owner, *fund_info_key,
            *caller, caller_is_signer, liquidation_start_time, instruction_data@) matches Err(e) ==> r == Err::<FundInstruction, FundError>(e),
{
    let metadata_matches = derive_fund_metadata(fund, registry, fund_metadata_key)?;
    if !fund.info_account.same(fund_info_key) || !metadata_matches || !fund_metadata_owner.same(registry) {
        return Err(FundError::Custom(ERR_INVALID_FUND_ACCOUNTS));
    }
    if !fund.fund_program_id.same(program_id) {
        return Err(FundError::IncorrectProgramId);
    }
    let instruction = FundInstruction::unpack(instruction_data)?;
    check_authority(policy_of(instruction.instruction_type()), caller, caller_is_signer, fund, liquidation_start_time)?;
    Ok(instruction)
}

} // verus!
