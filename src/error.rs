use vstd::prelude::*;

verus! {

/// Failure of a fund operation; mirrors the runtime's program errors.
#[derive(Clone, Copy, Debug, PartialEq, Eq, Structural)]
pub enum FundError {
    InvalidArgument,
    InvalidAccountData,
    InvalidInstructionData,
    IllegalOwner,
    IncorrectProgramId,
    MissingRequiredSignature,
    InsufficientFunds,
    AccountAlreadyInitialized,
    AccountDataTooSmall,
    InvalidSeeds,
    ArithmeticOverflow,
    /// Numbered error of this program (see the constants below).
    Custom(u32),
}

/// Deposits are outside their schedule window.
pub const ERR_DEPOSITS_NOT_ALLOWED: u32 = 220;
/// A deposit is over the per-deposit USD limit.
pub const ERR_DEPOSIT_LIMIT: u32 = 221;
/// The tracked assets value is stale or unusable.
pub const ERR_ASSETS_STALE: u32 = 222;
/// The fund's total assets limit would be exceeded.
pub const ERR_ASSETS_LIMIT: u32 = 223;
/// Withdrawals are outside their schedule window.
pub const ERR_WITHDRAWALS_NOT_ALLOWED: u32 = 224;
/// A withdrawal is over the per-withdrawal USD limit.
pub const ERR_WITHDRAWAL_LIMIT: u32 = 225;
/// A deposit would mint no fund tokens.
pub const ERR_NOTHING_MINTED: u32 = 170;
/// The oracle account is empty.
pub const ERR_ORACLE_EMPTY: u32 = 300;
/// The oracle price is not in trading state.
pub const ERR_ORACLE_STATE: u32 = 301;
/// The oracle price is older than allowed.
pub const ERR_ORACLE_STALE: u32 = 302;
/// The oracle price is non-positive or its confidence interval is too wide.
pub const ERR_ORACLE_BOUNDS: u32 = 303;

} // verus!
