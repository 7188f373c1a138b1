//! The fund's ledger records: configuration, aggregate statistics, custodies and
//! per-user request state. USD values and ratios are fixed-point integers.
use vstd::prelude::*;
use crate::address::Address;

verus! {

/// Denominator of a fee: a fee of `FEE_SCALE` is 100%.
pub const FEE_SCALE: u64 = 1_000_000;

/// USD values are held in millionths of a dollar.
pub const USD_DECIMALS: u32 = 6;

/// Denominator of the oracle's allowed confidence-to-price ratio.
pub const PRICE_ERROR_SCALE: u64 = 1_000_000;

/// Length of a deny reason on the wire and in the user record.
pub const DENY_REASON_LEN: usize = 64;

/// Which side of the fund a custody serves.
#[derive(Clone, Copy, Debug, PartialEq, Eq, Structural)]
pub enum FundCustodyType {
    DepositWithdraw,
    Trading,
}

impl FundCustodyType {
    pub open spec fn spec_to_u8(self) -> u8 {
        match self {
            FundCustodyType::DepositWithdraw => 0,
            FundCustodyType::Trading => 1,
        }
    }

    pub open spec fn spec_from_u8(b: u8) -> Option<FundCustodyType> {
        if b == 0 {
            Some(FundCustodyType::DepositWithdraw)
        } else if b == 1 {
            Some(FundCustodyType::Trading)
        } else {
            None
        }
    }

    pub fn to_u8(&self) -> (r: u8)
        ensures
            r == self.spec_to_u8(),
    {
        match self {
            FundCustodyType::DepositWithdraw => 0,
            FundCustodyType::Trading => 1,
        }
    }

    pub fn try_from_u8(b: u8) -> (r: Option<FundCustodyType>)
        ensures
            r == FundCustodyType::spec_from_u8(b),
    {
        if b == 0 {
            Some(FundCustodyType::DepositWithdraw)
        } else if b == 1 {
            Some(FundCustodyType::Trading)
        } else {
            None
        }
    }
}

/// A deposit or withdrawal window with its terms.
#[derive(Clone, Copy, Debug, PartialEq, Eq, Structural)]
pub struct FundSchedule {
    pub start_time: i64,
    pub end_time: i64,
    pub approval_required: bool,
    /// Largest value of one request in millionths of a USD; 0 means no limit.
    pub limit_usd: u64,
    /// Fee in units of `1 / FEE_SCALE`.
    pub fee: u64,
}

/// Parameters for valuing the fund's assets.
#[derive(Clone, Copy, Debug, PartialEq, Eq, Structural)]
pub struct FundAssetsTrackingConfig {
    /// Largest total assets value in millionths of a USD; 0 means no limit.
    pub assets_limit_usd: u64,
    pub max_update_age_sec: u64,
    /// Largest confidence-to-price ratio, in units of `1 / PRICE_ERROR_SCALE`.
    pub max_price_error: u64,
    pub max_price_age_sec: u64,
}

/// Fixed-length text given when a request is denied.
#[derive(Clone, Copy, Debug)]
pub struct DenyReason {
    pub bytes: [u8; 64],
}

impl View for DenyReason {
    type V = Seq<u8>;

    open spec fn view(&self) -> Seq<u8> {
        self.bytes@
    }
}

impl DenyReason {
    /// The empty reason: all bytes zero.
    pub fn empty() -> (r: DenyReason)
        ensures
            r@ == Seq::new(64, |i: int| 0u8),
    {
        let r = DenyReason { bytes: [0u8; 64] };
        assert(r@ =~= Seq::new(64, |i: int| 0u8));
        r
    }
}

/// The fund's configuration record: its names, roles and derived addresses.
#[derive(Clone, Debug)]
pub struct Fund {
    pub name: Vec<u8>,
    pub admin_account: Address,
    pub fund_manager: Address,
    pub fund_program_id: Address,
    pub fund_authority: Address,
    pub fund_token_ref: Address,
    pub info_account: Address,
    pub vaults_assets_info: Address,
    pub custodies_assets_info: Address,
    pub liquidation_state: Address,
    pub authority_bump: u8,
    pub fund_token_bump: u8,
    /// Bump of the fund's metadata address under the registry program.
    pub metadata_bump: u8,
}

/// Metadata of a token: its name (a derivation seed), mint and decimals.
#[derive(Clone, Debug)]
pub struct Token {
    pub name: Vec<u8>,
    pub mint: Address,
    pub decimals: u8,
}

/// A token account as the ledger reports it.
#[derive(Clone, Copy, Debug)]
pub struct TokenAccount {
    pub address: Address,
    pub mint: Address,
    pub owner: Address,
    pub amount: u64,
}

/// The fund's mutable aggregate record.
#[derive(Clone, Copy, Debug)]
pub struct FundInfo {
    pub deposit_schedule: FundSchedule,
    pub withdrawal_schedule: FundSchedule,
    pub assets_config: FundAssetsTrackingConfig,
    /// Running totals in millionths of a USD.
    pub amount_invested_usd: u64,
    pub amount_removed_usd: u64,
    pub current_assets_usd: u64,
    pub assets_update_time: i64,
    pub admin_action_time: i64,
    /// Zero while the fund is not being liquidated.
    pub liquidation_start_time: i64,
}

impl FundInfo {
    /// Fees are at most 100%.
    pub open spec fn wf(self) -> bool {
        &&& self.deposit_schedule.fee <= FEE_SCALE
        &&& self.withdrawal_schedule.fee <= FEE_SCALE
    }

    pub open spec fn in_window(s: FundSchedule, now: i64) -> bool {
        s.start_time <= now && now < s.end_time
    }

    /// A closed schedule: an empty window, no approval, no limit, no fee.
    pub open spec fn closed_schedule() -> FundSchedule {
        FundSchedule { start_time: 0, end_time: 0, approval_required: false, limit_usd: 0, fee: 0 }
    }

    /// A freshly initialized record: deposits and withdrawals closed, tracking
    /// parameters and totals zero, not liquidating.
    pub open spec fn spec_new() -> FundInfo {
        FundInfo {
            deposit_schedule: FundInfo::closed_schedule(),
            withdrawal_schedule: FundInfo::closed_schedule(),
            assets_config: FundAssetsTrackingConfig {
                assets_limit_usd: 0,
                max_update_age_sec: 0,
                max_price_error: 0,
                max_price_age_sec: 0,
            },
            amount_invested_usd: 0,
            amount_removed_usd: 0,
            current_assets_usd: 0,
            assets_update_time: 0,
            admin_action_time: 0,
            liquidation_start_time: 0,
        }
    }

    pub fn new() -> (r: FundInfo)
        ensures
            r == FundInfo::spec_new(),
            r.wf(),
    {
        let closed = FundSchedule { start_time: 0, end_time: 0, approval_required: false, limit_usd: 0, fee: 0 };
        FundInfo {
            deposit_schedule: closed,
            withdrawal_schedule: closed,
            assets_config: FundAssetsTrackingConfig {
                assets_limit_usd: 0,
                max_update_age_sec: 0,
                max_price_error: 0,
                max_price_age_sec: 0,
            },
            amount_invested_usd: 0,
            amount_removed_usd: 0,
            current_assets_usd: 0,
            assets_update_time: 0,
            admin_action_time: 0,
            liquidation_start_time: 0,
        }
    }

    pub fn is_deposit_allowed(&self, now: i64) -> (r: bool)
        ensures
            r == FundInfo::in_window(self.deposit_schedule, now),
    {
        self.deposit_schedule.start_time <= now && now < self.deposit_schedule.end_time
    }

    pub fn is_withdrawal_allowed(&self, now: i64) -> (r: bool)
        ensures
            r == FundInfo::in_window(self.withdrawal_schedule, now),
    {
        self.withdrawal_schedule.start_time <= now && now < self.withdrawal_schedule.end_time
    }
}

/// A timestamped amount: a pending request or the last completed one.
#[derive(Clone, Copy, Debug, PartialEq, Eq, Structural)]
pub struct FundUserAction {
    pub time: i64,
    pub amount: u64,
}

/// Per-user, per-token record of requests.
#[derive(Clone, Copy, Debug)]
pub struct FundUserInfo {
    pub fund_ref: Address,
    pub token_ref: Address,
    pub deposit_request: FundUserAction,
    pub last_deposit: FundUserAction,
    pub withdrawal_request: FundUserAction,
    pub last_withdrawal: FundUserAction,
    pub deny_reason: DenyReason,
    pub bump: u8,
}

impl FundUserInfo {
    /// At most one kind of request is pending.
    pub open spec fn exclusive(self) -> bool {
        !(self.deposit_request.amount > 0 && self.withdrawal_request.amount > 0)
    }
}

/// Metadata of one custody: a token account of the fund plus its fee account.
#[derive(Clone, Copy, Debug)]
pub struct FundCustody {
    pub fund_ref: Address,
    pub custody_id: u32,
    pub custody_type: FundCustodyType,
    pub token_ref: Address,
    pub address: Address,
    pub fees_address: Address,
    pub pyth_price_info: Address,
    pub liquidation_id: u32,
    pub liquidation_token_amount: u64,
    pub bump: u8,
}

/// Integrity record of a set of custodies: the hash the set should have and the
/// hash confirmed so far.
#[derive(Clone, Copy, Debug, PartialEq, Eq, Structural)]
pub struct FundAssets {
    pub current_hash: u64,
    pub target_hash: u64,
}

} // verus!
