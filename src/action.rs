//! Token movements a handler asks the ledger runtime to perform, in order.
use vstd::prelude::*;
use crate::address::Address;

verus! {

/// One token operation. `authority` signs it: the user, or the fund's authority
/// address (signed with its derivation seeds).
#[derive(Clone, Copy, Debug)]
pub enum TokenAction {
    /// Move `amount` from token account `from` to token account `to`.
    Transfer { from: Address, to: Address, authority: Address, amount: u64 },
    /// Mint `amount` fund tokens into `to`.
    MintTo { mint: Address, to: Address, amount: u64 },
    /// Burn `amount` tokens held in `from`.
    Burn { from: Address, mint: Address, authority: Address, amount: u64 },
    /// Let `delegate` spend up to `amount` from `account`.
    Approve { account: Address, delegate: Address, owner: Address, amount: u64 },
    /// Withdraw any delegation on `account`.
    Revoke { account: Address, owner: Address },
}

/// The time and slot at which an instruction runs.
#[derive(Clone, Copy, Debug)]
pub struct Clock {
    pub unix_timestamp: i64,
    pub slot: u64,
}

} // verus!
