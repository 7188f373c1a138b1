//! Gates on the fund's tracked assets: freshness of their valuation and the
//! fund's total size limit.
use vstd::prelude::*;
use crate::error::{FundError, ERR_ASSETS_LIMIT, ERR_ASSETS_STALE};
use crate::state::FundInfo;

verus! {

/// The tracked assets value must have been refreshed within `max_update_age_sec`
/// of `now`.
pub open spec fn assets_update_check(assets_update_time: i64, max_update_age_sec: u64, now: i64) -> Result<(), FundError> {
    let age = now - assets_update_time;
    if age < i64::MIN || age > i64::MAX {
        Err(FundError::ArithmeticOverflow)
    } else if age > max_update_age_sec {
        Err(FundError::Custom(ERR_ASSETS_STALE))
    } else {
        Ok(())
    }
}

pub fn check_assets_update_time(assets_update_time: i64, max_update_age_sec: u64, now: i64) -> (r: Result<(), FundError>)
    ensures
        r == assets_update_check(assets_update_time, max_update_age_sec, now),
{
    let age = match now.checked_sub(assets_update_time) {
        Some(a) => a,
        None => return Err(FundError::ArithmeticOverflow),
    };
    if age > 0 && age as u64 > max_update_age_sec {
        return Err(FundError::Custom(ERR_ASSETS_STALE));
    }
    Ok(())
}

/// A deposit worth `value` keeps the fund within its assets limit (0 = no limit).
pub open spec fn assets_limit_check(info: FundInfo, value: u64) -> Result<(), FundError> {
    let limit = info.assets_config.assets_limit_usd;
    if limit > 0 && limit < value + info.current_assets_usd {
        Err(FundError::Custom(ERR_ASSETS_LIMIT))
    } else {
        Ok(())
    }
}

pub fn check_assets_limit_usd(fund_info: &FundInfo, deposit_value_usd: u64) -> (r: Result<(), FundError>)
    ensures
        r == assets_limit_check(*fund_info, deposit_value_usd),
{
    let limit = fund_info.assets_config.assets_limit_usd;
    if limit > 0 && (limit as u128) < (deposit_value_usd as u128) + (fund_info.current_assets_usd as u128) {
        return Err(FundError::Custom(ERR_ASSETS_LIMIT));
    }
    Ok(())
}

} // verus!
