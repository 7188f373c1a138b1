//! Checks that accounts handed to an instruction are the ones the fund derives
//! from its seeds; the fund's defence against look-alike accounts.
use vstd::prelude::*;
use vstd::string::StringSliceAdditionalSpecFns;
use crate::address::{create_program_address, find_bump, find_check, program_address, seeds_view, with_bump, Address};
use crate::error::FundError;
use crate::state::{Fund, FundCustody, FundCustodyType, FundUserInfo, Token, TokenAccount};

verus! {

pub open spec fn custody_info_prefix(ty: FundCustodyType) -> Seq<u8> {
    match ty {
        FundCustodyType::DepositWithdraw => "fund_wd_custody_info".spec_bytes(),
        FundCustodyType::Trading => "fund_trading_custody_info".spec_bytes(),
    }
}

pub open spec fn custody_account_prefix(ty: FundCustodyType) -> Seq<u8> {
    match ty {
        FundCustodyType::DepositWithdraw => "fund_wd_custody_account".spec_bytes(),
        FundCustodyType::Trading => "fund_trading_custody_account".spec_bytes(),
    }
}

pub open spec fn custody_fees_prefix(ty: FundCustodyType) -> Seq<u8> {
    match ty {
        FundCustodyType::DepositWithdraw => "fund_wd_custody_fees_account".spec_bytes(),
        FundCustodyType::Trading => "fund_td_custody_fees_account".spec_bytes(),
    }
}

/// Seeds of a custody's accounts: a prefix naming the account, the token and the fund.
pub open spec fn custody_seeds(prefix: Seq<u8>, token_name: Seq<u8>, fund_name: Seq<u8>) -> Seq<Seq<u8>> {
    seq![prefix, token_name, fund_name]
}

pub open spec fn user_info_seeds(token_name: Seq<u8>, user: Seq<u8>, fund_name: Seq<u8>) -> Seq<Seq<u8>> {
    seq!["user_info_account".spec_bytes(), token_name, user, fund_name]
}

pub open spec fn fund_token_mint_seeds(fund_name: Seq<u8>) -> Seq<Seq<u8>> {
    seq!["fund_token_mint".spec_bytes(), fund_name]
}

pub open spec fn custodies_assets_seeds(fund_name: Seq<u8>) -> Seq<Seq<u8>> {
    seq!["custodies_assets_info".spec_bytes(), fund_name]
}

fn bytes_of(s: &str) -> (r: Vec<u8>)
    ensures
        r@ == s.spec_bytes(),
{
    vstd::slice::slice_to_vec(s.as_bytes())
}

fn clone_bytes(v: &Vec<u8>) -> (r: Vec<u8>)
    ensures
        r@ == v@,
{
    let mut out: Vec<u8> = Vec::new();
    let mut i: usize = 0;
    while i < v.len()
        invariant
            0 <= i <= v@.len(),
            out@ == v@.subrange(0, i as int),
        decreases v@.len() - i,
    {
        out.push(v[i]);
        i = i + 1;
        assert(out@ =~= v@.subrange(0, i as int));
    }
    assert(v@.subrange(0, v@.len() as int) =~= v@);
    out
}

pub fn custody_info_prefix_bytes(ty: FundCustodyType) -> (r: Vec<u8>)
    ensures
        r@ == custody_info_prefix(ty),
{
    match ty {
        FundCustodyType::DepositWithdraw => bytes_of("fund_wd_custody_info"),
        FundCustodyType::Trading => bytes_of("fund_trading_custody_info"),
    }
}

pub fn custody_account_prefix_bytes(ty: FundCustodyType) -> (r: Vec<u8>)
    ensures
        r@ == custody_account_prefix(ty),
{
    match ty {
        FundCustodyType::DepositWithdraw => bytes_of("fund_wd_custody_account"),
        FundCustodyType::Trading => bytes_of("fund_trading_custody_account"),
    }
}

pub fn custody_fees_prefix_bytes(ty: FundCustodyType) -> (r: Vec<u8>)
    ensures
        r@ == custody_fees_prefix(ty),
{
    match ty {
        FundCustodyType::DepositWithdraw => bytes_of("fund_wd_custody_fees_account"),
        FundCustodyType::Trading => bytes_of("fund_td_custody_fees_account"),
    }
}

/// The seeds `[prefix, token_name, fund_name]`.
pub fn build_custody_seeds(prefix: Vec<u8>, token_name: &Vec<u8>, fund_name: &Vec<u8>) -> (r: Vec<Vec<u8>>)
    ensures
        seeds_view(r@) == custody_seeds(prefix@, token_name@, fund_name@),
{
    let mut seeds: Vec<Vec<u8>> = Vec::new();
    seeds.push(prefix);
    seeds.push(clone_bytes(token_name));
    seeds.push(clone_bytes(fund_name));
    assert(seeds_view(seeds@) =~= custody_seeds(prefix@, token_name@, fund_name@));
    seeds
}

/// Whether `seeds` with `bump` derive `key` under `program_id`; `Err(InvalidSeeds)`
/// where the derivation is refused.
fn derived_matches(seeds: Vec<Vec<u8>>, bump: u8, program_id: &Address, key: &Address) -> (r: Result<bool, FundError>)
    ensures
        program_address(with_bump(seeds_view(seeds@), bump), program_id@) is None
            ==> r == Err::<bool, FundError>(FundError::InvalidSeeds),
        program_address(with_bump(seeds_view(seeds@), bump), program_id@) matches Some(a)
            ==> r == Ok::<bool, FundError>(a == key@),
{
    let ghost before = seeds@;
    let mut s = seeds;
    let mut b: Vec<u8> = Vec::new();
    b.push(bump);
    assert(b@ =~= seq![bump]);
    s.push(b);
    assert(seeds_view(s@) =~= with_bump(seeds_view(before), bump));
    match create_program_address(&s, program_id) {
        Some(a) => Ok(a.same(key)),
        None => Err(FundError::InvalidSeeds),
    }
}

/// A custody's metadata account and token account are those the fund derives for
/// this token and custody type.
pub open spec fn custody_account_check(
    fund: Fund,
    token: Token,
    custody_account: TokenAccount,
    custody_metadata_key: Address,
    custody: FundCustody,
    custody_type: FundCustodyType,
) -> Result<(), FundError> {
    if token.mint@ != custody_account.mint@ {
        Err(FundError::InvalidArgument)
    } else {
        match program_address(
            with_bump(custody_seeds(custody_info_prefix(custody_type), token.name@, fund.name@), custody.bump),
            fund.fund_program_id@,
        ) {
            None => Err(FundError::InvalidSeeds),
            Some(a) => if a != custody_metadata_key@ || custody.address@ != custody_account.address@ {
                Err(FundError::InvalidArgument)
            } else {
                Ok(())
            },
        }
    }
}

pub fn check_custody_account(
    fund: &Fund,
    custody_token: &Token,
    custody_account: &TokenAccount,
    custody_metadata_key: &Address,
    custody: &FundCustody,
    custody_type: FundCustodyType,
) -> (r: Result<(), FundError>)
    ensures
        r == custody_account_check(*fund, *custody_token, *custody_account, *custody_metadata_key, *custody, custody_type),
{
    if !custody_token.mint.same(&custody_account.mint) {
        return Err(FundError::InvalidArgument);
    }
    let seeds = build_custody_seeds(custody_info_prefix_bytes(custody_type), &custody_token.name, &fund.name);
    let ok = derived_matches(seeds, custody.bump, &fund.fund_program_id, custody_metadata_key)?;
    if !ok || !custody.address.same(&custody_account.address) {
        return Err(FundError::InvalidArgument);
    }
    Ok(())
}

/// The accounts of a deposit or withdrawal: the user's token account, the
/// deposit/withdrawal custody, its fee account and its oracle all belong together.
pub open spec fn wd_custody_check(
    fund: Fund,
    token: Token,
    user_token_account: TokenAccount,
    custody_account: TokenAccount,
    custody_fees_account: TokenAccount,
    custody_metadata_key: Address,
    custody: FundCustody,
    oracle_key: Address,
) -> Result<(), FundError> {
    if token.mint@ != custody_account.mint@ || user_token_account.mint@ != custody_account.mint@
        || user_token_account.mint@ != custody_fees_account.mint@ {
        Err(FundError::InvalidArgument)
    } else {
        match program_address(
            with_bump(custody_seeds(custody_info_prefix(FundCustodyType::DepositWithdraw), token.name@, fund.name@), custody.bump),
            fund.fund_program_id@,
        ) {
            None => Err(FundError::InvalidSeeds),
            Some(a) => if a != custody_metadata_key@ || custody.address@ != custody_account.address@
                || custody.fees_address@ != custody_fees_account.address@
                || custody.pyth_price_info@ != oracle_key@ {
                Err(FundError::InvalidArgument)
            } else {
                Ok(())
            },
        }
    }
}

pub fn check_wd_custody_accounts(
    fund: &Fund,
    custody_token: &Token,
    user_token_account: &TokenAccount,
    custody_account: &TokenAccount,
    custody_fees_account: &TokenAccount,
    custody_metadata_key: &Address,
    custody: &FundCustody,
    oracle_key: &Address,
) -> (r: Result<(), FundError>)
    ensures
        r == wd_custody_check(*fund, *custody_token, *user_token_account, *custody_account,
            *custody_fees_account, *custody_metadata_key, *custody, *oracle_key),
{
    if !custody_token.mint.same(&custody_account.mint) || !user_token_account.mint.same(&custody_account.mint)
        || !user_token_account.mint.same(&custody_fees_account.mint) {
        return Err(FundError::InvalidArgument);
    }
    let seeds = build_custody_seeds(
        custody_info_prefix_bytes(FundCustodyType::DepositWithdraw),
        &custody_token.name,
        &fund.name,
    );
    let ok = derived_matches(seeds, custody.bump, &fund.fund_program_id, custody_metadata_key)?;
    if !ok || !custody.address.same(&custody_account.address)
        || !custody.fees_address.same(&custody_fees_account.address)
        || !custody.pyth_price_info.same(oracle_key) {
        return Err(FundError::InvalidArgument);
    }
    Ok(())
}

/// The user-info account is the one derived for this user, token and fund.
pub open spec fn user_info_check(
    fund: Fund,
    token: Token,
    user_info: FundUserInfo,
    user: Address,
    user_info_key: Address,
) -> Result<(), FundError> {
    match program_address(
        with_bump(user_info_seeds(token.name@, user@, fund.name@), user_info.bump),
        fund.fund_program_id@,
    ) {
        None => Err(FundError::InvalidSeeds),
        Some(a) => if a != user_info_key@ {
            Err(FundError::InvalidArgument)
        } else {
            Ok(())
        },
    }
}

pub fn build_user_info_seeds(token_name: &Vec<u8>, user: &Address, fund_name: &Vec<u8>) -> (r: Vec<Vec<u8>>)
    ensures
        seeds_view(r@) == user_info_seeds(token_name@, user@, fund_name@),
{
    let mut seeds: Vec<Vec<u8>> = Vec::new();
    seeds.push(bytes_of("user_info_account"));
    seeds.push(clone_bytes(token_name));
    seeds.push(user.to_vec());
    seeds.push(clone_bytes(fund_name));
    assert(seeds_view(seeds@) =~= user_info_seeds(token_name@, user@, fund_name@));
    seeds
}

pub fn check_user_info_account(
    fund: &Fund,
    custody_token: &Token,
    user_info: &FundUserInfo,
    user: &Address,
    user_info_key: &Address,
) -> (r: Result<(), FundError>)
    ensures
        r == user_info_check(*fund, *custody_token, *user_info, *user, *user_info_key),
{
    let seeds = build_user_info_seeds(&custody_token.name, user, &fund.name);
    let ok = derived_matches(seeds, user_info.bump, &fund.fund_program_id, user_info_key)?;
    if !ok {
        return Err(FundError::InvalidArgument);
    }
    Ok(())
}

/// The fund-token mint is the one derived for this fund.
pub open spec fn fund_token_mint_check(fund: Fund, mint_key: Address) -> Result<(), FundError> {
    match program_address(with_bump(fund_token_mint_seeds(fund.name@), fund.fund_token_bump), fund.fund_program_id@) {
        None => Err(FundError::InvalidSeeds),
        Some(a) => if a != mint_key@ {
            Err(FundError::InvalidArgument)
        } else {
            Ok(())
        },
    }
}

pub fn check_fund_token_mint(fund: &Fund, mint_key: &Address) -> (r: Result<(), FundError>)
    ensures
        r == fund_token_mint_check(*fund, *mint_key),
{
    let mut seeds: Vec<Vec<u8>> = Vec::new();
    seeds.push(bytes_of("fund_token_mint"));
    seeds.push(clone_bytes(&fund.name));
    assert(seeds_view(seeds@) =~= fund_token_mint_seeds(fund.name@));
    let ok = derived_matches(seeds, fund.fund_token_bump, &fund.fund_program_id, mint_key)?;
    if !ok {
        return Err(FundError::InvalidArgument);
    }
    Ok(())
}

/// The custodies' integrity record is at the address found for this fund.
pub fn check_custodies_assets_info(fund: &Fund, key: &Address) -> (r: Result<(), FundError>)
    ensures
        r == find_check(custodies_assets_seeds(fund.name@), fund.fund_program_id@, key@),
{
    let mut seeds: Vec<Vec<u8>> = Vec::new();
    seeds.push(bytes_of("custodies_assets_info"));
    seeds.push(clone_bytes(&fund.name));
    assert(seeds_view(seeds@) =~= custodies_assets_seeds(fund.name@));
    find_bump(&seeds, &fund.fund_program_id, key)?;
    Ok(())
}

/// Seeds of a fund's metadata address under the registry program: the record kind
/// and the fund's name.
pub open spec fn fund_metadata_seeds(fund_name: Seq<u8>) -> Seq<Seq<u8>> {
    seq!["Fund".spec_bytes(), fund_name]
}

/// The derivation of the fund's metadata address under `registry`: `InvalidSeeds`
/// where it is refused; otherwise whether it is `key`.
pub open spec fn fund_metadata_derivation(fund: Fund, registry: Address, key: Address) -> Result<bool, FundError> {
    match program_address(with_bump(fund_metadata_seeds(fund.name@), fund.metadata_bump), registry@) {
        None => Err(FundError::InvalidSeeds),
        Some(a) => Ok(a == key@),
    }
}

pub fn derive_fund_metadata(fund: &Fund, registry: &Address, key: &Address) -> (r: Result<bool, FundError>)
    ensures
        r == fund_metadata_derivation(*fund, *registry, *key),
{
    let mut seeds: Vec<Vec<u8>> = Vec::new();
    seeds.push(bytes_of("Fund"));
    seeds.push(clone_bytes(&fund.name));
    assert(seeds_view(seeds@) =~= fund_metadata_seeds(fund.name@));
    derived_matches(seeds, fund.metadata_bump, registry, key)
}

} // verus!
