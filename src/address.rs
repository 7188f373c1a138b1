//! Account addresses and program-derived address (PDA) derivation.
use vstd::prelude::*;
use crate::error::FundError;

verus! {

/// A 32-byte account address.
#[derive(Clone, Copy, Debug)]
pub struct Address {
    pub bytes: [u8; 32],
}

impl View for Address {
    type V = Seq<u8>;

    open spec fn view(&self) -> Seq<u8> {
        self.bytes@
    }
}

impl Address {
    pub fn new(bytes: [u8; 32]) -> (r: Address)
        ensures
            r@ == bytes@,
    {
        Address { bytes }
    }

    /// Byte-wise equality of two addresses.
    pub fn same(&self, other: &Address) -> (r: bool)
        ensures
            r == (self@ == other@),
    {
        let mut i: usize = 0;
        while i < 32
            invariant
                0 <= i <= 32,
                self@.len() == 32,
                other@.len() == 32,
                forall|j: int| 0 <= j < i ==> self@[j] == other@[j],
            decreases 32 - i,
        {
            if self.bytes[i] != other.bytes[i] {
                return false;
            }
            i = i + 1;
        }
        assert(self@ =~= other@);
        true
    }

    /// The address as a byte vector, for use as a derivation seed.
    pub fn to_vec(&self) -> (r: Vec<u8>)
        ensures
            r@ == self@,
    {
        let mut v: Vec<u8> = Vec::new();
        let mut i: usize = 0;
        while i < 32
            invariant
                0 <= i <= 32,
                self@.len() == 32,
                v@ == self@.subrange(0, i as int),
            decreases 32 - i,
        {
            v.push(self.bytes[i]);
            i = i + 1;
            assert(v@ =~= self@.subrange(0, i as int));
        }
        assert(self@.subrange(0, 32) =~= self@);
        v
    }
}

/// Largest number of seeds a derivation accepts.
pub const MAX_SEEDS: usize = 16;

/// Largest length of one seed.
pub const MAX_SEED_LEN: usize = 32;

/// The address derived from `seeds` under `program_id`, or `None` where the
/// derivation is refused (too many or too long seeds, or the hash lands on the curve).
pub uninterp spec fn program_address(seeds: Seq<Seq<u8>>, program_id: Seq<u8>) -> Option<Seq<u8>>;

/// Whether the seeds are within the derivation's limits.
pub open spec fn seeds_within_limits(seeds: Seq<Seq<u8>>) -> bool {
    &&& seeds.len() <= MAX_SEEDS
    &&& forall|i: int| 0 <= i < seeds.len() ==> (#[trigger] seeds[i]).len() <= MAX_SEED_LEN
}

pub open spec fn seeds_view(seeds: Seq<Vec<u8>>) -> Seq<Seq<u8>> {
    seeds.map_values(|s: Vec<u8>| s@)
}

/// `seeds` followed by the one-byte bump seed.
pub open spec fn with_bump(seeds: Seq<Seq<u8>>, bump: u8) -> Seq<Seq<u8>> {
    seeds.push(seq![bump])
}

/// Relies on `Pubkey::create_program_address`: it refuses more than sixteen seeds or
/// a seed over 32 bytes, and otherwise returns a 32-byte address that depends on the
/// seeds and the program id alone.
#[verifier::external_body]
pub(crate) fn create_program_address(seeds: &Vec<Vec<u8>>, program_id: &Address) -> (r: Option<Address>)
    ensures
        r matches Some(a) ==> program_address(seeds_view(seeds@), program_id@) == Some(a@),
        r is None ==> program_address(seeds_view(seeds@), program_id@) is None,
        !seeds_within_limits(seeds_view(seeds@)) ==> r is None,
{
    let refs: Vec<&[u8]> = seeds.iter().map(|s| s.as_slice()).collect();
    let pid = solana_program::pubkey::Pubkey::new_from_array(program_id.bytes);
    match solana_program::pubkey::Pubkey::create_program_address(&refs, &pid) {
        Ok(key) => Some(Address { bytes: key.to_bytes() }),
        Err(_) => None,
    }
}

/// `key` is the address found for `seeds`: derived with `bump`, the largest bump
/// seed that derives an address.
pub open spec fn found_address(seeds: Seq<Seq<u8>>, program_id: Seq<u8>, key: Seq<u8>, bump: u8) -> bool {
    &&& program_address(with_bump(seeds, bump), program_id) == Some(key)
    &&& forall|c: u8| bump < c ==> (#[trigger] program_address(with_bump(seeds, c), program_id)) is None
}

/// No bump seed from 1 to 255 derives an address from `seeds`.
pub open spec fn no_bump_derives(seeds: Seq<Seq<u8>>, program_id: Seq<u8>) -> bool {
    forall|c: u8| 1 <= c ==> (#[trigger] program_address(with_bump(seeds, c), program_id)) is None
}

/// `key` is found for `seeds` with some bump from 1 to 255.
pub open spec fn derives_to(seeds: Seq<Seq<u8>>, program_id: Seq<u8>, key: Seq<u8>) -> bool {
    exists|b: u8| 1 <= b && #[trigger] found_address(seeds, program_id, key, b)
}

/// Relies on `Pubkey::try_find_program_address`: it tries the bump seeds 255 down to 1
/// with `create_program_address` and returns the first address that is accepted,
/// with its bump; it gives `None` when none is, or when the seeds are refused, in
/// which case every bump is refused too.
#[verifier::external_body]
pub(crate) fn try_find_program_address(seeds: &Vec<Vec<u8>>, program_id: &Address) -> (r: Option<(Address, u8)>)
    ensures
        r matches Some((a, b)) ==> 1 <= b && found_address(seeds_view(seeds@), program_id@, a@, b),
        r is None ==> no_bump_derives(seeds_view(seeds@), program_id@),
{
    let refs: Vec<&[u8]> = seeds.iter().map(|s| s.as_slice()).collect();
    let pid = solana_program::pubkey::Pubkey::new_from_array(program_id.bytes);
    solana_program::pubkey::Pubkey::try_find_program_address(&refs, &pid)
        .map(|(key, bump)| (Address { bytes: key.to_bytes() }, bump))
}

/// Deriving with the same seeds finds the same address and bump: a custody added
/// again after its removal gets the addresses it had.
pub proof fn lemma_found_address_unique(seeds: Seq<Seq<u8>>, program_id: Seq<u8>, k1: Seq<u8>, b1: u8, k2: Seq<u8>, b2: u8)
    requires
        found_address(seeds, program_id, k1, b1),
        found_address(seeds, program_id, k2, b2),
    ensures
        k1 == k2,
        b1 == b2,
{
    if b1 < b2 {
        assert(program_address(with_bump(seeds, b2), program_id) is None);
    } else if b2 < b1 {
        assert(program_address(with_bump(seeds, b1), program_id) is None);
    }
}

/// Whether `key` is the address found for `seeds`: `InvalidSeeds` when no bump
/// derives one, `InvalidArgument` when another address is found.
pub open spec fn find_check(seeds: Seq<Seq<u8>>, program_id: Seq<u8>, key: Seq<u8>) -> Result<(), FundError> {
    if derives_to(seeds, program_id, key) {
        Ok(())
    } else if no_bump_derives(seeds, program_id) {
        Err(FundError::InvalidSeeds)
    } else {
        Err(FundError::InvalidArgument)
    }
}

/// Finds the address for `seeds` and checks that it is `key`; gives its bump.
pub fn find_bump(seeds: &Vec<Vec<u8>>, program_id: &Address, key: &Address) -> (r: Result<u8, FundError>)
    ensures
        match find_check(seeds_view(seeds@), program_id@, key@) {
            Ok(_) => r matches Ok(b) && 1 <= b && found_address(seeds_view(seeds@), program_id@, key@, b),
            Err(e) => r == Err::<u8, FundError>(e),
        },
{
    let ghost sv = seeds_view(seeds@);
    match try_find_program_address(seeds, program_id) {
        Some((a, b)) => {
            if a.same(key) {
                proof {
                    assert(found_address(sv, program_id@, key@, b));
                }
                Ok(b)
            } else {
                proof {
                    if derives_to(sv, program_id@, key@) {
                        let b2 = choose|b2: u8| 1 <= b2 && #[trigger] found_address(sv, program_id@, key@, b2);
                        lemma_found_address_unique(sv, program_id@, a@, b, key@, b2);
                    }
                    assert(program_address(with_bump(sv, b), program_id@) is Some);
                }
                Err(FundError::InvalidArgument)
            }
        },
        None => {
            proof {
                if derives_to(sv, program_id@, key@) {
                    let b2 = choose|b2: u8| 1 <= b2 && #[trigger] found_address(sv, program_id@, key@, b2);
                    assert(program_address(with_bump(sv, b2), program_id@) is Some);
                }
            }
            Err(FundError::InvalidSeeds)
        },
    }
}

} // verus!
