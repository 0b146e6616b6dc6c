//! Keyless authorities: account addresses derived from seeds and the
//! program's own identity, with the bump byte that proves the derivation.
use vstd::prelude::*;
use vstd::slice::slice_to_vec;
use vstd::utf8::encode_utf8;

use anchor_lang::solana_program::pubkey::{Pubkey, PubkeyError};

use crate::errors::ErrorCode;
use crate::state::Address;

verus! {

/// The most seeds a derivation takes, the bump included.
pub const MAX_SEEDS: usize = 16;

/// The most bytes one seed may hold.
pub const MAX_SEED_LEN: usize = 32;

#[verifier::external_type_specification]
#[verifier::external_body]
pub struct ExPubkeyError(PubkeyError);

/// The address that the runtime derives from `seeds` (bump included) for
/// `program_id`, or `None` where the hash of the seeds is a point of the
/// curve and so could have a private key.
pub uninterp spec fn program_address(seeds: Seq<Seq<u8>>, program_id: Seq<u8>) -> Option<Seq<u8>>;

/// No more than `MAX_SEEDS` seeds, none longer than `MAX_SEED_LEN` bytes.
pub open spec fn seeds_in_bounds(seeds: Seq<Seq<u8>>) -> bool {
    &&& seeds.len() <= MAX_SEEDS
    &&& forall|i: int| 0 <= i < seeds.len() ==> #[trigger] seeds[i].len() <= MAX_SEED_LEN
}

/// The seeds as byte sequences.
pub open spec fn seeds_view(seeds: Seq<Vec<u8>>) -> Seq<Seq<u8>> {
    seeds.map_values(|s: Vec<u8>| s@)
}

/// `seeds` followed by the one-byte seed `bump`.
pub open spec fn with_bump(seeds: Seq<Seq<u8>>, bump: u8) -> Seq<Seq<u8>> {
    seeds.push(seq![bump])
}

/// `address` is what `seeds` and `bump` derive for `program_id`.
pub open spec fn derived_at(seeds: Seq<Seq<u8>>, bump: u8, program_id: Seq<u8>, address: Seq<u8>) -> bool {
    &&& seeds_in_bounds(with_bump(seeds, bump))
    &&& program_address(with_bump(seeds, bump), program_id) == Some(address)
}

/// `bump` is the canonical bump of `seeds`: the largest non-zero byte that
/// derives an address, and `address` is that address.
pub open spec fn is_canonical(seeds: Seq<Seq<u8>>, bump: u8, program_id: Seq<u8>, address: Seq<u8>) -> bool {
    &&& 1 <= bump
    &&& derived_at(seeds, bump, program_id, address)
    &&& forall|k: u8| bump < k ==> #[trigger] program_address(with_bump(seeds, k), program_id) is None
}

/// Some non-zero bump derives an address from `seeds` for `program_id`.
pub open spec fn derivable(seeds: Seq<Seq<u8>>, program_id: Seq<u8>) -> bool {
    &&& seeds_in_bounds(with_bump(seeds, 0))
    &&& exists|k: u8| 1 <= k && #[trigger] program_address(with_bump(seeds, k), program_id) is Some
}

/// The seed tag of an escrow: the ASCII bytes of "treasury".
pub open spec fn treasury_tag() -> Seq<u8> {
    seq![116u8, 114, 101, 97, 115, 117, 114, 121]
}

/// The seed tag of a grant: the ASCII bytes of "employee_vesting".
pub open spec fn employee_tag() -> Seq<u8> {
    seq![101u8, 109, 112, 108, 111, 121, 101, 101, 95, 118, 101, 115, 116, 105, 110, 103]
}

/// A schedule's address is derived from its company name alone.
pub open spec fn schedule_seeds_spec(company_name: Seq<char>) -> Seq<Seq<u8>> {
    seq![encode_utf8(company_name)]
}

/// A schedule's escrow is derived from the tag and the company name.
pub open spec fn treasury_seeds_spec(company_name: Seq<char>) -> Seq<Seq<u8>> {
    seq![treasury_tag(), encode_utf8(company_name)]
}

/// A grant is derived from the tag, its beneficiary and its schedule, so a
/// pair of these has at most one grant.
pub open spec fn employee_seeds_spec(beneficiary: Seq<u8>, schedule: Seq<u8>) -> Seq<Seq<u8>> {
    seq![employee_tag(), beneficiary, schedule]
}

/// Relies on `Pubkey::create_program_address`: it refuses more than
/// `MAX_SEEDS` seeds or a seed longer than `MAX_SEED_LEN`; otherwise its answer
/// depends on the seeds and the program id alone.
#[verifier::external_body]
fn create_program_address(seeds: &Vec<Vec<u8>>, program_id: &Address) -> (r: Result<Address, PubkeyError>)
    ensures
        !seeds_in_bounds(seeds_view(seeds@)) ==> r is Err,
        seeds_in_bounds(seeds_view(seeds@)) ==> (r is Ok <==> program_address(seeds_view(seeds@), program_id@) is Some),
        r is Ok ==> program_address(seeds_view(seeds@), program_id@) == Some(r->Ok_0@),
{
    let slices: Vec<&[u8]> = seeds.iter().map(|s| s.as_slice()).collect();
    match Pubkey::create_program_address(&slices, &Pubkey::new_from_array(program_id.bytes)) {
        Ok(key) => Ok(Address::new(key.to_bytes())),
        Err(e) => Err(e),
    }
}

/// Relies on `Pubkey::try_find_program_address`: it tries the bumps from 255
/// down to 1 with `create_program_address` and returns the first that derives
/// an address, or `None` when the seeds are out of bounds or none does.
#[verifier::external_body]
fn try_find_program_address(seeds: &Vec<Vec<u8>>, program_id: &Address) -> (r: Option<(Address, u8)>)
    ensures
        match r {
            Some((address, bump)) => is_canonical(seeds_view(seeds@), bump, program_id@, address@),
            None => seeds_in_bounds(with_bump(seeds_view(seeds@), 0)) ==> forall|k: u8|
                1 <= k ==> #[trigger] program_address(with_bump(seeds_view(seeds@), k), program_id@) is None,
        },
{
    let slices: Vec<&[u8]> = seeds.iter().map(|s| s.as_slice()).collect();
    match Pubkey::try_find_program_address(&slices, &Pubkey::new_from_array(program_id.bytes)) {
        Some((key, bump)) => Some((Address::new(key.to_bytes()), bump)),
        None => None,
    }
}

proof fn lemma_with_bump_bounds(seeds: Seq<Seq<u8>>, a: u8, b: u8)
    ensures
        seeds_in_bounds(with_bump(seeds, a)) == seeds_in_bounds(with_bump(seeds, b)),
{
    let sa = with_bump(seeds, a);
    let sb = with_bump(seeds, b);
    if seeds_in_bounds(sa) {
        assert forall|i: int| 0 <= i < sb.len() implies #[trigger] sb[i].len() <= MAX_SEED_LEN by {
            assert(sa[i].len() <= MAX_SEED_LEN);
        }
    }
    if seeds_in_bounds(sb) {
        assert forall|i: int| 0 <= i < sa.len() implies #[trigger] sa[i].len() <= MAX_SEED_LEN by {
            assert(sb[i].len() <= MAX_SEED_LEN);
        }
    }
}

/// Derivation is deterministic: seeds and a program id have at most one
/// canonical bump, and so at most one canonical address.
pub proof fn lemma_canonical_unique(
    seeds: Seq<Seq<u8>>,
    program_id: Seq<u8>,
    bump1: u8,
    address1: Seq<u8>,
    bump2: u8,
    address2: Seq<u8>,
)
    requires
        is_canonical(seeds, bump1, program_id, address1),
        is_canonical(seeds, bump2, program_id, address2),
    ensures
        bump1 == bump2,
        address1 == address2,
{
    if bump1 < bump2 {
        assert(program_address(with_bump(seeds, bump2), program_id) is None);
    } else if bump2 < bump1 {
        assert(program_address(with_bump(seeds, bump1), program_id) is None);
    }
}

/// An address found by derivation passes the check made with its stored bump.
pub proof fn lemma_canonical_verifies(seeds: Seq<Seq<u8>>, program_id: Seq<u8>, bump: u8, address: Seq<u8>)
    requires
        is_canonical(seeds, bump, program_id, address),
    ensures
        derived_at(seeds, bump, program_id, address),
{
}

/// Finds the canonical bump of `seeds` and the address it derives.
pub fn derive_address(seeds: &Vec<Vec<u8>>, program_id: &Address) -> (r: Result<(Address, u8), ErrorCode>)
    ensures
        r is Ok <==> derivable(seeds_view(seeds@), program_id@),
        match r {
            Ok((address, bump)) => is_canonical(seeds_view(seeds@), bump, program_id@, address@),
            Err(e) => e == ErrorCode::PreconditionViolation,
        },
{
    let found = try_find_program_address(seeds, program_id);
    proof {
        let s = seeds_view(seeds@);
        match found {
            Some((address, bump)) => {
                lemma_with_bump_bounds(s, bump, 0);
                assert(program_address(with_bump(s, bump), program_id@) is Some);
            },
            None => {},
        }
    }
    match found {
        Some(pair) => Ok(pair),
        None => Err(ErrorCode::PreconditionViolation),
    }
}

/// Checks that `seeds` with `bump` derive `expected` for `program_id`.
pub fn verify_address(seeds: &Vec<Vec<u8>>, bump: u8, program_id: &Address, expected: &Address) -> (r: Result<(), ErrorCode>)
    ensures
        r is Ok <==> derived_at(seeds_view(seeds@), bump, program_id@, expected@),
        r is Err ==> r == Err::<(), ErrorCode>(ErrorCode::AuthorizationMismatch),
{
    let mut full: Vec<Vec<u8>> = seeds.clone();
    let mut bump_seed: Vec<u8> = Vec::new();
    bump_seed.push(bump);
    full.push(bump_seed);
    assert(seeds_view(full@) =~= with_bump(seeds_view(seeds@), bump));
    match create_program_address(&full, program_id) {
        Ok(address) => {
            if address.same_as(expected) {
                Ok(())
            } else {
                Err(ErrorCode::AuthorizationMismatch)
            }
        },
        Err(_) => Err(ErrorCode::AuthorizationMismatch),
    }
}

/// The seeds of a schedule with the given company name.
pub fn schedule_seeds(company_name: &str) -> (r: Vec<Vec<u8>>)
    ensures
        seeds_view(r@) == schedule_seeds_spec(company_name@),
{
    let mut r: Vec<Vec<u8>> = Vec::new();
    r.push(slice_to_vec(company_name.as_bytes()));
    assert(seeds_view(r@) =~= schedule_seeds_spec(company_name@));
    r
}

/// The seeds of the escrow of a schedule with the given company name.
pub fn treasury_seeds(company_name: &str) -> (r: Vec<Vec<u8>>)
    ensures
        seeds_view(r@) == treasury_seeds_spec(company_name@),
{
    let tag: Vec<u8> = vec![116u8, 114, 101, 97, 115, 117, 114, 121];
    assert(tag@ =~= treasury_tag());
    let mut r: Vec<Vec<u8>> = Vec::new();
    r.push(tag);
    r.push(slice_to_vec(company_name.as_bytes()));
    assert(seeds_view(r@) =~= treasury_seeds_spec(company_name@));
    r
}

/// The seeds of the grant of `beneficiary` under the schedule at `schedule`.
pub fn employee_seeds(beneficiary: &Address, schedule: &Address) -> (r: Vec<Vec<u8>>)
    ensures
        seeds_view(r@) == employee_seeds_spec(beneficiary@, schedule@),
{
    let tag: Vec<u8> = vec![101u8, 109, 112, 108, 111, 121, 101, 101, 95, 118, 101, 115, 116, 105, 110, 103];
    assert(tag@ =~= employee_tag());
    let mut r: Vec<Vec<u8>> = Vec::new();
    r.push(tag);
    r.push(beneficiary.to_vec());
    r.push(schedule.to_vec());
    assert(seeds_view(r@) =~= employee_seeds_spec(beneficiary@, schedule@));
    r
}

} // verus!
