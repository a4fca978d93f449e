//! Where an identity is stored: the address derived from a fixed namespace,
//! the owner's key and a one-byte bump, under the program that owns the record.

use anchor_lang::solana_program::pubkey::Pubkey;
use anchor_lang::solana_program::pubkey::PubkeyError;
use vstd::prelude::*;

verus! {

/// The namespace of identity addresses: the ASCII text `wino_business_identity`.
pub const IDENTITY_SEED: [u8; 22] = [
    0x77, 0x69, 0x6e, 0x6f, 0x5f, 0x62, 0x75, 0x73, 0x69, 0x6e, 0x65, 0x73, 0x73, 0x5f, 0x69, 0x64,
    0x65, 0x6e, 0x74, 0x69, 0x74, 0x79,
];

/// `PubkeyError`, the error of `Pubkey::create_program_address`: carried
/// through as it is, never looked into.
#[verifier::external_type_specification]
#[verifier::external_body]
pub struct ExPubkeyError(PubkeyError);

/// The program address that the seeds derive under a program, if they derive
/// one: what `Pubkey::create_program_address` returns as `Ok`.
pub uninterp spec fn program_address(seeds: Seq<Seq<u8>>, program_id: Seq<u8>) -> Option<Seq<u8>>;

/// The address that a namespace, an owner and a bump derive under a program.
pub open spec fn seeded_address(
    namespace: Seq<u8>,
    owner: Seq<u8>,
    bump: u8,
    program_id: Seq<u8>,
) -> Option<Seq<u8>> {
    program_address(seq![namespace, owner, seq![bump]], program_id)
}

/// Calls `Pubkey::create_program_address` with the three seeds `namespace`,
/// `owner` and the single byte `bump`. Trusted: an `Ok` carries the address
/// that these seeds derive under `program_id`, and an error means that they
/// derive none.
#[verifier::external_body]
fn create_program_address(
    namespace: &[u8],
    owner: &[u8; 32],
    bump: u8,
    program_id: &[u8; 32],
) -> (made: Result<[u8; 32], PubkeyError>)
    ensures
        made matches Ok(address) ==> program_address(
            seq![namespace@, owner@, seq![bump]],
            program_id@,
        ) == Some(address@),
        made is Err ==> program_address(seq![namespace@, owner@, seq![bump]], program_id@) is None,
{
    let program = Pubkey::new_from_array(*program_id);
    match Pubkey::create_program_address(&[namespace, &owner[..], &[bump]], &program) {
        Ok(key) => Ok(key.to_bytes()),
        Err(error) => Err(error),
    }
}

/// Calls `Pubkey::try_find_program_address` with the two seeds `namespace`
/// and `owner`. Trusted: it tries the bumps from 255 down to 1 and returns the
/// first that derives an address, with that address; it returns `None` when
/// no bump from 1 to 255 derives one. The bump 0 is never tried.
#[verifier::external_body]
fn try_find_program_address(namespace: &[u8], owner: &[u8; 32], program_id: &[u8; 32]) -> (found:
    Option<([u8; 32], u8)>)
    ensures
        found matches Some((address, bump)) ==> {
            &&& 1 <= bump
            &&& seeded_address(namespace@, owner@, bump, program_id@) == Some(address@)
            &&& forall|higher: u8|
                bump < higher ==> #[trigger] seeded_address(
                    namespace@,
                    owner@,
                    higher,
                    program_id@,
                ) is None
        },
        found is None ==> forall|bump: u8|
            1 <= bump ==> #[trigger] seeded_address(namespace@, owner@, bump, program_id@) is None,
{
    let program = Pubkey::new_from_array(*program_id);
    match Pubkey::try_find_program_address(&[namespace, &owner[..]], &program) {
        Some((key, bump)) => Some((key.to_bytes(), bump)),
        None => None,
    }
}

/// The address that the identity of `authority` has with a given bump.
pub open spec fn bumped_address(authority: Seq<u8>, bump: u8, program_id: Seq<u8>) -> Option<
    Seq<u8>,
> {
    seeded_address(IDENTITY_SEED@, authority, bump, program_id)
}

/// The highest bump, not above `from` and not below 1, with which the
/// identity of `authority` has an address.
pub open spec fn highest_bump(authority: Seq<u8>, program_id: Seq<u8>, from: nat) -> Option<u8>
    decreases from,
{
    if from == 0 || from > 255 {
        None
    } else if bumped_address(authority, from as u8, program_id) is Some {
        Some(from as u8)
    } else {
        highest_bump(authority, program_id, (from - 1) as nat)
    }
}

/// The address at which the identity of `authority` is stored, and the bump
/// that derives it: the highest bump from 1 to 255 that derives any address.
pub open spec fn identity_address(authority: Seq<u8>, program_id: Seq<u8>) -> Option<
    (Seq<u8>, u8),
> {
    match highest_bump(authority, program_id, 255) {
        Some(bump) => match bumped_address(authority, bump, program_id) {
            Some(address) => Some((address, bump)),
            None => None,
        },
        None => None,
    }
}

/// `highest_bump` returns a bump in range that derives an address while no
/// bump above it, up to `from`, does; it returns `None` only when no bump
/// from 1 to `from` derives one.
pub proof fn lemma_highest_bump(authority: Seq<u8>, program_id: Seq<u8>, from: nat)
    requires
        from <= 255,
    ensures
        match highest_bump(authority, program_id, from) {
            Some(bump) => {
                &&& 1 <= bump <= from
                &&& bumped_address(authority, bump, program_id) is Some
                &&& forall|higher: u8|
                    bump < higher <= from ==> #[trigger] bumped_address(
                        authority,
                        higher,
                        program_id,
                    ) is None
            },
            None => forall|bump: u8|
                1 <= bump <= from ==> #[trigger] bumped_address(authority, bump, program_id)
                    is None,
        },
    decreases from,
{
    if from > 0 && bumped_address(authority, from as u8, program_id) is None {
        lemma_highest_bump(authority, program_id, (from - 1) as nat);
    }
}

/// The address of an identity is the one that its bump derives, and the stored
/// bump is never 0.
pub proof fn lemma_identity_address_rederives(authority: Seq<u8>, program_id: Seq<u8>)
    ensures
        identity_address(authority, program_id) matches Some((address, bump)) ==> bump >= 1
            && bumped_address(authority, bump, program_id) == Some(address),
{
    lemma_highest_bump(authority, program_id, 255);
}

/// Whether two keys hold the same bytes.
pub fn same_key(left: &[u8; 32], right: &[u8; 32]) -> (same: bool)
    ensures
        same == (left@ == right@),
{
    let mut i: usize = 0;
    while i < 32
        invariant
            i <= 32,
            forall|j: int| 0 <= j < i ==> left@[j] == right@[j],
        decreases 32 - i,
    {
        if left[i] != right[i] {
            return false;
        }
        i += 1;
    }
    assert(left@ =~= right@);
    true
}

/// Finds the address at which the identity of `authority` is stored under
/// `program_id`, and the bump that derives it.
pub fn find_identity_address(authority: &[u8; 32], program_id: &[u8; 32]) -> (found: Option<
    ([u8; 32], u8),
>)
    ensures
        match found {
            Some((address, bump)) => identity_address(authority@, program_id@) == Some(
                (address@, bump),
            ),
            None => identity_address(authority@, program_id@) is None,
        },
{
    let found = try_find_program_address(IDENTITY_SEED.as_slice(), authority, program_id);
    proof {
        // The bump that the search returned and the highest bump that derives
        // an address are the same: neither can lie above the other.
        lemma_highest_bump(authority@, program_id@, 255);
        let highest = highest_bump(authority@, program_id@, 255);
        if highest is Some {
            assert(bumped_address(authority@, highest->0, program_id@) is Some);
        }
        if let Some((_, bump)) = found {
            assert(bumped_address(authority@, bump, program_id@) is Some);
        }
    }
    found
}

/// Derives the address that the identity of `authority` has with `bump`
/// under `program_id`, if that bump derives one.
pub fn derive_identity_address(authority: &[u8; 32], bump: u8, program_id: &[u8; 32]) -> (derived:
    Option<[u8; 32]>)
    ensures
        match derived {
            Some(address) => bumped_address(authority@, bump, program_id@) == Some(address@),
            None => bumped_address(authority@, bump, program_id@) is None,
        },
{
    match create_program_address(IDENTITY_SEED.as_slice(), authority, bump, program_id) {
        Ok(address) => Some(address),
        Err(_) => None,
    }
}

} // verus!
