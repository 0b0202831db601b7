//! Program-derived addresses: identities computed from seeds and a program's
//! identity, for which no private key exists.
//!
//! The escrow uses two of them. The custody authority is derived from one
//! fixed seed and owns every custody account. The custody account of a trade
//! is derived from the initializer and the offered asset kind.
use vstd::prelude::*;
use anchor_lang::prelude::Pubkey;
use crate::address::Address;

verus! {

/// The seed from which the custody authority is derived: the ASCII bytes of
/// the word "escrow".
pub const ESCROW_PDA_SEEDS: [u8; 6] = [0x65, 0x73, 0x63, 0x72, 0x6f, 0x77];

/// What `Pubkey::try_find_program_address` returns for a list of seeds and
/// the bytes of a program's identity: the bytes of the derived address with
/// its bump seed, or `None` where no address can be derived.
pub uninterp spec fn program_address(seeds: Seq<Seq<u8>>, program_id: Seq<u8>) -> Option<(Seq<u8>, u8)>;

/// The byte sequences that a list of seeds holds.
pub open spec fn seeds_view(seeds: Seq<Vec<u8>>) -> Seq<Seq<u8>> {
    Seq::new(seeds.len(), |i: int| seeds[i]@)
}

/// Calls `Pubkey::try_find_program_address`, the form of
/// `Pubkey::find_program_address` that reports a failed search as `None`.
///
/// Not proved: that the outcome is `program_address` of the seeds' bytes and
/// the program identity's bytes.
#[verifier::external_body]
fn try_find_program_address(seeds: &Vec<Vec<u8>>, program_id: &Address) -> (found: Option<(Address, u8)>)
    ensures
        match found {
            Some((address, bump)) => program_address(seeds_view(seeds@), program_id@) == Some(
                (address@, bump),
            ),
            None => program_address(seeds_view(seeds@), program_id@) is None,
        },
{
    let parts: Vec<&[u8]> = seeds.iter().map(|seed| seed.as_slice()).collect();
    match Pubkey::try_find_program_address(&parts, &Pubkey::new_from_array(program_id.bytes)) {
        Some((key, bump)) => Some((Address { bytes: key.to_bytes() }, bump)),
        None => None,
    }
}

/// The derived address and bump seed for `seeds` under `program_id`.
pub open spec fn derived(seeds: Seq<Seq<u8>>, program_id: Address) -> Option<(Address, u8)> {
    match program_address(seeds, program_id@) {
        Some((bytes, bump)) => Some((Address::from_view(bytes), bump)),
        None => None,
    }
}

/// The seeds of the custody authority.
pub open spec fn authority_seeds() -> Seq<Seq<u8>> {
    seq![ESCROW_PDA_SEEDS@]
}

/// The seeds of the custody account of a trade.
pub open spec fn vault_seeds(initializer: Address, mint: Address) -> Seq<Seq<u8>> {
    seq![initializer@, mint@]
}

/// The custody authority of the escrow program `program_id`, with its bump
/// seed.
pub open spec fn vault_authority_pda(program_id: Address) -> Option<(Address, u8)> {
    derived(authority_seeds(), program_id)
}

/// The address of the custody account for the trade in which `initializer`
/// offers an asset of kind `mint`, with its bump seed.
pub open spec fn vault_account_pda(program_id: Address, initializer: Address, mint: Address) -> Option<(Address, u8)> {
    derived(vault_seeds(initializer, mint), program_id)
}

/// Derives the address for `seeds` under `program_id`.
pub fn find_program_address(seeds: &Vec<Vec<u8>>, program_id: &Address) -> (found: Option<(Address, u8)>)
    ensures
        found == derived(seeds_view(seeds@), *program_id),
{
    let found = try_find_program_address(seeds, program_id);
    proof {
        if let Some((address, _)) = found {
            Address::lemma_from_view(address);
        }
    }
    found
}

/// Derives the custody authority of the escrow program `program_id`.
pub fn find_vault_authority(program_id: &Address) -> (found: Option<(Address, u8)>)
    ensures
        found == vault_authority_pda(*program_id),
{
    let mut seed: Vec<u8> = Vec::new();
    let mut i: usize = 0;
    while i < 6
        invariant
            i <= 6,
            seed@ == ESCROW_PDA_SEEDS@.subrange(0, i as int),
        decreases 6 - i,
    {
        seed.push(ESCROW_PDA_SEEDS[i]);
        i += 1;
    }
    assert(seed@ =~= ESCROW_PDA_SEEDS@);
    let mut seeds: Vec<Vec<u8>> = Vec::new();
    seeds.push(seed);
    assert(seeds_view(seeds@) =~= authority_seeds());
    find_program_address(&seeds, program_id)
}

/// Derives the custody account of the trade in which `initializer` offers an
/// asset of kind `mint`.
pub fn find_vault_account(program_id: &Address, initializer: &Address, mint: &Address) -> (found: Option<(Address, u8)>)
    ensures
        found == vault_account_pda(*program_id, *initializer, *mint),
{
    let mut seeds: Vec<Vec<u8>> = Vec::new();
    seeds.push(initializer.to_vec());
    seeds.push(mint.to_vec());
    assert(seeds_view(seeds@) =~= vault_seeds(*initializer, *mint));
    find_program_address(&seeds, program_id)
}

} // verus!
