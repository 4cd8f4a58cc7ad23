//! Deterministic address derivation: the root authority from the system's
//! own identifier, and the allowance record's address from its
//! (token_account, delegate) pair. Both are reproducible by any caller
//! from the seed material alone, without querying the system.

use vstd::prelude::*;

verus! {

use crate::addr::addr_bytes;
use crate::addr::Address;

/// What the deterministic address registry derives from the given seeds
/// and system identifier: a derived address's 32 bytes and its
/// disambiguation byte, or nothing in the statistically improbable event
/// that no disambiguation byte yields a valid derived address. The result
/// is a function of the seeds and the identifier alone.
pub uninterp spec fn pda_of(seeds: Seq<Seq<u8>>, program_id: Seq<u8>) -> Option<(Seq<u8>, u8)>;

/// Relies on solana_program's `Pubkey::try_find_program_address`: a
/// deterministic derivation from the seed bytes and program id alone,
/// `None` only when no disambiguation byte yields a valid address.
#[verifier::external_body]
fn find_pda(seeds: &Vec<Address>, program_id: &Address) -> (r: Option<(Address, u8)>)
    ensures
        (match r {
            Some((a, bump)) => pda_of(
                seeds@.map_values(|s: Address| addr_bytes(s)),
                addr_bytes(*program_id),
            ) == Some((addr_bytes(a), bump)),
            None => pda_of(
                seeds@.map_values(|s: Address| addr_bytes(s)),
                addr_bytes(*program_id),
            ) is None,
        }),
{
    let seed_bytes: Vec<Vec<u8>> = seeds.iter().map(|a| a.to_bytes()).collect();
    let seed_refs: Vec<&[u8]> = seed_bytes.iter().map(|b| b.as_slice()).collect();
    let pid_arr: [u8; 32] = program_id.to_bytes().try_into().unwrap();
    let pid = solana_program::pubkey::Pubkey::new_from_array(pid_arr);
    solana_program::pubkey::Pubkey::try_find_program_address(&seed_refs, &pid).map(
        |p: (solana_program::pubkey::Pubkey, u8)| (Address::from_bytes(&p.0.to_bytes()), p.1),
    )
}

/// The seed material of the root authority: the system's own identifier.
pub open spec fn root_authority_seeds(program_id: Address) -> Seq<Seq<u8>> {
    seq![addr_bytes(program_id)]
}

/// The seed material of the allowance record for a
/// (token_account, delegate) pair.
pub open spec fn allowance_record_seeds(token_account: Address, delegate: Address) -> Seq<
    Seq<u8>,
> {
    seq![addr_bytes(token_account), addr_bytes(delegate)]
}

/// The process-wide root authority of the system identified by
/// `program_id`, and its disambiguation byte (the derivation proof the
/// runtime signs transfers with).
pub fn derive_root_authority(program_id: &Address) -> (r: Option<(Address, u8)>)
    ensures
        (match r {
            Some((a, bump)) => pda_of(root_authority_seeds(*program_id), addr_bytes(*program_id))
                == Some((addr_bytes(a), bump)),
            None => pda_of(root_authority_seeds(*program_id), addr_bytes(*program_id)) is None,
        }),
{
    let mut seeds: Vec<Address> = Vec::new();
    seeds.push(*program_id);
    let r = find_pda(&seeds, program_id);
    proof {
        assert(seeds@.map_values(|s: Address| addr_bytes(s)) =~= root_authority_seeds(
            *program_id,
        ));
    }
    r
}

/// The storage address of the allowance record for
/// (`token_account`, `delegate`) under the system identified by
/// `program_id`, and its disambiguation byte.
pub fn derive_allowance_address(
    token_account: &Address,
    delegate: &Address,
    program_id: &Address,
) -> (r: Option<(Address, u8)>)
    ensures
        (match r {
            Some((a, bump)) => pda_of(
                allowance_record_seeds(*token_account, *delegate),
                addr_bytes(*program_id),
            ) == Some((addr_bytes(a), bump)),
            None => pda_of(
                allowance_record_seeds(*token_account, *delegate),
                addr_bytes(*program_id),
            ) is None,
        }),
{
    let mut seeds: Vec<Address> = Vec::new();
    seeds.push(*token_account);
    seeds.push(*delegate);
    let r = find_pda(&seeds, program_id);
    proof {
        assert(seeds@.map_values(|s: Address| addr_bytes(s)) =~= allowance_record_seeds(
            *token_account,
            *delegate,
        ));
    }
    r
}

} // verus!
