//! Deterministic derivation of the descriptive record's storage address
//! from the asset identity: a pure, reproducible function of the identity
//! and the fixed metadata namespace, computed by the ledger's program
//! derived address routine.

use vstd::prelude::*;

verus! {

/// The derived descriptive-record address for an asset identity: the
/// program derived address of the fixed `"metadata"` namespace seeds over
/// this identity under the metadata program. A function of the asset
/// identity alone, so the same identity always yields the same address.
pub uninterp spec fn metadata_record_addr(asset: u64) -> Seq<u8>;

/// Whether the derivation routine finds an address for this asset identity
/// at all. The whole search is deterministic, so this too is a function of
/// the asset identity alone; it is false only in the statistically
/// improbable event that no bump seed yields a valid address.
pub uninterp spec fn metadata_addr_exists(asset: u64) -> bool;

/// Relies on solana_program's `Pubkey::try_find_program_address`: the result
/// — both whether an address is found and which one — is computed from the
/// seeds and the program id alone; here those are the fixed `"metadata"`
/// namespace, the metadata program id (`mpl_token_metadata::ID`) and the
/// asset identity's bytes, so the whole outcome depends on the asset
/// identity only, and a `Some` result is a 32-byte address. `None` comes
/// only in the statistically improbable event that no bump seed yields a
/// valid address.
#[verifier::external_body]
pub(crate) fn derive_metadata_record_addr(asset: u64) -> (r: Option<Vec<u8>>)
    ensures
        r is Some <==> metadata_addr_exists(asset),
        r matches Some(v) ==> v@ == metadata_record_addr(asset) && v@.len() == 32,
{
    let program_id = solana_program::pubkey::Pubkey::new_from_array(
        mpl_token_metadata::ID.to_bytes(),
    );
    let asset_bytes = asset.to_le_bytes();
    let seeds: [&[u8]; 3] = [b"metadata", program_id.as_ref(), &asset_bytes];
    match solana_program::pubkey::Pubkey::try_find_program_address(&seeds, &program_id) {
        Some((pda, _bump)) => Some(pda.to_bytes().to_vec()),
        None => None,
    }
}

} // verus!
