//! The vault authority: the keyless spender of one position's vault.
//!
//! The authority of a vault is derived from the owner and the position. It has
//! no private key. A spend on its behalf is authorised by presenting the two
//! identities together with the bump that makes the derivation valid; the
//! collaborator believes this only of the program that the authority was
//! derived for.

use vstd::prelude::*;
use solana_program::pubkey::Pubkey;
use crate::identity::Identity;

verus! {

/// The address and bump that the program-address search of the Solana SDK
/// finds for the given seeds and program, or `None` where it finds none.
pub uninterp spec fn program_address(seeds: Seq<Seq<u8>>, program_id: Seq<u8>) -> Option<(Seq<u8>, u8)>;

/// Calls `Pubkey::try_find_program_address` of `solana_program` with the two
/// seeds `owner` and `position`, in this order.
///
/// Trusted: the result is the one that the search gives for these seeds and
/// this program. The search hashes its arguments and nothing else, so equal
/// arguments give equal results; it returns `None` instead of panicking.
#[verifier::external_body]
fn find_program_address(owner: &[u8; 32], position: &[u8; 32], program_id: &[u8; 32]) -> (found: Option<([u8; 32], u8)>)
    ensures
        program_address(seq![owner@, position@], program_id@) == match found {
            Some((address, bump)) => Some((address@, bump)),
            None => None,
        },
{
    let program = Pubkey::new_from_array(*program_id);
    let found = Pubkey::try_find_program_address(&[owner, position], &program);
    found.map(|(address, bump)| (address.to_bytes(), bump))
}

/// A derived authority: its address, and the bump that proves the derivation.
#[derive(Clone, Copy, Debug, PartialEq, Eq, Hash)]
pub struct VaultAuthority {
    pub address: Identity,
    pub bump: u8,
}

impl View for VaultAuthority {
    type V = (Seq<u8>, u8);

    open spec fn view(&self) -> (Seq<u8>, u8) {
        (self.address@, self.bump)
    }
}

/// Address and bump of a derivation, if there is one.
pub open spec fn authority_view(derived: Option<VaultAuthority>) -> Option<(Seq<u8>, u8)> {
    match derived {
        Some(authority) => Some(authority@),
        None => None,
    }
}

/// Address and bump of the authority over the vault of `position`, owned by
/// `owner`, under the program `program_id`; `None` where no bump makes the
/// derivation valid.
pub open spec fn vault_authority(owner: Seq<u8>, position: Seq<u8>, program_id: Seq<u8>) -> Option<(Seq<u8>, u8)> {
    program_address(seq![owner, position], program_id)
}

/// What shows that a spend is authorised by the vault authority: the two
/// derivation inputs, then the bump.
pub open spec fn signer_seeds(owner: Seq<u8>, position: Seq<u8>, bump: u8) -> Seq<Seq<u8>> {
    seq![owner, position, seq![bump]]
}

/// The views of a list of seeds.
pub open spec fn seed_views(seeds: Seq<Vec<u8>>) -> Seq<Seq<u8>> {
    seeds.map_values(|seed: Vec<u8>| seed@)
}

/// Derives the authority of a position's vault from the owner and the
/// position. The result is a function of the three identities alone.
pub fn derive_vault_authority(owner: &Identity, position: &Identity, program_id: &Identity) -> (authority: Option<VaultAuthority>)
    ensures
        authority_view(authority) == vault_authority(owner@, position@, program_id@),
{
    match find_program_address(&owner.bytes, &position.bytes, &program_id.bytes) {
        Some((address, bump)) => Some(VaultAuthority { address: Identity::new(address), bump }),
        None => None,
    }
}

/// Deriving twice from the same owner, position and program gives the same
/// authority, byte for byte: whatever two derivations return for the same
/// three identities is equal, address and bump.
pub proof fn lemma_derivation_is_deterministic(
    owner: Identity,
    position: Identity,
    program_id: Identity,
    first: Option<VaultAuthority>,
    second: Option<VaultAuthority>,
)
    requires
        authority_view(first) == vault_authority(owner@, position@, program_id@),
        authority_view(second) == vault_authority(owner@, position@, program_id@),
    ensures
        first == second,
{
    if first is Some && second is Some {
        crate::identity::lemma_identity_by_view(first->0.address, second->0.address);
    }
}

} // verus!
