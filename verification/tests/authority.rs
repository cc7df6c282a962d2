use dca_anchor::{derive_vault_authority, DerivationProof, Identity, VaultAuthority};

fn id(byte: u8) -> Identity {
    Identity::new([byte; 32])
}

#[test]
fn derives_the_known_address_and_bump() {
    let authority = derive_vault_authority(&id(1), &id(2), &id(3));
    let address = [
        60, 212, 244, 139, 247, 39, 12, 67, 51, 170, 236, 255, 252, 37, 223, 49, 60, 103, 163, 39,
        200, 154, 141, 16, 172, 210, 214, 52, 213, 118, 108, 247,
    ];
    assert_eq!(
        authority,
        Some(VaultAuthority { address: Identity::new(address), bump: 254 })
    );
}

#[test]
fn derives_with_the_highest_bump_where_it_is_valid() {
    let authority = derive_vault_authority(&id(7), &id(9), &id(11));
    let address = [
        113, 79, 209, 250, 102, 98, 253, 148, 249, 236, 48, 205, 245, 94, 106, 143, 20, 235, 155,
        7, 58, 4, 13, 141, 208, 93, 135, 103, 193, 77, 141, 28,
    ];
    assert_eq!(
        authority,
        Some(VaultAuthority { address: Identity::new(address), bump: 255 })
    );
}

#[test]
fn derives_from_zero_identities() {
    let authority = derive_vault_authority(&id(0), &id(0), &id(0));
    let address = [
        141, 201, 17, 40, 72, 159, 75, 89, 96, 86, 203, 82, 226, 170, 135, 251, 21, 150, 184, 231,
        195, 126, 108, 14, 20, 50, 183, 245, 142, 103, 197, 197,
    ];
    assert_eq!(
        authority,
        Some(VaultAuthority { address: Identity::new(address), bump: 255 })
    );
}

#[test]
fn derivation_is_repeatable() {
    let first = derive_vault_authority(&id(5), &id(6), &id(3));
    let second = derive_vault_authority(&id(5), &id(6), &id(3));
    assert!(first.is_some());
    assert_eq!(first, second);
}

#[test]
fn derivation_tells_pairs_apart() {
    let base = derive_vault_authority(&id(1), &id(2), &id(3)).unwrap();
    let other_owner = derive_vault_authority(&id(4), &id(2), &id(3)).unwrap();
    let other_position = derive_vault_authority(&id(1), &id(4), &id(3)).unwrap();
    let other_program = derive_vault_authority(&id(1), &id(2), &id(4)).unwrap();
    let swapped = derive_vault_authority(&id(2), &id(1), &id(3)).unwrap();
    assert_ne!(base.address, other_owner.address);
    assert_ne!(base.address, other_position.address);
    assert_ne!(base.address, other_program.address);
    assert_ne!(base.address, swapped.address);
}

#[test]
fn derived_address_is_none_of_its_inputs() {
    let authority = derive_vault_authority(&id(1), &id(2), &id(3)).unwrap();
    assert_ne!(authority.address, id(1));
    assert_ne!(authority.address, id(2));
    assert_ne!(authority.address, id(3));
}

#[test]
fn proof_seeds_are_owner_position_bump() {
    let proof = DerivationProof { owner: id(1), position: id(2), bump: 254 };
    assert_eq!(proof.seeds(), vec![vec![1u8; 32], vec![2u8; 32], vec![254u8]]);
}

#[test]
fn identity_keeps_its_bytes() {
    let mut bytes = [0u8; 32];
    for (i, byte) in bytes.iter_mut().enumerate() {
        *byte = i as u8;
    }
    let identity = Identity::new(bytes);
    assert_eq!(identity.to_bytes(), bytes);
    assert_eq!(identity.to_vec(), bytes.to_vec());
    assert!(identity.same(&Identity::new(bytes)));
    bytes[31] = 0;
    assert!(!identity.same(&Identity::new(bytes)));
}
