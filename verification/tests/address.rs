use anchor_lang::solana_program::pubkey::Pubkey;
use wino_identity::address::derive_identity_address;
use wino_identity::address::find_identity_address;
use wino_identity::address::same_key;
use wino_identity::address::IDENTITY_SEED;

const PROGRAM: [u8; 32] = [
    86, 36, 4, 174, 118, 37, 182, 192, 212, 242, 148, 216, 183, 205, 235, 214, 22, 84, 177, 198,
    32, 67, 107, 103, 20, 229, 92, 180, 44, 5, 67, 154,
];

const SEVENS_ADDRESS: [u8; 32] = [
    69, 215, 137, 83, 215, 181, 182, 49, 221, 31, 17, 176, 139, 28, 253, 87, 109, 46, 63, 77, 247,
    189, 23, 155, 130, 201, 31, 176, 0, 224, 11, 197,
];

const ZEROS_ADDRESS: [u8; 32] = [
    230, 224, 95, 92, 52, 135, 52, 193, 230, 93, 106, 188, 187, 205, 240, 130, 196, 83, 224, 29,
    155, 121, 5, 147, 199, 85, 171, 88, 242, 114, 173, 235,
];

fn counting() -> [u8; 32] {
    let mut key = [0u8; 32];
    let mut next: u8 = 1u8;
    for byte in key.iter_mut() {
        *byte = next;
        next += 1u8;
    }
    key
}

#[test]
fn seed_is_the_namespace_text() {
    assert_eq!(&IDENTITY_SEED[..], b"wino_business_identity");
    assert_eq!(IDENTITY_SEED.len(), 22usize);
}

#[test]
fn same_key_compares_all_bytes() {
    let left = [5u8; 32];
    let mut right = [5u8; 32];
    assert!(same_key(&left, &right));
    right[31] = 6u8;
    assert!(!same_key(&left, &right));
    right[31] = 5u8;
    right[0] = 4u8;
    assert!(!same_key(&left, &right));
}

#[test]
fn finds_the_address_of_a_principal() {
    assert_eq!(
        find_identity_address(&[7u8; 32], &PROGRAM),
        Some((SEVENS_ADDRESS, 252u8))
    );
    assert_eq!(
        find_identity_address(&[0u8; 32], &PROGRAM),
        Some((ZEROS_ADDRESS, 250u8))
    );
}

#[test]
fn found_address_differs_from_its_inputs() {
    let authority = [7u8; 32];
    let (address, _bump) = find_identity_address(&authority, &PROGRAM).unwrap();
    assert_ne!(address, authority);
    assert_ne!(address, PROGRAM);
}

#[test]
fn address_is_found_again() {
    let authority = counting();
    let first = find_identity_address(&authority, &PROGRAM);
    let second = find_identity_address(&authority, &PROGRAM);
    assert_eq!(first, second);
    assert_eq!(first.unwrap().1, 254u8);
}

#[test]
fn principals_have_different_addresses() {
    let one = find_identity_address(&[7u8; 32], &PROGRAM).unwrap();
    let other = find_identity_address(&[9u8; 32], &PROGRAM).unwrap();
    assert_ne!(one.0, other.0);
}

#[test]
fn programs_have_different_addresses() {
    let here = find_identity_address(&[7u8; 32], &PROGRAM).unwrap();
    let there = find_identity_address(&[7u8; 32], &[1u8; 32]).unwrap();
    assert_ne!(here.0, there.0);
}

#[test]
fn found_address_agrees_with_the_key_type() {
    let authority = counting();
    let program = Pubkey::new_from_array(PROGRAM);
    let (key, bump) = Pubkey::find_program_address(&[&IDENTITY_SEED[..], &authority[..]], &program);
    assert_eq!(
        find_identity_address(&authority, &PROGRAM),
        Some((key.to_bytes(), bump))
    );
}

#[test]
fn stored_bump_derives_the_address_again() {
    assert_eq!(
        derive_identity_address(&[7u8; 32], 252u8, &PROGRAM),
        Some(SEVENS_ADDRESS)
    );
    assert_eq!(
        derive_identity_address(&[0u8; 32], 250u8, &PROGRAM),
        Some(ZEROS_ADDRESS)
    );
}

#[test]
fn bumps_above_the_found_one_derive_nothing() {
    assert_eq!(derive_identity_address(&[7u8; 32], 255u8, &PROGRAM), None);
    assert_eq!(derive_identity_address(&[7u8; 32], 254u8, &PROGRAM), None);
    assert_eq!(derive_identity_address(&[7u8; 32], 253u8, &PROGRAM), None);
}

#[test]
fn another_bump_derives_another_address() {
    let lower = derive_identity_address(&[7u8; 32], 247u8, &PROGRAM);
    assert!(lower.is_some());
    assert_ne!(lower, Some(SEVENS_ADDRESS));
}

#[test]
fn every_found_bump_is_the_highest_that_derives() {
    for seed in 0u8..20u8 {
        let authority = [seed; 32];
        let (address, bump) = find_identity_address(&authority, &PROGRAM).unwrap();
        assert!(bump >= 1u8);
        assert_eq!(
            derive_identity_address(&authority, bump, &PROGRAM),
            Some(address)
        );
        let mut higher: u8 = 255u8;
        while higher > bump {
            assert_eq!(derive_identity_address(&authority, higher, &PROGRAM), None);
            higher -= 1u8;
        }
    }
}
