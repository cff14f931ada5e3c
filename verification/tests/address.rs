use anchor_lang::prelude::Pubkey;
use soldrive::address::{derive_address, same_key, seeds_of, RecordKind};

fn owner() -> [u8; 32] {
    let mut key = [0u8; 32];
    for (i, byte) in key.iter_mut().enumerate() {
        *byte = i as u8 + 1;
    }
    key
}

fn program() -> [u8; 32] {
    [7u8; 32]
}

#[test]
fn seeds_of_a_profile_are_tag_and_owner() {
    let seeds = seeds_of(&owner(), RecordKind::User, 9);
    assert_eq!(seeds, vec![b"user".to_vec(), owner().to_vec()]);
}

#[test]
fn seeds_of_a_folder_end_in_the_number_lowest_byte_first() {
    let seeds = seeds_of(&owner(), RecordKind::Folder, 0x0102_0304);
    assert_eq!(seeds, vec![b"folder".to_vec(), owner().to_vec(), vec![4u8, 3, 2, 1]]);
}

#[test]
fn seeds_of_a_file_end_in_the_number_lowest_byte_first() {
    let seeds = seeds_of(&owner(), RecordKind::File, 1);
    assert_eq!(seeds, vec![b"file".to_vec(), owner().to_vec(), vec![1u8, 0, 0, 0]]);
}

#[test]
fn derive_agrees_with_the_program_address_of_the_seeds() {
    let id: u32 = 5;
    let program_id = Pubkey::new_from_array(program());
    let expected = Pubkey::find_program_address(
        &[b"folder".as_ref(), owner().as_ref(), &id.to_le_bytes()],
        &program_id,
    );
    let found = derive_address(&owner(), RecordKind::Folder, id, &program()).unwrap();
    assert_eq!(found.0, expected.0.to_bytes());
    assert_eq!(found.1, expected.1);
    assert_ne!(found.0, owner());
    assert_ne!(found.0, program());
}

#[test]
fn derive_tells_kinds_and_numbers_apart() {
    let folder1 = derive_address(&owner(), RecordKind::Folder, 1, &program()).unwrap();
    let folder2 = derive_address(&owner(), RecordKind::Folder, 2, &program()).unwrap();
    let file1 = derive_address(&owner(), RecordKind::File, 1, &program()).unwrap();
    let user = derive_address(&owner(), RecordKind::User, 1, &program()).unwrap();
    assert_ne!(folder1.0, folder2.0);
    assert_ne!(folder1.0, file1.0);
    assert_ne!(user.0, file1.0);
    assert_eq!(derive_address(&owner(), RecordKind::User, 2, &program()), Some(user));
    assert_eq!(derive_address(&owner(), RecordKind::Folder, 1, &program()), Some(folder1));
}

#[test]
fn keys_are_compared_byte_by_byte() {
    assert!(same_key(&owner(), &owner()));
    assert!(!same_key(&owner(), &program()));
    let mut other = owner();
    other[31] ^= 1;
    assert!(!same_key(&owner(), &other));
    let mut other = owner();
    other[0] ^= 0x80;
    assert!(!same_key(&owner(), &other));
}

#[test]
fn every_record_in_use_has_an_address() {
    assert!(derive_address(&owner(), RecordKind::File, u32::MAX, &program()).is_some());
    assert!(derive_address(&[0u8; 32], RecordKind::User, 0, &[0u8; 32]).is_some());
}
