use soldrive::address::{derive_address, RecordKind};
use soldrive::{create_user, sign, CreateUser, ErrorCode, Sign, User};

fn blank() -> User {
    User {
        created_at: 99,
        folder_id: 7,
        file_id: 8,
        folder_count: 3,
        file_count: 4,
        space_used: 500,
        encryption: false,
    }
}

#[test]
fn a_new_profile_holds_nothing_and_encrypts() {
    let user = User::new(1_700_000_000);
    assert_eq!(user.created_at, 1_700_000_000);
    assert_eq!(user.folder_id, 0);
    assert_eq!(user.file_id, 0);
    assert_eq!(user.folder_count, 0);
    assert_eq!(user.file_count, 0);
    assert_eq!(user.space_used, 0);
    assert!(user.encryption);
}

#[test]
fn create_user_resets_the_record() {
    let mut ctx = CreateUser { user: blank(), authority: [3u8; 32] };
    assert_eq!(create_user(&mut ctx, -5), Ok(()));
    assert_eq!(ctx.user, User::new(-5));
    assert_eq!(ctx.authority, [3u8; 32]);
}

#[test]
fn sign_does_nothing() {
    let ctx = Sign { authority: [3u8; 32] };
    assert_eq!(sign(&ctx), Ok(()));
    assert_eq!(ctx.authority, [3u8; 32]);
}

#[test]
fn next_folder_id_counts_up_from_one() {
    let mut user = User::new(0);
    assert_eq!(user.peek_folder_id(), Ok(1));
    assert_eq!(user.folder_id, 0);
    assert_eq!(user.next_folder_id(), Ok(1));
    assert_eq!(user.next_folder_id(), Ok(2));
    assert_eq!(user.folder_id, 2);
    assert_eq!(user.folder_count, 0);
    assert_eq!(user.file_id, 0);
}

#[test]
fn next_file_id_counts_up_from_one() {
    let mut user = User::new(0);
    assert_eq!(user.peek_file_id(), Ok(1));
    assert_eq!(user.next_file_id(), Ok(1));
    assert_eq!(user.next_file_id(), Ok(2));
    assert_eq!(user.next_file_id(), Ok(3));
    assert_eq!(user.file_id, 3);
    assert_eq!(user.folder_id, 0);
}

#[test]
fn a_folder_sequence_at_its_end_issues_no_id() {
    let mut user = blank();
    user.folder_id = u32::MAX;
    let before = user;
    assert_eq!(user.peek_folder_id(), Err(ErrorCode::FolderCountExceeded));
    assert_eq!(user.next_folder_id(), Err(ErrorCode::FolderCountExceeded));
    assert_eq!(user, before);
    user.folder_id = u32::MAX - 1;
    assert_eq!(user.next_folder_id(), Ok(u32::MAX));
}

#[test]
fn a_file_sequence_at_its_end_issues_no_id() {
    let mut user = blank();
    user.file_id = u32::MAX;
    let before = user;
    assert_eq!(user.peek_file_id(), Err(ErrorCode::FileCountExceeded));
    assert_eq!(user.next_file_id(), Err(ErrorCode::FileCountExceeded));
    assert_eq!(user, before);
}

#[test]
fn space_is_added_and_released() {
    let mut user = blank();
    user.add_space(1024);
    assert_eq!(user.space_used, 1524);
    user.release_space(24);
    assert_eq!(user.space_used, 1500);
    user.release_space(1500);
    assert_eq!(user.space_used, 0);
    user.add_space(u32::MAX);
    assert_eq!(user.space_used, u32::MAX);
    assert_eq!(user.file_count, 4);
}

#[test]
fn the_next_address_is_that_of_the_next_id() {
    let owner = [5u8; 32];
    let program = [6u8; 32];
    let mut user = User::new(0);
    user.folder_id = 41;
    user.file_id = 9;
    assert_eq!(
        user.next_folder_address(&owner, &program),
        Ok(derive_address(&owner, RecordKind::Folder, 42, &program))
    );
    assert_eq!(
        user.next_file_address(&owner, &program),
        Ok(derive_address(&owner, RecordKind::File, 10, &program))
    );
    assert!(user.next_file_address(&owner, &program).unwrap().is_some());
    assert_eq!(user.folder_id, 41);
}

#[test]
fn a_sequence_at_its_end_has_no_next_address() {
    let owner = [5u8; 32];
    let program = [6u8; 32];
    let mut user = User::new(0);
    user.folder_id = u32::MAX;
    assert_eq!(user.next_folder_address(&owner, &program), Err(ErrorCode::FolderCountExceeded));
    user.file_id = u32::MAX;
    assert_eq!(user.next_file_address(&owner, &program), Err(ErrorCode::FileCountExceeded));
}
