use soldrive::drive::Drive;
use soldrive::{Access, Backend, ErrorCode, User};

const OWNER: [u8; 32] = [31u8; 32];

fn ready() -> Drive {
    let mut drive = Drive::new(OWNER);
    assert_eq!(drive.create_user(1000), Ok(()));
    drive
}

fn add_file(drive: &mut Drive, max_size: u32, content: &[u8]) -> Result<u32, ErrorCode> {
    drive.create_file(
        max_size,
        0,
        b"file".to_vec(),
        String::from("bin"),
        content.len() as u64,
        Access::Private,
        Backend::Solana,
        content.to_vec(),
        2000,
    )
}

fn reserved(drive: &Drive) -> u64 {
    drive.files.iter().map(|file| file.max_size as u64).sum()
}

fn consistent(drive: &Drive) -> bool {
    let user = drive.user.unwrap();
    user.folder_count as usize == drive.folders.len()
        && user.file_count as usize == drive.files.len()
        && user.space_used as u64 == reserved(drive)
        && user.folder_count <= user.folder_id
        && user.file_count <= user.file_id
        && drive.files.iter().all(|file| file.data.len() == 198 + file.max_size as usize)
}

#[test]
fn a_new_drive_has_no_profile() {
    let drive = Drive::new(OWNER);
    assert_eq!(drive.owner, OWNER);
    assert_eq!(drive.user, None);
    assert!(drive.folders.is_empty());
    assert!(drive.files.is_empty());
}

#[test]
fn a_profile_is_created_once() {
    let mut drive = Drive::new(OWNER);
    assert_eq!(drive.create_user(1000), Ok(()));
    assert_eq!(drive.user, Some(User::new(1000)));
    assert_eq!(drive.create_folder(0, b"a".to_vec(), 1), Ok(1));
    let before = drive.user;
    assert_eq!(drive.create_user(2000), Err(ErrorCode::AlreadyExists));
    assert_eq!(drive.user, before);
    assert_eq!(drive.folders.len(), 1);
}

#[test]
fn without_a_profile_nothing_is_created() {
    let mut drive = Drive::new(OWNER);
    assert_eq!(drive.create_folder(0, b"a".to_vec(), 1), Err(ErrorCode::NotFound));
    assert_eq!(add_file(&mut drive, 10, &[1]), Err(ErrorCode::NotFound));
    assert_eq!(drive.create_folder(0, vec![0u8; 65], 1), Err(ErrorCode::NotFound));
    assert_eq!(drive.user, None);
    assert!(drive.folders.is_empty());
    assert!(drive.files.is_empty());
}

#[test]
fn the_whole_life_of_a_folder_and_a_file() {
    let mut drive = Drive::new(OWNER);
    assert_eq!(drive.create_user(1000), Ok(()));

    assert_eq!(drive.create_folder(0, b"docs".to_vec(), 1001), Ok(1));
    assert_eq!(drive.folders[0].id, 1);
    assert_eq!(drive.folders[0].name, b"docs".to_vec());
    assert_eq!(drive.folders[0].parent, 0);
    assert_eq!(drive.user.unwrap().folder_count, 1);

    let content: Vec<u8> = (0..100u8).collect();
    let made = drive.create_file(
        1024,
        1,
        b"x1".to_vec(),
        String::from("txt"),
        100,
        Access::Private,
        Backend::Solana,
        content.clone(),
        1002,
    );
    assert_eq!(made, Ok(1));
    assert_eq!(drive.files[0].id, 1);
    assert_eq!(drive.files[0].parent, 1);
    assert_eq!(drive.user.unwrap().space_used, 1024);
    assert_eq!(drive.user.unwrap().file_count, 1);

    let result =
        drive.update_file(1, None, None, None, None, None, None, Some(vec![0u8; 2000]));
    assert_eq!(result, Err(ErrorCode::DataSizeExceeded));
    assert_eq!(drive.files[0].size, 100);
    assert_eq!(drive.read_file(1), Ok(content));

    assert_eq!(drive.remove_file(1), Ok(()));
    assert_eq!(drive.user.unwrap().space_used, 0);
    assert_eq!(drive.user.unwrap().file_count, 0);
    assert!(drive.files.is_empty());

    assert_eq!(drive.remove_folder(1), Ok(()));
    assert_eq!(drive.user.unwrap().folder_count, 0);
    assert!(drive.folders.is_empty());
    assert_eq!(drive.user.unwrap().folder_id, 1);
    assert_eq!(drive.user.unwrap().file_id, 1);
}

#[test]
fn a_stored_name_is_the_given_name() {
    let mut drive = ready();
    for len in [0usize, 1, 63, 64] {
        let name: Vec<u8> = (0..len).map(|i| (i * 7 % 256) as u8).collect();
        let id = drive.create_folder(0, name.clone(), 1).unwrap();
        let at = drive.find_folder(id).unwrap();
        assert_eq!(drive.folders[at].name, name);
    }
    assert!(consistent(&drive));
}

#[test]
fn a_long_name_changes_no_counter() {
    let mut drive = ready();
    assert_eq!(drive.create_folder(0, b"a".to_vec(), 1), Ok(1));
    assert_eq!(add_file(&mut drive, 10, &[1]), Ok(1));
    let before = drive.user;
    assert_eq!(drive.create_folder(0, vec![0u8; 65], 1), Err(ErrorCode::StringTooLong));
    let refused = drive.create_file(
        10,
        0,
        vec![0u8; 65],
        String::new(),
        0,
        Access::Private,
        Backend::Solana,
        Vec::new(),
        1,
    );
    assert_eq!(refused, Err(ErrorCode::StringTooLong));
    assert_eq!(drive.user, before);
    assert_eq!(drive.folders.len(), 1);
    assert_eq!(drive.files.len(), 1);
}

#[test]
fn the_space_in_use_is_the_capacity_of_the_live_files() {
    let mut drive = ready();
    assert_eq!(add_file(&mut drive, 100, &[1, 2, 3]), Ok(1));
    assert!(consistent(&drive));
    assert_eq!(add_file(&mut drive, 0, &[]), Ok(2));
    assert_eq!(add_file(&mut drive, 2500, &[9u8; 2500]), Ok(3));
    assert!(consistent(&drive));
    assert_eq!(drive.user.unwrap().space_used, 2600);
    assert_eq!(add_file(&mut drive, 5, &[9u8; 6]), Err(ErrorCode::DataSizeExceeded));
    assert!(consistent(&drive));
    assert_eq!(drive.user.unwrap().space_used, 2600);
    assert_eq!(drive.remove_file(1), Ok(()));
    assert!(consistent(&drive));
    assert_eq!(drive.user.unwrap().space_used, 2500);
    assert_eq!(drive.update_file(3, None, None, None, None, None, None, Some(vec![1u8])), Ok(()));
    assert!(consistent(&drive));
    assert_eq!(drive.user.unwrap().space_used, 2500);
    assert_eq!(add_file(&mut drive, 40, &[7u8; 40]), Ok(4));
    assert_eq!(drive.remove_file(3), Ok(()));
    assert_eq!(drive.remove_file(2), Ok(()));
    assert!(consistent(&drive));
    assert_eq!(drive.user.unwrap().space_used, 40);
    assert_eq!(drive.remove_file(4), Ok(()));
    assert_eq!(drive.user.unwrap().space_used, 0);
    assert_eq!(drive.user.unwrap().file_count, 0);
    assert_eq!(drive.user.unwrap().file_id, 4);
}

#[test]
fn a_file_created_and_removed_leaves_the_space_as_it_was() {
    let mut drive = ready();
    assert_eq!(add_file(&mut drive, 300, &[1]), Ok(1));
    let before = drive.user.unwrap();
    assert_eq!(add_file(&mut drive, 12345, &[2u8; 99]), Ok(2));
    assert_eq!(drive.user.unwrap().space_used, 12645);
    assert_eq!(drive.remove_file(2), Ok(()));
    assert_eq!(drive.user.unwrap().space_used, before.space_used);
    assert_eq!(drive.user.unwrap().file_count, before.file_count);
    assert_eq!(drive.user.unwrap().file_id, before.file_id + 1);
}

#[test]
fn ids_are_never_given_out_again() {
    let mut drive = ready();
    assert_eq!(drive.create_folder(0, b"a".to_vec(), 1), Ok(1));
    assert_eq!(drive.create_folder(1, b"b".to_vec(), 1), Ok(2));
    assert_eq!(drive.remove_folder(2), Ok(()));
    assert_eq!(drive.user.unwrap().folder_id, 2);
    assert_eq!(drive.create_folder(1, b"c".to_vec(), 1), Ok(3));
    assert_eq!(drive.remove_folder(1), Ok(()));
    assert_eq!(drive.remove_folder(3), Ok(()));
    assert_eq!(drive.user.unwrap().folder_id, 3);
    assert_eq!(drive.create_folder(0, b"d".to_vec(), 1), Ok(4));
    assert_eq!(add_file(&mut drive, 1, &[]), Ok(1));
    assert_eq!(drive.remove_file(1), Ok(()));
    assert_eq!(drive.user.unwrap().file_id, 1);
    assert_eq!(add_file(&mut drive, 1, &[]), Ok(2));
    assert_eq!(drive.user.unwrap().folder_id, 4);
    assert!(consistent(&drive));
}

#[test]
fn a_full_sequence_refuses_a_new_record() {
    let mut drive = ready();
    let mut user = drive.user.unwrap();
    user.folder_id = u32::MAX;
    user.file_id = u32::MAX;
    drive.user = Some(user);
    assert_eq!(drive.create_folder(0, b"a".to_vec(), 1), Err(ErrorCode::FolderCountExceeded));
    assert_eq!(add_file(&mut drive, 1, &[]), Err(ErrorCode::FileCountExceeded));
    assert_eq!(drive.user, Some(user));
    assert!(drive.folders.is_empty());
    assert!(drive.files.is_empty());
}

#[test]
fn a_folder_is_updated_in_its_place() {
    let mut drive = ready();
    assert_eq!(drive.create_folder(0, b"a".to_vec(), 1), Ok(1));
    assert_eq!(drive.create_folder(0, b"b".to_vec(), 2), Ok(2));
    assert_eq!(drive.create_folder(0, b"c".to_vec(), 3), Ok(3));
    assert_eq!(drive.update_folder(2, Some(1), Some(b"bb".to_vec())), Ok(()));
    assert_eq!(drive.folders.len(), 3);
    assert_eq!(drive.folders[1].id, 2);
    assert_eq!(drive.folders[1].name, b"bb".to_vec());
    assert_eq!(drive.folders[1].parent, 1);
    assert_eq!(drive.folders[1].created_at, 2);
    assert_eq!(drive.folders[0].name, b"a".to_vec());
    assert_eq!(drive.folders[2].name, b"c".to_vec());
    assert_eq!(drive.update_folder(2, None, Some(vec![0u8; 65])), Err(ErrorCode::StringTooLong));
    assert_eq!(drive.folders[1].name, b"bb".to_vec());
    assert_eq!(drive.update_folder(4, Some(1), None), Err(ErrorCode::NotFound));
    assert_eq!(drive.update_folder(0, Some(1), None), Err(ErrorCode::NotFound));
    assert_eq!(drive.user.unwrap().folder_count, 3);
}

#[test]
fn removing_a_folder_leaves_its_children() {
    let mut drive = ready();
    assert_eq!(drive.create_folder(0, b"top".to_vec(), 1), Ok(1));
    assert_eq!(drive.create_folder(1, b"sub".to_vec(), 1), Ok(2));
    let made = drive.create_file(
        8,
        1,
        b"f".to_vec(),
        String::new(),
        0,
        Access::Private,
        Backend::Solana,
        vec![1u8],
        1,
    );
    assert_eq!(made, Ok(1));
    assert_eq!(drive.remove_folder(1), Ok(()));
    assert_eq!(drive.find_folder(1), None);
    assert_eq!(drive.find_folder(2), Some(0));
    assert_eq!(drive.folders[0].parent, 1);
    assert_eq!(drive.files[0].parent, 1);
    assert_eq!(drive.user.unwrap().folder_count, 1);
    assert_eq!(drive.user.unwrap().file_count, 1);
    assert_eq!(drive.user.unwrap().space_used, 8);
    assert_eq!(drive.remove_folder(1), Err(ErrorCode::NotFound));
    assert_eq!(drive.user.unwrap().folder_count, 1);
}

#[test]
fn a_file_is_updated_in_its_place() {
    let mut drive = ready();
    assert_eq!(add_file(&mut drive, 10, &[1, 1]), Ok(1));
    assert_eq!(add_file(&mut drive, 20, &[2, 2]), Ok(2));
    assert_eq!(add_file(&mut drive, 30, &[3, 3]), Ok(3));
    let result = drive.update_file(
        2,
        Some(7),
        None,
        None,
        None,
        Some(Access::PublicRead),
        None,
        Some(vec![5u8; 20]),
    );
    assert_eq!(result, Ok(()));
    assert_eq!(drive.find_file(2), Some(1));
    assert_eq!(drive.files[1].parent, 7);
    assert_eq!(drive.files[1].access, Access::PublicRead);
    assert_eq!(drive.files[1].name, b"file".to_vec());
    assert_eq!(drive.files[1].max_size, 20);
    assert_eq!(drive.read_file(2), Ok(vec![5u8; 20]));
    assert_eq!(drive.read_file(1), Ok(vec![1u8, 1]));
    assert_eq!(drive.read_file(3), Ok(vec![3u8, 3]));
    assert_eq!(drive.read_file(4), Err(ErrorCode::NotFound));
    let result = drive.update_file(9, Some(7), None, None, None, None, None, None);
    assert_eq!(result, Err(ErrorCode::NotFound));
    let result =
        drive.update_file(2, None, None, Some(String::from("toolong")), None, None, None, None);
    assert_eq!(result, Err(ErrorCode::StringTooLong));
    assert_eq!(drive.files[1].file_ext, "bin");
    assert!(consistent(&drive));
}

#[test]
fn removing_a_file_that_is_gone_is_not_found() {
    let mut drive = ready();
    assert_eq!(add_file(&mut drive, 10, &[1, 1]), Ok(1));
    assert_eq!(drive.remove_file(2), Err(ErrorCode::NotFound));
    assert_eq!(drive.remove_file(1), Ok(()));
    assert_eq!(drive.remove_file(1), Err(ErrorCode::NotFound));
    assert_eq!(drive.user.unwrap().file_count, 0);
    assert_eq!(drive.user.unwrap().space_used, 0);
    assert_eq!(drive.find_file(1), None);
}
