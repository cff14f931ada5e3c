//! The owner's profile: the one record that counts what an owner holds.
//!
//! It issues the ids of folders and files from two sequence counters that only
//! grow, counts the records that are live, and adds up the content capacity
//! that the live files have reserved.

use vstd::prelude::*;
use crate::address::{derive_address, found_view, program_address, record_seeds, Key, RecordKind};
use crate::error::ErrorCode;

verus! {

/// An owner's profile.
#[derive(Clone, Copy, Debug, PartialEq, Eq, Structural)]
pub struct User {
    /// When the profile was created, in seconds.
    pub created_at: i64,
    /// The id that was given to the newest folder; 0 before the first.
    pub folder_id: u32,
    /// The id that was given to the newest file; 0 before the first.
    pub file_id: u32,
    /// How many folders are live.
    pub folder_count: u32,
    /// How many files are live.
    pub file_count: u32,
    /// The content capacity of all live files together, in bytes.
    pub space_used: u32,
    /// Whether the owner's content is stored encrypted.
    pub encryption: bool,
}

impl User {
    /// Capacity of a profile record.
    pub const SIZE: usize = crate::layout::USER_SIZE;

    /// No more records are live than ids were issued.
    pub open spec fn wf(&self) -> bool {
        self.folder_count <= self.folder_id && self.file_count <= self.file_id
    }

    /// The profile of an owner who holds nothing yet.
    pub open spec fn spec_new(now: i64) -> User {
        User {
            created_at: now,
            folder_id: 0,
            file_id: 0,
            folder_count: 0,
            file_count: 0,
            space_used: 0,
            encryption: true,
        }
    }

    /// The profile after a folder was created.
    pub open spec fn with_folder_added(self) -> User {
        User {
            folder_id: (self.folder_id + 1) as u32,
            folder_count: (self.folder_count + 1) as u32,
            ..self
        }
    }

    /// The profile after a folder was removed.
    pub open spec fn with_folder_removed(self) -> User {
        User { folder_count: (self.folder_count - 1) as u32, ..self }
    }

    /// The profile after a file that reserves `max_size` bytes was created.
    pub open spec fn with_file_added(self, max_size: u32) -> User {
        User {
            file_id: (self.file_id + 1) as u32,
            file_count: (self.file_count + 1) as u32,
            space_used: (self.space_used + max_size) as u32,
            ..self
        }
    }

    /// The profile after a file that had reserved `max_size` bytes was removed.
    pub open spec fn with_file_removed(self, max_size: u32) -> User {
        User {
            file_count: (self.file_count - 1) as u32,
            space_used: (self.space_used - max_size) as u32,
            ..self
        }
    }

    /// Makes the profile of an owner who holds nothing yet, with encryption on.
    pub fn new(now: i64) -> (user: User)
        ensures
            user == User::spec_new(now),
            user.wf(),
    {
        User {
            created_at: now,
            folder_id: 0,
            file_id: 0,
            folder_count: 0,
            file_count: 0,
            space_used: 0,
            encryption: true,
        }
    }

    /// The id that the next folder gets: one more than the last, unless the
    /// counter is at its largest value.
    pub open spec fn peek_folder_id_spec(&self) -> Result<u32, ErrorCode> {
        if self.folder_id < u32::MAX {
            Ok((self.folder_id + 1) as u32)
        } else {
            Err(ErrorCode::FolderCountExceeded)
        }
    }

    /// The id that the next file gets: one more than the last, unless the
    /// counter is at its largest value.
    pub open spec fn peek_file_id_spec(&self) -> Result<u32, ErrorCode> {
        if self.file_id < u32::MAX {
            Ok((self.file_id + 1) as u32)
        } else {
            Err(ErrorCode::FileCountExceeded)
        }
    }

    /// The id that the next folder will get, while the profile stays as it is.
    /// An address for the new folder is computed from this id before the
    /// folder is created. Fails when the counter cannot grow.
    pub fn peek_folder_id(&self) -> (result: Result<u32, ErrorCode>)
        ensures
            result == self.peek_folder_id_spec(),
    {
        if self.folder_id < u32::MAX {
            Ok(self.folder_id + 1)
        } else {
            Err(ErrorCode::FolderCountExceeded)
        }
    }

    /// The id that the next file will get, while the profile stays as it is.
    pub fn peek_file_id(&self) -> (result: Result<u32, ErrorCode>)
        ensures
            result == self.peek_file_id_spec(),
    {
        if self.file_id < u32::MAX {
            Ok(self.file_id + 1)
        } else {
            Err(ErrorCode::FileCountExceeded)
        }
    }

    /// Issues the next folder id: one more than the last. Fails, and changes
    /// nothing, when the counter is at its largest value.
    pub fn next_folder_id(&mut self) -> (result: Result<u32, ErrorCode>)
        ensures
            result == old(self).peek_folder_id_spec(),
            result is Ok ==> *final(self) == (User {
                folder_id: (old(self).folder_id + 1) as u32,
                ..*old(self)
            }),
            result is Err ==> *final(self) == *old(self),
    {
        if self.folder_id < u32::MAX {
            self.folder_id = self.folder_id + 1;
            Ok(self.folder_id)
        } else {
            Err(ErrorCode::FolderCountExceeded)
        }
    }

    /// Issues the next file id: one more than the last. Fails, and changes
    /// nothing, when the counter is at its largest value.
    pub fn next_file_id(&mut self) -> (result: Result<u32, ErrorCode>)
        ensures
            result == old(self).peek_file_id_spec(),
            result is Ok ==> *final(self) == (User {
                file_id: (old(self).file_id + 1) as u32,
                ..*old(self)
            }),
            result is Err ==> *final(self) == *old(self),
    {
        if self.file_id < u32::MAX {
            self.file_id = self.file_id + 1;
            Ok(self.file_id)
        } else {
            Err(ErrorCode::FileCountExceeded)
        }
    }

    /// The address at which the next folder of `owner` will be stored: that of
    /// the id that comes next, computed while the profile still holds the last
    /// one. Fails when the folder sequence cannot grow. The address is `None`
    /// only where none can be found for the record's seeds.
    pub fn next_folder_address(&self, owner: &Key, program: &Key) -> (result: Result<
        Option<(Key, u8)>,
        ErrorCode,
    >)
        ensures
            match self.peek_folder_id_spec() {
                Ok(id) => result is Ok && found_view(result.unwrap()) == program_address(
                    record_seeds(owner@, RecordKind::Folder, id),
                    program@,
                ),
                Err(e) => result == Err::<Option<(Key, u8)>, ErrorCode>(e),
            },
    {
        match self.peek_folder_id() {
            Ok(id) => Ok(derive_address(owner, RecordKind::Folder, id, program)),
            Err(e) => Err(e),
        }
    }

    /// The address at which the next file of `owner` will be stored. Fails
    /// when the file sequence cannot grow.
    pub fn next_file_address(&self, owner: &Key, program: &Key) -> (result: Result<
        Option<(Key, u8)>,
        ErrorCode,
    >)
        ensures
            match self.peek_file_id_spec() {
                Ok(id) => result is Ok && found_view(result.unwrap()) == program_address(
                    record_seeds(owner@, RecordKind::File, id),
                    program@,
                ),
                Err(e) => result == Err::<Option<(Key, u8)>, ErrorCode>(e),
            },
    {
        match self.peek_file_id() {
            Ok(id) => Ok(derive_address(owner, RecordKind::File, id, program)),
            Err(e) => Err(e),
        }
    }

    /// Adds `n` bytes to the space in use. The sum has to fit the counter.
    pub fn add_space(&mut self, n: u32)
        requires
            old(self).space_used + n <= u32::MAX,
        ensures
            *final(self) == (User { space_used: (old(self).space_used + n) as u32, ..*old(self) }),
    {
        self.space_used = self.space_used + n;
    }

    /// Takes `n` bytes from the space in use. To release more than is in use
    /// is a fault of the caller, not an error that is reported.
    pub fn release_space(&mut self, n: u32)
        requires
            n <= old(self).space_used,
        ensures
            *final(self) == (User { space_used: (old(self).space_used - n) as u32, ..*old(self) }),
    {
        self.space_used = self.space_used - n;
    }
}

/// What `sign` is given: the key of the caller.
pub struct Sign {
    /// The caller, whose identity was established before.
    pub authority: Key,
}

/// What `create_user` works on.
pub struct CreateUser {
    /// The profile record, freshly allocated.
    pub user: User,
    /// The caller, whose profile it becomes.
    pub authority: Key,
}

/// Does nothing. A caller signs this request to obtain an encryption key from
/// the signature.
pub fn sign(ctx: &Sign) -> (result: Result<(), ErrorCode>)
    ensures
        result is Ok,
{
    Ok(())
}

/// Sets up an owner's profile: all counters zero, encryption on, created at `now`.
pub fn create_user(ctx: &mut CreateUser, now: i64) -> (result: Result<(), ErrorCode>)
    ensures
        result is Ok,
        final(ctx).user == User::spec_new(now),
        final(ctx).authority == old(ctx).authority,
{
    ctx.user = User::new(now);
    Ok(())
}

/// Neither sequence counter ever goes down: creating a record raises the
/// counter of its kind by one and removing a record leaves both as they are.
/// So the id of a new record is higher than every id issued before, also
/// those of records that were removed since.
pub proof fn lemma_sequences_never_decrease(user: User, max_size: u32)
    requires
        user.wf(),
    ensures
        user.folder_id < u32::MAX ==> user.with_folder_added().folder_id == user.folder_id + 1
            && user.with_folder_added().file_id == user.file_id,
        user.file_id < u32::MAX ==> user.with_file_added(max_size).file_id == user.file_id + 1
            && user.with_file_added(max_size).folder_id == user.folder_id,
        user.with_folder_removed().folder_id == user.folder_id,
        user.with_folder_removed().file_id == user.file_id,
        user.with_file_removed(max_size).folder_id == user.folder_id,
        user.with_file_removed(max_size).file_id == user.file_id,
{
}

/// A folder that is created and removed at once leaves the live count as it
/// was, and the sequence counter one higher.
pub proof fn lemma_folder_added_then_removed(user: User)
    requires
        user.wf(),
        user.folder_id < u32::MAX,
    ensures
        user.with_folder_added().wf(),
        user.with_folder_added().with_folder_removed().wf(),
        user.with_folder_added().with_folder_removed() == (User {
            folder_id: (user.folder_id + 1) as u32,
            ..user
        }),
{
}

/// A file that is created and removed at once leaves the space in use and the
/// live count exactly as they were, and the sequence counter one higher.
pub proof fn lemma_file_added_then_removed(user: User, max_size: u32)
    requires
        user.wf(),
        user.file_id < u32::MAX,
        user.space_used + max_size <= u32::MAX,
    ensures
        user.with_file_added(max_size).wf(),
        user.with_file_added(max_size).with_file_removed(max_size).wf(),
        user.with_file_added(max_size).with_file_removed(max_size) == (User {
            file_id: (user.file_id + 1) as u32,
            ..user
        }),
{
}

} // verus!
