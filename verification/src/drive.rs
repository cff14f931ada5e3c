//! An owner's drive: the profile, the live folders and the live files of one
//! owner, kept together and kept consistent.
//!
//! Every operation either takes effect as a whole or is refused and changes
//! nothing. After every operation the profile's counts are the numbers of
//! live records, the space in use is the capacity of all live files together,
//! and no id is held twice.

use vstd::prelude::*;
use crate::address::Key;
use crate::error::ErrorCode;
use crate::file::{
    create_file, ext_len, remove_file, text_view, update_file, Access, Backend, CreateFile, File,
    FileChange, FileView, RemoveFile, UpdateFile,
};
use crate::folder::{
    bytes_view, create_folder, remove_folder, too_long, update_folder, CreateFolder, Folder,
    FolderView, RemoveFolder, UpdateFolder,
};
use crate::layout::file_record_size;
use crate::user::User;

verus! {

/// The records of one owner.
pub struct Drive {
    /// The owner's key.
    pub owner: Key,
    /// The owner's profile, once it is created.
    pub user: Option<User>,
    /// The live folders, in the order of their creation.
    pub folders: Vec<Folder>,
    /// The live files, in the order of their creation.
    pub files: Vec<File>,
}

/// A drive as a plain value.
pub ghost struct DriveView {
    pub owner: Seq<u8>,
    pub user: Option<User>,
    pub folders: Seq<FolderView>,
    pub files: Seq<FileView>,
}

/// The content capacity that the files reserve together.
pub open spec fn reserved(files: Seq<FileView>) -> int
    decreases files.len(),
{
    if files.len() == 0 {
        0
    } else {
        reserved(files.drop_last()) + files.last().max_size
    }
}

impl View for Drive {
    type V = DriveView;

    open spec fn view(&self) -> DriveView {
        DriveView {
            owner: self.owner@,
            user: self.user,
            folders: self.folders@.map_values(|f: Folder| f@),
            files: self.files@.map_values(|f: File| f@),
        }
    }
}

impl DriveView {
    /// A live folder has the id `id`.
    pub open spec fn has_folder(self, id: u32) -> bool {
        exists|i: int| 0 <= i < self.folders.len() && self.folders[i].id == id
    }

    /// A live file has the id `id`.
    pub open spec fn has_file(self, id: u32) -> bool {
        exists|i: int| 0 <= i < self.files.len() && self.files[i].id == id
    }

    /// Where the live folder with the id `id` stands.
    pub open spec fn folder_index(self, id: u32) -> int {
        choose|i: int| 0 <= i < self.folders.len() && self.folders[i].id == id
    }

    /// Where the live file with the id `id` stands.
    pub open spec fn file_index(self, id: u32) -> int {
        choose|i: int| 0 <= i < self.files.len() && self.files[i].id == id
    }

    /// The folder sequence counter; 0 while there is no profile.
    pub open spec fn folder_seq(self) -> int {
        match self.user {
            Some(user) => user.folder_id as int,
            None => 0,
        }
    }

    /// The file sequence counter; 0 while there is no profile.
    pub open spec fn file_seq(self) -> int {
        match self.user {
            Some(user) => user.file_id as int,
            None => 0,
        }
    }

    /// The space in use; 0 while there is no profile.
    pub open spec fn space_used(self) -> int {
        match self.user {
            Some(user) => user.space_used as int,
            None => 0,
        }
    }

    /// The drive is consistent: the counts are the numbers of live records,
    /// the space in use is the capacity of all live files together, every
    /// record is the owner's and sound in itself, every id was issued by the
    /// sequence counter of its kind, and no id is held twice.
    pub open spec fn wf(self) -> bool {
        &&& self.owner.len() == 32
        &&& self.user is None ==> self.folders.len() == 0 && self.files.len() == 0
        &&& self.user is Some ==> {
            &&& self.user.unwrap().wf()
            &&& self.user.unwrap().folder_count == self.folders.len()
            &&& self.user.unwrap().file_count == self.files.len()
            &&& self.user.unwrap().space_used == reserved(self.files)
        }
        &&& forall|i: int|
            0 <= i < self.folders.len() ==> {
                &&& (#[trigger] self.folders[i]).owner == self.owner
                &&& 1 <= self.folders[i].id <= self.folder_seq()
                &&& self.folders[i].name.len() <= Folder::NAME_MAX_LEN
            }
        &&& forall|i: int|
            0 <= i < self.files.len() ==> {
                &&& (#[trigger] self.files[i]).owner == self.owner
                &&& 1 <= self.files[i].id <= self.file_seq()
                &&& self.files[i].wf()
            }
        &&& forall|i: int, j: int|
            0 <= i < j < self.folders.len() ==> (#[trigger] self.folders[i]).id != (
            #[trigger] self.folders[j]).id
        &&& forall|i: int, j: int|
            0 <= i < j < self.files.len() ==> (#[trigger] self.files[i]).id != (
            #[trigger] self.files[j]).id
    }
}

/// One more file reserves its capacity on top of the others'.
pub proof fn lemma_reserved_push(files: Seq<FileView>, file: FileView)
    ensures
        reserved(files.push(file)) == reserved(files) + file.max_size,
{
    assert(files.push(file).drop_last() =~= files);
}

/// No file reserves more than all files together.
pub proof fn lemma_reserved_bounds(files: Seq<FileView>, i: int)
    requires
        0 <= i < files.len(),
    ensures
        0 <= files[i].max_size <= reserved(files),
    decreases files.len(),
{
    lemma_reserved_nonnegative(files.drop_last());
    if i < files.len() - 1 {
        lemma_reserved_bounds(files.drop_last(), i);
    }
}

/// The capacity that files reserve together is never negative.
pub proof fn lemma_reserved_nonnegative(files: Seq<FileView>)
    ensures
        reserved(files) >= 0,
    decreases files.len(),
{
    if files.len() > 0 {
        lemma_reserved_nonnegative(files.drop_last());
    }
}

/// A file that leaves takes its capacity with it, and no other.
pub proof fn lemma_reserved_remove(files: Seq<FileView>, i: int)
    requires
        0 <= i < files.len(),
    ensures
        reserved(files.remove(i)) == reserved(files) - files[i].max_size,
    decreases files.len(),
{
    if i == files.len() - 1 {
        assert(files.remove(i) =~= files.drop_last());
    } else {
        lemma_reserved_remove(files.drop_last(), i);
        assert(files.remove(i).drop_last() =~= files.drop_last().remove(i));
        assert(files.remove(i).last() == files.last());
    }
}

/// A file that changes while it keeps its capacity leaves the sum as it was.
pub proof fn lemma_reserved_update(files: Seq<FileView>, i: int, file: FileView)
    requires
        0 <= i < files.len(),
        file.max_size == files[i].max_size,
    ensures
        reserved(files.update(i, file)) == reserved(files),
    decreases files.len(),
{
    if i == files.len() - 1 {
        assert(files.update(i, file).drop_last() =~= files.drop_last());
    } else {
        lemma_reserved_update(files.drop_last(), i, file);
        assert(files.update(i, file).drop_last() =~= files.drop_last().update(i, file));
    }
}

impl Drive {
    /// See `DriveView::wf`.
    pub open spec fn wf(&self) -> bool {
        self@.wf()
    }

    /// The drive of an owner who has no profile yet.
    pub fn new(owner: Key) -> (drive: Drive)
        ensures
            drive.wf(),
            drive@ == (DriveView {
                owner: owner@,
                user: None,
                folders: Seq::<FolderView>::empty(),
                files: Seq::<FileView>::empty(),
            }),
    {
        let drive = Drive { owner, user: None, folders: Vec::new(), files: Vec::new() };
        assert(drive@.folders =~= Seq::<FolderView>::empty());
        assert(drive@.files =~= Seq::<FileView>::empty());
        drive
    }

    /// Looks for the live folder with the id `id`.
    pub fn find_folder(&self, id: u32) -> (found: Option<usize>)
        ensures
            found is Some <==> self@.has_folder(id),
            found is Some ==> found.unwrap() < self.folders@.len() && self.folders@[found.unwrap() as int].id
                == id,
            found is Some && self.wf() ==> found.unwrap() == self@.folder_index(id),
    {
        let mut i: usize = 0;
        while i < self.folders.len()
            invariant
                i <= self.folders@.len(),
                forall|j: int| 0 <= j < i ==> self@.folders[j].id != id,
            decreases self.folders@.len() - i,
        {
            if self.folders[i].id == id {
                proof {
                    assert(self@.folders[i as int].id == id);
                    let k = self@.folder_index(id);
                    assert(self@.folders[k].id == id);
                }
                return Some(i);
            }
            i = i + 1;
        }
        None
    }

    /// Looks for the live file with the id `id`.
    pub fn find_file(&self, id: u32) -> (found: Option<usize>)
        ensures
            found is Some <==> self@.has_file(id),
            found is Some ==> found.unwrap() < self.files@.len() && self.files@[found.unwrap() as int].id
                == id,
            found is Some && self.wf() ==> found.unwrap() == self@.file_index(id),
    {
        let mut i: usize = 0;
        while i < self.files.len()
            invariant
                i <= self.files@.len(),
                forall|j: int| 0 <= j < i ==> self@.files[j].id != id,
            decreases self.files@.len() - i,
        {
            if self.files[i].id == id {
                proof {
                    assert(self@.files[i as int].id == id);
                    let k = self@.file_index(id);
                    assert(self@.files[k].id == id);
                }
                return Some(i);
            }
            i = i + 1;
        }
        None
    }

    /// Creates the owner's profile. Fails with `AlreadyExists`, and changes
    /// nothing, when the owner has one.
    pub fn create_user(&mut self, now: i64) -> (result: Result<(), ErrorCode>)
        requires
            old(self).wf(),
        ensures
            final(self).wf(),
            result == if old(self).user is Some {
                Err::<(), ErrorCode>(ErrorCode::AlreadyExists)
            } else {
                Ok::<(), ErrorCode>(())
            },
            result is Err ==> *final(self) == *old(self),
            result is Ok ==> final(self)@ == (DriveView {
                user: Some(User::spec_new(now)),
                ..old(self)@
            }),
    {
        if self.user.is_some() {
            return Err(ErrorCode::AlreadyExists);
        }
        self.user = Some(User::new(now));
        Ok(())
    }
}

impl Drive {
    /// Creates a folder named `name` under the folder `parent`, and returns its id.
    ///
    /// Fails with `NotFound` when the owner has no profile, else with
    /// `StringTooLong` when the name is longer than `NAME_MAX_LEN`, else with
    /// `FolderCountExceeded` when the folder sequence cannot grow. A failure
    /// changes nothing. Otherwise the new folder stands last among the live
    /// folders, with an id that is higher than any that was issued before.
    pub fn create_folder(&mut self, parent: u32, name: Vec<u8>, now: i64) -> (result: Result<
        u32,
        ErrorCode,
    >)
        requires
            old(self).wf(),
        ensures
            final(self).wf(),
            result == if old(self).user is None {
                Err::<u32, ErrorCode>(ErrorCode::NotFound)
            } else if name@.len() > Folder::NAME_MAX_LEN {
                Err::<u32, ErrorCode>(ErrorCode::StringTooLong)
            } else if old(self)@.folder_seq() == u32::MAX {
                Err::<u32, ErrorCode>(ErrorCode::FolderCountExceeded)
            } else {
                Ok::<u32, ErrorCode>((old(self)@.folder_seq() + 1) as u32)
            },
            result is Err ==> *final(self) == *old(self),
            result is Ok ==> final(self)@ == (DriveView {
                user: Some(old(self).user.unwrap().with_folder_added()),
                folders: old(self)@.folders.push(
                    FolderView {
                        owner: old(self).owner@,
                        id: (old(self)@.folder_seq() + 1) as u32,
                        created_at: now,
                        parent: parent,
                        name: name@,
                    },
                ),
                ..old(self)@
            }),
            result is Ok ==> !old(self)@.has_folder(result.unwrap()),
    {
        let user = match self.user {
            Some(user) => user,
            None => {
                return Err(ErrorCode::NotFound);
            },
        };
        let mut ctx = CreateFolder { folder: Folder::blank(), user, authority: self.owner };
        match create_folder(&mut ctx, parent, name, now) {
            Ok(()) => {},
            Err(e) => {
                return Err(e);
            },
        }
        let id = ctx.folder.id;
        self.user = Some(ctx.user);
        self.folders.push(ctx.folder);
        proof {
            assert(self@.folders =~= old(self)@.folders.push(ctx.folder@));
        }
        Ok(id)
    }

    /// Updates the live folder with the id `id`.
    ///
    /// Fails with `NotFound` when no live folder has that id, else with
    /// `StringTooLong` when a name is given that is longer than
    /// `NAME_MAX_LEN`. A failure changes nothing. Otherwise each field that is
    /// given replaces the stored one, each field that is not given stays, and
    /// so does every other record.
    pub fn update_folder(&mut self, id: u32, parent: Option<u32>, name: Option<Vec<u8>>) -> (result:
        Result<(), ErrorCode>)
        requires
            old(self).wf(),
        ensures
            final(self).wf(),
            result == if !old(self)@.has_folder(id) {
                Err::<(), ErrorCode>(ErrorCode::NotFound)
            } else if too_long(bytes_view(&name), Folder::NAME_MAX_LEN as int) {
                Err::<(), ErrorCode>(ErrorCode::StringTooLong)
            } else {
                Ok::<(), ErrorCode>(())
            },
            result is Err ==> final(self)@ == old(self)@,
            result is Ok ==> final(self)@ == (DriveView {
                folders: old(self)@.folders.update(
                    old(self)@.folder_index(id),
                    old(self)@.folders[old(self)@.folder_index(id)].updated(
                        parent,
                        bytes_view(&name),
                    ),
                ),
                ..old(self)@
            }),
    {
        let i = match self.find_folder(id) {
            Some(i) => i,
            None => {
                return Err(ErrorCode::NotFound);
            },
        };
        assert(self@.folders[i as int] == self.folders@[i as int]@);
        let folder = self.folders.remove(i);
        let mut ctx = UpdateFolder { folder, authority: self.owner };
        let result = update_folder(&mut ctx, id, parent, name);
        let ghost after = ctx.folder@;
        self.folders.insert(i, ctx.folder);
        proof {
            assert(self@.folders =~= old(self)@.folders.update(i as int, after));
            assert(self@.files =~= old(self)@.files);
            if result is Err {
                assert(self@.folders =~= old(self)@.folders);
            }
        }
        result
    }

    /// Removes the live folder with the id `id`.
    ///
    /// Fails with `NotFound`, and changes nothing, when no live folder has
    /// that id. Otherwise the folder is no longer live and the profile counts
    /// one folder less. The sequence counter stays, and so does every other
    /// record: also those that name the folder as their parent.
    pub fn remove_folder(&mut self, id: u32) -> (result: Result<(), ErrorCode>)
        requires
            old(self).wf(),
        ensures
            final(self).wf(),
            result == if old(self)@.has_folder(id) {
                Ok::<(), ErrorCode>(())
            } else {
                Err::<(), ErrorCode>(ErrorCode::NotFound)
            },
            result is Err ==> final(self)@ == old(self)@,
            result is Ok ==> final(self)@ == (DriveView {
                user: Some(old(self).user.unwrap().with_folder_removed()),
                folders: old(self)@.folders.remove(old(self)@.folder_index(id)),
                ..old(self)@
            }),
            result is Ok ==> !final(self)@.has_folder(id),
    {
        let i = match self.find_folder(id) {
            Some(i) => i,
            None => {
                return Err(ErrorCode::NotFound);
            },
        };
        let user = match self.user {
            Some(user) => user,
            None => {
                return Err(ErrorCode::NotFound);
            },
        };
        assert(self@.folders[i as int] == self.folders@[i as int]@);
        let folder = self.folders.remove(i);
        let mut ctx = RemoveFolder { folder, user, authority: self.owner };
        match remove_folder(&mut ctx, id) {
            Ok(()) => {
                self.user = Some(ctx.user);
                proof {
                    assert(self@.folders =~= old(self)@.folders.remove(i as int));
                    assert(self@.files =~= old(self)@.files);
                }
                Ok(())
            },
            Err(e) => {
                self.folders.insert(i, ctx.folder);
                proof {
                    assert(self@.folders =~= old(self)@.folders);
                    assert(self@.files =~= old(self)@.files);
                }
                Err(e)
            },
        }
    }
}

impl Drive {
    /// Creates a file that reserves `max_size` bytes of content, and returns its id.
    ///
    /// Fails with `NotFound` when the owner has no profile, else with
    /// `StringTooLong` when the name is longer than `NAME_MAX_LEN` or the
    /// extension longer than `EXT_MAX_LEN`, else with `FileCountExceeded` when
    /// the file sequence cannot grow, else with `DataSizeExceeded` when the
    /// content is longer than `max_size`. A failure changes nothing.
    ///
    /// Otherwise the new file stands last among the live files, in a record
    /// of zeroes with the content packed into its tail, with an id that is
    /// higher than any that was issued before; and `max_size` bytes more are
    /// in use.
    pub fn create_file(
        &mut self,
        max_size: u32,
        parent: u32,
        name: Vec<u8>,
        file_ext: String,
        file_size: u64,
        access: Access,
        backend: Backend,
        content: Vec<u8>,
        now: i64,
    ) -> (result: Result<u32, ErrorCode>)
        requires
            old(self).wf(),
            old(self)@.space_used() + max_size <= u32::MAX,
            file_record_size(max_size) <= usize::MAX,
        ensures
            final(self).wf(),
            result == if old(self).user is None {
                Err::<u32, ErrorCode>(ErrorCode::NotFound)
            } else if name@.len() > File::NAME_MAX_LEN || ext_len(file_ext@) > File::EXT_MAX_LEN {
                Err::<u32, ErrorCode>(ErrorCode::StringTooLong)
            } else if old(self)@.file_seq() == u32::MAX {
                Err::<u32, ErrorCode>(ErrorCode::FileCountExceeded)
            } else if content@.len() > max_size {
                Err::<u32, ErrorCode>(ErrorCode::DataSizeExceeded)
            } else {
                Ok::<u32, ErrorCode>((old(self)@.file_seq() + 1) as u32)
            },
            result is Err ==> *final(self) == *old(self),
            result is Ok ==> final(self)@ == (DriveView {
                user: Some(old(self).user.unwrap().with_file_added(max_size)),
                files: old(self)@.files.push(
                    FileView {
                        owner: old(self).owner@,
                        id: (old(self)@.file_seq() + 1) as u32,
                        created_at: now,
                        parent: parent,
                        name: name@,
                        file_ext: file_ext@,
                        file_size: file_size,
                        access: access,
                        backend: backend,
                        size: content@.len() as u32,
                        max_size: max_size,
                        data: Seq::new((file_record_size(max_size) - content@.len()) as nat, |i: int| 0u8)
                            + content@,
                    },
                ),
                ..old(self)@
            }),
            result is Ok ==> !old(self)@.has_file(result.unwrap()),
            result is Ok ==> final(self)@.files.last().content() == content@,
    {
        let user = match self.user {
            Some(user) => user,
            None => {
                return Err(ErrorCode::NotFound);
            },
        };
        let mut ctx = CreateFile { file: File::allocate(max_size), user, authority: self.owner };
        let ghost blank = ctx.file.data@;
        match create_file(
            &mut ctx,
            max_size,
            parent,
            name,
            file_ext,
            file_size,
            access,
            backend,
            content,
            now,
        ) {
            Ok(()) => {},
            Err(e) => {
                return Err(e);
            },
        }
        let id = ctx.file.id;
        self.user = Some(ctx.user);
        self.files.push(ctx.file);
        proof {
            assert(ctx.file@.data =~= Seq::new(
                (file_record_size(max_size) - content@.len()) as nat,
                |i: int| 0u8,
            ) + content@);
            assert(self@.files =~= old(self)@.files.push(ctx.file@));
            lemma_reserved_push(old(self)@.files, ctx.file@);
        }
        Ok(id)
    }

    /// Updates the live file with the id `id`.
    ///
    /// Fails with `NotFound` when no live file has that id, else with
    /// `StringTooLong` when a name or an extension is given that is longer
    /// than its bound, else with `DataSizeExceeded` when content is given that
    /// is longer than the capacity that the file reserved when it was
    /// created. A failure changes nothing. Otherwise each field that is given
    /// replaces the stored one, each field that is not given stays, and so
    /// does every other record and the space in use.
    pub fn update_file(
        &mut self,
        id: u32,
        parent: Option<u32>,
        name: Option<Vec<u8>>,
        file_ext: Option<String>,
        file_size: Option<u64>,
        access: Option<Access>,
        backend: Option<Backend>,
        content: Option<Vec<u8>>,
    ) -> (result: Result<(), ErrorCode>)
        requires
            old(self).wf(),
        ensures
            final(self).wf(),
            ({
                let change = FileChange {
                    parent: parent,
                    name: bytes_view(&name),
                    file_ext: text_view(&file_ext),
                    file_size: file_size,
                    access: access,
                    backend: backend,
                    content: bytes_view(&content),
                };
                let i = old(self)@.file_index(id);
                &&& result == if !old(self)@.has_file(id) {
                    Err::<(), ErrorCode>(ErrorCode::NotFound)
                } else if change.string_too_long() {
                    Err::<(), ErrorCode>(ErrorCode::StringTooLong)
                } else if !old(self)@.files[i].has_room_for(change.content) {
                    Err::<(), ErrorCode>(ErrorCode::DataSizeExceeded)
                } else {
                    Ok::<(), ErrorCode>(())
                }
                &&& result is Ok ==> final(self)@ == (DriveView {
                    files: old(self)@.files.update(i, old(self)@.files[i].updated(change)),
                    ..old(self)@
                })
            }),
            result is Err ==> final(self)@ == old(self)@,
    {
        let i = match self.find_file(id) {
            Some(i) => i,
            None => {
                return Err(ErrorCode::NotFound);
            },
        };
        assert(self@.files[i as int] == self.files@[i as int]@);
        let file = self.files.remove(i);
        let mut ctx = UpdateFile { file, authority: self.owner };
        let result = update_file(
            &mut ctx,
            id,
            parent,
            name,
            file_ext,
            file_size,
            access,
            backend,
            content,
        );
        let ghost after = ctx.file@;
        self.files.insert(i, ctx.file);
        proof {
            assert(self@.files =~= old(self)@.files.update(i as int, after));
            assert(self@.folders =~= old(self)@.folders);
            if result is Err {
                assert(self@.files =~= old(self)@.files);
            } else {
                lemma_reserved_update(old(self)@.files, i as int, after);
            }
        }
        result
    }

    /// Removes the live file with the id `id`.
    ///
    /// Fails with `NotFound`, and changes nothing, when no live file has that
    /// id. Otherwise the file is no longer live, the profile counts one file
    /// less, and the capacity that the file had reserved is no longer in
    /// use. The sequence counter stays, and so does every other record.
    pub fn remove_file(&mut self, id: u32) -> (result: Result<(), ErrorCode>)
        requires
            old(self).wf(),
        ensures
            final(self).wf(),
            result == if old(self)@.has_file(id) {
                Ok::<(), ErrorCode>(())
            } else {
                Err::<(), ErrorCode>(ErrorCode::NotFound)
            },
            result is Err ==> final(self)@ == old(self)@,
            result is Ok ==> final(self)@ == (DriveView {
                user: Some(
                    old(self).user.unwrap().with_file_removed(
                        old(self)@.files[old(self)@.file_index(id)].max_size,
                    ),
                ),
                files: old(self)@.files.remove(old(self)@.file_index(id)),
                ..old(self)@
            }),
            result is Ok ==> !final(self)@.has_file(id),
    {
        let i = match self.find_file(id) {
            Some(i) => i,
            None => {
                return Err(ErrorCode::NotFound);
            },
        };
        let user = match self.user {
            Some(user) => user,
            None => {
                return Err(ErrorCode::NotFound);
            },
        };
        proof {
            assert(self@.files[i as int] == self.files@[i as int]@);
            lemma_reserved_bounds(self@.files, i as int);
            lemma_reserved_remove(self@.files, i as int);
        }
        let file = self.files.remove(i);
        let mut ctx = RemoveFile { file, user, authority: self.owner };
        match remove_file(&mut ctx, id) {
            Ok(()) => {
                self.user = Some(ctx.user);
                proof {
                    assert(self@.files =~= old(self)@.files.remove(i as int));
                    assert(self@.folders =~= old(self)@.folders);
                }
                Ok(())
            },
            Err(e) => {
                self.files.insert(i, ctx.file);
                proof {
                    assert(self@.files =~= old(self)@.files);
                    assert(self@.folders =~= old(self)@.folders);
                }
                Err(e)
            },
        }
    }

    /// Reads the content of the live file with the id `id`. Fails with
    /// `NotFound` when no live file has that id.
    pub fn read_file(&self, id: u32) -> (result: Result<Vec<u8>, ErrorCode>)
        requires
            self.wf(),
        ensures
            result is Ok <==> self@.has_file(id),
            result is Ok ==> result.unwrap()@ == self@.files[self@.file_index(id)].content(),
            result is Err ==> result.unwrap_err() == ErrorCode::NotFound,
    {
        match self.find_file(id) {
            Some(i) => {
                assert(self@.files[i as int] == self.files@[i as int]@);
                Ok(self.files[i].content())
            },
            None => Err(ErrorCode::NotFound),
        }
    }
}

} // verus!
