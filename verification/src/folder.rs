//! Folders: records that give the hierarchy its shape.
//!
//! A folder names its parent by id. Nothing checks that the parent exists, so
//! a folder may outlive its parent, and removing a folder removes nothing else.

use vstd::prelude::*;
use crate::address::{same_key, Key};
use crate::error::ErrorCode;
use crate::user::User;

verus! {

/// A folder record.
#[derive(Clone, Debug)]
pub struct Folder {
    /// The owner's key.
    pub owner: Key,
    /// The folder's id: its owner's folder sequence number at creation, from 1.
    pub id: u32,
    /// When the folder was created, in seconds.
    pub created_at: i64,
    /// The id of the folder that holds this one; 0 is the root.
    pub parent: u32,
    /// The folder's name, at most `NAME_MAX_LEN` bytes.
    pub name: Vec<u8>,
}

/// A folder as a plain value.
pub ghost struct FolderView {
    pub owner: Seq<u8>,
    pub id: u32,
    pub created_at: i64,
    pub parent: u32,
    pub name: Seq<u8>,
}

impl View for Folder {
    type V = FolderView;

    open spec fn view(&self) -> FolderView {
        FolderView {
            owner: self.owner@,
            id: self.id,
            created_at: self.created_at,
            parent: self.parent,
            name: self.name@,
        }
    }
}

impl FolderView {
    /// How many bytes the folder takes when it is stored: the tag, then the
    /// fields in their order, with the name behind a length prefix.
    pub open spec fn stored_len(self) -> int {
        crate::layout::DISCRIMINATOR_LEN + crate::layout::KEY_LEN + 4 + 8 + 4 + (
        crate::layout::LEN_PREFIX + self.name.len())
    }

    /// The folder after an update: a field that is given replaces the stored
    /// one, a field that is not given stays.
    pub open spec fn updated(self, parent: Option<u32>, name: Option<Seq<u8>>) -> FolderView {
        FolderView {
            parent: match parent {
                Some(p) => p,
                None => self.parent,
            },
            name: match name {
                Some(n) => n,
                None => self.name,
            },
            ..self
        }
    }
}

impl Folder {
    /// Longest name, in bytes.
    pub const NAME_MAX_LEN: usize = crate::layout::NAME_MAX_LEN;

    /// Capacity of a folder record.
    pub const SIZE: usize = crate::layout::FOLDER_SIZE;

    /// The name is within its bound.
    pub open spec fn wf(&self) -> bool {
        self.name@.len() <= Folder::NAME_MAX_LEN
    }

    /// A folder record as it is allocated: no owner, no id, no name.
    pub fn blank() -> (folder: Folder)
        ensures
            folder@ == (FolderView {
                owner: Seq::new(32, |i: int| 0u8),
                id: 0,
                created_at: 0,
                parent: 0,
                name: Seq::<u8>::empty(),
            }),
            folder.wf(),
    {
        let folder = Folder { owner: [0u8; 32], id: 0, created_at: 0, parent: 0, name: Vec::new() };
        assert(folder.owner@ =~= Seq::new(32, |i: int| 0u8));
        folder
    }
}

/// Whether an optional name is given and longer than `bound`.
pub open spec fn too_long(name: Option<Seq<u8>>, bound: int) -> bool {
    name is Some && name.unwrap().len() > bound
}

/// The view of an optional byte string.
pub open spec fn bytes_view(bytes: &Option<Vec<u8>>) -> Option<Seq<u8>> {
    match bytes {
        Some(b) => Some(b@),
        None => None,
    }
}

/// What `create_folder` works on.
pub struct CreateFolder {
    /// The folder record, freshly allocated.
    pub folder: Folder,
    /// The profile of the caller.
    pub user: User,
    /// The caller, who becomes the folder's owner.
    pub authority: Key,
}

/// What `update_folder` works on.
pub struct UpdateFolder {
    /// The folder record.
    pub folder: Folder,
    /// The caller.
    pub authority: Key,
}

/// What `remove_folder` works on.
pub struct RemoveFolder {
    /// The folder record, which its holder gives up after the call.
    pub folder: Folder,
    /// The profile of the caller.
    pub user: User,
    /// The caller.
    pub authority: Key,
}

/// Creates a folder named `name` under the folder `parent`.
///
/// Fails with `StringTooLong` when the name is longer than `NAME_MAX_LEN`, else
/// with `FolderCountExceeded` when the profile's folder sequence cannot grow.
/// A failure changes nothing. Otherwise the folder gets the next id, the
/// caller as owner and `now` as its time of creation, and the profile counts
/// one folder more.
pub fn create_folder(ctx: &mut CreateFolder, parent: u32, name: Vec<u8>, now: i64) -> (result:
    Result<(), ErrorCode>)
    requires
        old(ctx).user.wf(),
    ensures
        result == if name@.len() > Folder::NAME_MAX_LEN {
            Err::<(), ErrorCode>(ErrorCode::StringTooLong)
        } else if old(ctx).user.folder_id == u32::MAX {
            Err::<(), ErrorCode>(ErrorCode::FolderCountExceeded)
        } else {
            Ok::<(), ErrorCode>(())
        },
        result is Err ==> *final(ctx) == *old(ctx),
        result is Ok ==> {
            &&& final(ctx).user == old(ctx).user.with_folder_added()
            &&& final(ctx).user.wf()
            &&& final(ctx).authority == old(ctx).authority
            &&& final(ctx).folder.wf()
            &&& final(ctx).folder@ == (FolderView {
                owner: old(ctx).authority@,
                id: (old(ctx).user.folder_id + 1) as u32,
                created_at: now,
                parent: parent,
                name: name@,
            })
        },
{
    if name.len() > Folder::NAME_MAX_LEN {
        return Err(ErrorCode::StringTooLong);
    }
    let id = match ctx.user.next_folder_id() {
        Ok(id) => id,
        Err(e) => {
            return Err(e);
        },
    };
    ctx.user.folder_count = ctx.user.folder_count + 1;
    ctx.folder.owner = ctx.authority;
    ctx.folder.id = id;
    ctx.folder.created_at = now;
    ctx.folder.name = name;
    ctx.folder.parent = parent;
    Ok(())
}

/// Whether the record in hand is the caller's folder with the id `id`.
pub open spec fn is_folder_of(folder: &Folder, authority: &Key, id: u32) -> bool {
    folder.id == id && folder.owner@ == authority@
}

/// Updates the caller's folder with the id `id`.
///
/// Fails with `NotFound` when the record in hand is not that folder, else with
/// `StringTooLong` when a name is given that is longer than `NAME_MAX_LEN`. A
/// failure changes nothing. Otherwise each field that is given replaces the
/// stored one, and each field that is not given stays.
pub fn update_folder(
    ctx: &mut UpdateFolder,
    id: u32,
    parent: Option<u32>,
    name: Option<Vec<u8>>,
) -> (result: Result<(), ErrorCode>)
    ensures
        result == if !is_folder_of(&old(ctx).folder, &old(ctx).authority, id) {
            Err::<(), ErrorCode>(ErrorCode::NotFound)
        } else if too_long(bytes_view(&name), Folder::NAME_MAX_LEN as int) {
            Err::<(), ErrorCode>(ErrorCode::StringTooLong)
        } else {
            Ok::<(), ErrorCode>(())
        },
        result is Err ==> *final(ctx) == *old(ctx),
        result is Ok ==> {
            &&& final(ctx).authority == old(ctx).authority
            &&& final(ctx).folder@ == old(ctx).folder@.updated(parent, bytes_view(&name))
            &&& old(ctx).folder.wf() ==> final(ctx).folder.wf()
        },
{
    if ctx.folder.id != id || !same_key(&ctx.folder.owner, &ctx.authority) {
        return Err(ErrorCode::NotFound);
    }
    if let Some(n) = &name {
        if n.len() > Folder::NAME_MAX_LEN {
            return Err(ErrorCode::StringTooLong);
        }
    }
    if let Some(p) = parent {
        ctx.folder.parent = p;
    }
    if let Some(n) = name {
        ctx.folder.name = n;
    }
    Ok(())
}

/// Removes the caller's folder with the id `id`.
///
/// Fails with `NotFound`, and changes nothing, when the record in hand is not
/// that folder. Otherwise the profile counts one folder less; the sequence
/// counter stays, so the id is not given out again. Folders and files that
/// name this folder as their parent are left as they are.
pub fn remove_folder(ctx: &mut RemoveFolder, id: u32) -> (result: Result<(), ErrorCode>)
    requires
        old(ctx).user.folder_count > 0,
    ensures
        result == if is_folder_of(&old(ctx).folder, &old(ctx).authority, id) {
            Ok::<(), ErrorCode>(())
        } else {
            Err::<(), ErrorCode>(ErrorCode::NotFound)
        },
        result is Err ==> *final(ctx) == *old(ctx),
        result is Ok ==> *final(ctx) == (RemoveFolder {
            user: old(ctx).user.with_folder_removed(),
            ..*old(ctx)
        }),
{
    if ctx.folder.id != id || !same_key(&ctx.folder.owner, &ctx.authority) {
        return Err(ErrorCode::NotFound);
    }
    ctx.user.folder_count = ctx.user.folder_count - 1;
    Ok(())
}

/// A folder with a name within its bound fits into a folder record, with the
/// slack to spare.
pub proof fn lemma_folder_fits(folder: FolderView)
    requires
        folder.name.len() <= Folder::NAME_MAX_LEN,
    ensures
        folder.stored_len() + crate::layout::PADDING <= Folder::SIZE,
{
}

/// An update that gives the parent alone changes the parent alone, and one
/// that gives nothing changes nothing.
pub proof fn lemma_update_parent_only(folder: FolderView, parent: u32)
    ensures
        folder.updated(Some(parent), None) == (FolderView { parent: parent, ..folder }),
        folder.updated(None, None) == folder,
{
}

} // verus!
