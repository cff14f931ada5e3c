//! Files: records that carry content in their tail.
//!
//! A file reserves its content capacity when it is created, and that capacity
//! never changes. Content may be replaced by any other that fits; a longer one
//! is refused, whatever the file held before.

use vstd::prelude::*;
use vstd::utf8::encode_utf8;
use crate::address::{same_key, Key};
use crate::content::{content_fits, copy_content, packed, read_content, tail};
use crate::error::ErrorCode;
use crate::folder::{bytes_view, too_long};
use crate::layout::{file_record_size, FILE_HEADER_SIZE};
use crate::user::User;

verus! {

/// Where a file's content is kept. The tag is recorded and nothing more.
#[derive(Clone, Copy, Debug, PartialEq, Eq, Structural)]
pub enum Backend {
    /// In the file's own record.
    Solana,
    /// In a store outside.
    Arweave,
}

/// Who may reach a file.
#[derive(Clone, Copy, Debug, PartialEq, Eq, Structural)]
pub enum Access {
    /// The owner alone.
    Private,
    /// Anyone may read.
    PublicRead,
    /// Anyone may read and write.
    PublicReadWrite,
}

/// A file record: the header's fields, and the record's bytes.
#[derive(Clone, Debug)]
pub struct File {
    /// The owner's key.
    pub owner: Key,
    /// The file's id: its owner's file sequence number at creation, from 1.
    pub id: u32,
    /// When the file was created, in seconds.
    pub created_at: i64,
    /// The id of the folder that holds the file; 0 is the root.
    pub parent: u32,
    /// The file's name, at most `NAME_MAX_LEN` bytes.
    pub name: Vec<u8>,
    /// The file's extension, at most `EXT_MAX_LEN` bytes.
    pub file_ext: String,
    /// The size that the caller reports for the file. It is stored as given.
    pub file_size: u64,
    /// Who may reach the file.
    pub access: Access,
    /// Where the content is kept.
    pub backend: Backend,
    /// How many bytes of content the record holds now.
    pub size: u32,
    /// How many bytes of content the record has room for.
    pub max_size: u32,
    /// The record's bytes: the header's region, then the content region, with
    /// the content at its end.
    pub data: Vec<u8>,
}

/// Content as text.
pub struct FileEncoder {
    pub content: String,
}

/// A file as a plain value.
pub ghost struct FileView {
    pub owner: Seq<u8>,
    pub id: u32,
    pub created_at: i64,
    pub parent: u32,
    pub name: Seq<u8>,
    pub file_ext: Seq<char>,
    pub file_size: u64,
    pub access: Access,
    pub backend: Backend,
    pub size: u32,
    pub max_size: u32,
    pub data: Seq<u8>,
}

impl View for File {
    type V = FileView;

    open spec fn view(&self) -> FileView {
        FileView {
            owner: self.owner@,
            id: self.id,
            created_at: self.created_at,
            parent: self.parent,
            name: self.name@,
            file_ext: self.file_ext@,
            file_size: self.file_size,
            access: self.access,
            backend: self.backend,
            size: self.size,
            max_size: self.max_size,
            data: self.data@,
        }
    }
}

/// What a call of `update_file` asks for: for each field the new value, or
/// `None` to leave the field as it is.
pub ghost struct FileChange {
    pub parent: Option<u32>,
    pub name: Option<Seq<u8>>,
    pub file_ext: Option<Seq<char>>,
    pub file_size: Option<u64>,
    pub access: Option<Access>,
    pub backend: Option<Backend>,
    pub content: Option<Seq<u8>>,
}

/// The stored value, or the new one where one is given.
pub open spec fn replaced<T>(stored: T, given: Option<T>) -> T {
    match given {
        Some(value) => value,
        None => stored,
    }
}

impl FileChange {
    /// A name or an extension is given that is longer than its bound.
    pub open spec fn string_too_long(self) -> bool {
        too_long(self.name, File::NAME_MAX_LEN as int) || (self.file_ext is Some && ext_len(
            self.file_ext.unwrap(),
        ) > File::EXT_MAX_LEN)
    }
}

impl FileView {
    /// The content: the last `size` bytes of the record.
    pub open spec fn content(self) -> Seq<u8> {
        tail(self.data, self.size as int)
    }

    /// The header's region: the record's bytes in front of the content region.
    pub open spec fn header_region(self) -> Seq<u8> {
        self.data.subrange(0, FILE_HEADER_SIZE as int)
    }

    /// How many bytes the header takes when it is stored: the tag, then the
    /// fields in their order, with name and extension behind a length prefix
    /// each.
    pub open spec fn stored_header_len(self) -> int {
        crate::layout::DISCRIMINATOR_LEN + crate::layout::KEY_LEN + 4 + 8 + 4 + (
        crate::layout::LEN_PREFIX + self.name.len()) + (crate::layout::LEN_PREFIX + ext_len(
            self.file_ext,
        )) + 8 + 1 + 1 + 4 + 4
    }

    /// The record is as long as its capacity asks for, the content is within
    /// the capacity, and name and extension are within their bounds.
    pub open spec fn wf(self) -> bool {
        &&& self.data.len() == file_record_size(self.max_size)
        &&& self.size <= self.max_size
        &&& self.name.len() <= File::NAME_MAX_LEN
        &&& ext_len(self.file_ext) <= File::EXT_MAX_LEN
    }

    /// New content fits into the record.
    pub open spec fn has_room_for(self, content: Option<Seq<u8>>) -> bool {
        content is Some ==> content_fits(self.data.len() as int, content.unwrap().len() as int)
    }

    /// The file after an update: a field that is given replaces the stored
    /// one, a field that is not given stays. New content is packed into the
    /// tail of the record and its length is recorded. Owner, id, time of
    /// creation and capacity never change.
    pub open spec fn updated(self, change: FileChange) -> FileView {
        FileView {
            parent: replaced(self.parent, change.parent),
            name: replaced(self.name, change.name),
            file_ext: replaced(self.file_ext, change.file_ext),
            file_size: replaced(self.file_size, change.file_size),
            access: replaced(self.access, change.access),
            backend: replaced(self.backend, change.backend),
            size: match change.content {
                Some(c) => c.len() as u32,
                None => self.size,
            },
            data: match change.content {
                Some(c) => packed(self.data, c),
                None => self.data,
            },
            ..self
        }
    }
}

/// The length of an extension in bytes, as it is stored.
pub open spec fn ext_len(ext: Seq<char>) -> nat {
    encode_utf8(ext).len()
}

/// The view of an optional string.
pub open spec fn text_view(text: &Option<String>) -> Option<Seq<char>> {
    match text {
        Some(t) => Some(t@),
        None => None,
    }
}

impl File {
    /// Longest name, in bytes.
    pub const NAME_MAX_LEN: usize = crate::layout::NAME_MAX_LEN;

    /// Longest extension, in bytes.
    pub const EXT_MAX_LEN: usize = crate::layout::EXT_MAX_LEN;

    /// See `FileView::wf`.
    pub open spec fn wf(&self) -> bool {
        self@.wf()
    }

    /// The capacity of a file record that reserves `byte_count` bytes of
    /// content: the header's width and the content's. A record is allocated
    /// with this capacity and keeps it.
    pub fn size(byte_count: u32) -> (bytes: usize)
        requires
            file_record_size(byte_count) <= usize::MAX,
        ensures
            bytes == file_record_size(byte_count),
    {
        FILE_HEADER_SIZE + byte_count as usize
    }

    /// A file record as it is allocated for `max_size` bytes of content: all
    /// bytes zero, and no field set.
    pub fn allocate(max_size: u32) -> (file: File)
        requires
            file_record_size(max_size) <= usize::MAX,
        ensures
            file@ == (FileView {
                owner: Seq::new(32, |i: int| 0u8),
                id: 0,
                created_at: 0,
                parent: 0,
                name: Seq::<u8>::empty(),
                file_ext: Seq::<char>::empty(),
                file_size: 0,
                access: Access::Private,
                backend: Backend::Solana,
                size: 0,
                max_size: 0,
                data: Seq::new(file_record_size(max_size) as nat, |i: int| 0u8),
            }),
    {
        let data: Vec<u8> = vec![0u8; File::size(max_size)];
        let file = File {
            owner: [0u8; 32],
            id: 0,
            created_at: 0,
            parent: 0,
            name: Vec::new(),
            file_ext: String::new(),
            file_size: 0,
            access: Access::Private,
            backend: Backend::Solana,
            size: 0,
            max_size: 0,
            data,
        };
        assert(file.owner@ =~= Seq::new(32, |i: int| 0u8));
        assert(file.data@ =~= Seq::new(file_record_size(max_size) as nat, |i: int| 0u8));
        file
    }

    /// Reads the file's content: the last `size` bytes of the record.
    pub fn content(&self) -> (content: Vec<u8>)
        requires
            self.size <= self.data@.len(),
        ensures
            content@ == self@.content(),
    {
        match read_content(&self.data, self.size) {
            Some(content) => content,
            None => Vec::new(),
        }
    }
}

/// What `create_file` works on.
pub struct CreateFile {
    /// The file record, freshly allocated for the capacity that is asked for.
    pub file: File,
    /// The profile of the caller.
    pub user: User,
    /// The caller, who becomes the file's owner.
    pub authority: Key,
}

/// What `update_file` works on.
pub struct UpdateFile {
    /// The file record.
    pub file: File,
    /// The caller.
    pub authority: Key,
}

/// What `remove_file` works on.
pub struct RemoveFile {
    /// The file record, which its holder gives up after the call.
    pub file: File,
    /// The profile of the caller.
    pub user: User,
    /// The caller.
    pub authority: Key,
}

/// Whether the record in hand is the caller's file with the id `id`.
pub open spec fn is_file_of(file: &File, authority: &Key, id: u32) -> bool {
    file.id == id && file.owner@ == authority@
}

/// Creates a file in a record that was allocated for `max_size` bytes of content.
///
/// Fails with `StringTooLong` when the name is longer than `NAME_MAX_LEN` or
/// the extension longer than `EXT_MAX_LEN`, else with `FileCountExceeded` when
/// the profile's file sequence cannot grow, else with `DataSizeExceeded` when
/// the content is longer than `max_size`. A failure changes nothing.
///
/// Otherwise the file gets the next id, the caller as owner and `now` as its
/// time of creation; the content is packed into the tail of the record, whose
/// other bytes stay; and the profile counts one file more and `max_size` bytes
/// more in use: the whole capacity, however short the content is.
pub fn create_file(
    ctx: &mut CreateFile,
    max_size: u32,
    parent: u32,
    name: Vec<u8>,
    file_ext: String,
    file_size: u64,
    access: Access,
    backend: Backend,
    content: Vec<u8>,
    now: i64,
) -> (result: Result<(), ErrorCode>)
    requires
        old(ctx).user.wf(),
        old(ctx).user.space_used + max_size <= u32::MAX,
        old(ctx).file.data@.len() == file_record_size(max_size),
    ensures
        result == if name@.len() > File::NAME_MAX_LEN || ext_len(file_ext@) > File::EXT_MAX_LEN {
            Err::<(), ErrorCode>(ErrorCode::StringTooLong)
        } else if old(ctx).user.file_id == u32::MAX {
            Err::<(), ErrorCode>(ErrorCode::FileCountExceeded)
        } else if content@.len() > max_size {
            Err::<(), ErrorCode>(ErrorCode::DataSizeExceeded)
        } else {
            Ok::<(), ErrorCode>(())
        },
        result is Err ==> *final(ctx) == *old(ctx),
        result is Ok ==> {
            &&& final(ctx).user == old(ctx).user.with_file_added(max_size)
            &&& final(ctx).user.wf()
            &&& final(ctx).authority == old(ctx).authority
            &&& final(ctx).file.wf()
            &&& final(ctx).file@.content() == content@
            &&& final(ctx).file@ == (FileView {
                owner: old(ctx).authority@,
                id: (old(ctx).user.file_id + 1) as u32,
                created_at: now,
                parent: parent,
                name: name@,
                file_ext: file_ext@,
                file_size: file_size,
                access: access,
                backend: backend,
                size: content@.len() as u32,
                max_size: max_size,
                data: packed(old(ctx).file.data@, content@),
            })
        },
{
    if name.len() > File::NAME_MAX_LEN || file_ext.as_str().as_bytes().len() > File::EXT_MAX_LEN {
        return Err(ErrorCode::StringTooLong);
    }
    let id = match ctx.user.peek_file_id() {
        Ok(id) => id,
        Err(e) => {
            return Err(e);
        },
    };
    match copy_content(&mut ctx.file.data, &content) {
        Ok(()) => {},
        Err(e) => {
            return Err(e);
        },
    }
    ctx.user.file_id = id;
    ctx.user.file_count = ctx.user.file_count + 1;
    ctx.user.add_space(max_size);
    ctx.file.owner = ctx.authority;
    ctx.file.id = id;
    ctx.file.created_at = now;
    ctx.file.size = content.len() as u32;
    ctx.file.max_size = max_size;
    ctx.file.parent = parent;
    ctx.file.name = name;
    ctx.file.file_ext = file_ext;
    ctx.file.file_size = file_size;
    ctx.file.access = access;
    ctx.file.backend = backend;
    proof {
        crate::content::lemma_pack_then_read(old(ctx).file.data@, content@);
    }
    Ok(())
}

/// Updates the caller's file with the id `id`.
///
/// Fails with `NotFound` when the record in hand is not that file, else with
/// `StringTooLong` when a name or an extension is given that is longer than
/// its bound, else with `DataSizeExceeded` when content is given that is
/// longer than the capacity that the file reserved when it was created. A
/// failure changes nothing: the file keeps its content and its length.
///
/// Otherwise each field that is given replaces the stored one, and each field
/// that is not given stays. Content that is given is packed into the tail of
/// the record; bytes of longer content from before stay in front of it, out of
/// reach. The capacity never changes.
pub fn update_file(
    ctx: &mut UpdateFile,
    id: u32,
    parent: Option<u32>,
    name: Option<Vec<u8>>,
    file_ext: Option<String>,
    file_size: Option<u64>,
    access: Option<Access>,
    backend: Option<Backend>,
    content: Option<Vec<u8>>,
) -> (result: Result<(), ErrorCode>)
    requires
        old(ctx).file.wf(),
    ensures
        ({
            let change = FileChange {
                parent: parent,
                name: bytes_view(&name),
                file_ext: text_view(&file_ext),
                file_size: file_size,
                access: access,
                backend: backend,
                content: bytes_view(&content),
            };
            &&& result == if !is_file_of(&old(ctx).file, &old(ctx).authority, id) {
                Err::<(), ErrorCode>(ErrorCode::NotFound)
            } else if change.string_too_long() {
                Err::<(), ErrorCode>(ErrorCode::StringTooLong)
            } else if !old(ctx).file@.has_room_for(change.content) {
                Err::<(), ErrorCode>(ErrorCode::DataSizeExceeded)
            } else {
                Ok::<(), ErrorCode>(())
            }
            &&& result is Ok ==> final(ctx).file@ == old(ctx).file@.updated(change)
        }),
        result is Err ==> *final(ctx) == *old(ctx),
        result is Ok ==> final(ctx).authority == old(ctx).authority && final(ctx).file.wf(),
{
    if ctx.file.id != id || !same_key(&ctx.file.owner, &ctx.authority) {
        return Err(ErrorCode::NotFound);
    }
    if let Some(n) = &name {
        if n.len() > File::NAME_MAX_LEN {
            return Err(ErrorCode::StringTooLong);
        }
    }
    if let Some(e) = &file_ext {
        if e.as_str().as_bytes().len() > File::EXT_MAX_LEN {
            return Err(ErrorCode::StringTooLong);
        }
    }
    if let Some(c) = &content {
        match copy_content(&mut ctx.file.data, c) {
            Ok(()) => {},
            Err(e) => {
                return Err(e);
            },
        }
        ctx.file.size = c.len() as u32;
    }
    if let Some(p) = parent {
        ctx.file.parent = p;
    }
    if let Some(n) = name {
        ctx.file.name = n;
    }
    if let Some(e) = file_ext {
        ctx.file.file_ext = e;
    }
    if let Some(s) = file_size {
        ctx.file.file_size = s;
    }
    if let Some(a) = access {
        ctx.file.access = a;
    }
    if let Some(b) = backend {
        ctx.file.backend = b;
    }
    Ok(())
}

/// Removes the caller's file with the id `id`.
///
/// Fails with `NotFound`, and changes nothing, when the record in hand is not
/// that file. Otherwise the profile counts one file less, and the capacity
/// that the file had reserved is no longer in use: the capacity of the
/// record, not the length of the content. The sequence counter stays, so the
/// id is not given out again.
pub fn remove_file(ctx: &mut RemoveFile, id: u32) -> (result: Result<(), ErrorCode>)
    requires
        old(ctx).file.wf(),
        old(ctx).user.file_count > 0,
        old(ctx).user.space_used >= old(ctx).file.max_size,
    ensures
        result == if is_file_of(&old(ctx).file, &old(ctx).authority, id) {
            Ok::<(), ErrorCode>(())
        } else {
            Err::<(), ErrorCode>(ErrorCode::NotFound)
        },
        result is Err ==> *final(ctx) == *old(ctx),
        result is Ok ==> *final(ctx) == (RemoveFile {
            user: old(ctx).user.with_file_removed(old(ctx).file.max_size),
            ..*old(ctx)
        }),
{
    if ctx.file.id != id || !same_key(&ctx.file.owner, &ctx.authority) {
        return Err(ErrorCode::NotFound);
    }
    ctx.user.file_count = ctx.user.file_count - 1;
    let max_size: usize = ctx.file.data.len() - File::size(0);
    ctx.user.release_space(max_size as u32);
    Ok(())
}

/// A record holds exactly the content that its capacity was declared for:
/// content fits into a record for `max_size` bytes if and only if it is no
/// longer than `max_size`.
pub proof fn lemma_capacity_holds_content(max_size: u32, content_len: nat)
    ensures
        content_fits(file_record_size(max_size), content_len as int) <==> content_len <= max_size,
{
}

/// The header as it is stored, with the slack behind it, ends where the
/// content region begins, whatever a name and an extension within their
/// bounds hold.
pub proof fn lemma_header_fits(file: FileView)
    requires
        file.wf(),
    ensures
        file.stored_header_len() + crate::layout::PADDING <= FILE_HEADER_SIZE,
        file.data.len() - file.size >= FILE_HEADER_SIZE,
{
}

/// An update that gives the access alone changes the access alone: name,
/// parent, content and every other field stay.
pub proof fn lemma_update_access_only(file: FileView, access: Access)
    ensures
        file.updated(
            FileChange {
                parent: None,
                name: None,
                file_ext: None,
                file_size: None,
                access: Some(access),
                backend: None,
                content: None,
            },
        ) == (FileView { access: access, ..file }),
        (FileView { access: access, ..file }).content() == file.content(),
{
}

/// An update that gives nothing changes nothing.
pub proof fn lemma_update_nothing(file: FileView)
    ensures
        file.updated(
            FileChange {
                parent: None,
                name: None,
                file_ext: None,
                file_size: None,
                access: None,
                backend: None,
                content: None,
            },
        ) == file,
{
}

/// Content that fits is read back as it was written, whatever the file held
/// before; the header's region and the capacity stay as they were, and the
/// file stays sound.
pub proof fn lemma_update_content(file: FileView, change: FileChange)
    requires
        file.wf(),
        !change.string_too_long(),
        change.content is Some,
        file.has_room_for(change.content),
    ensures
        file.updated(change).content() == change.content.unwrap(),
        file.updated(change).size == change.content.unwrap().len(),
        file.updated(change).header_region() == file.header_region(),
        file.updated(change).max_size == file.max_size,
        file.updated(change).wf(),
{
    let content = change.content.unwrap();
    crate::content::lemma_pack_then_read(file.data, content);
    assert(file.updated(change).header_region() =~= file.header_region());
}

} // verus!
