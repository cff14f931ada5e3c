//! Packing a file's content into the tail of its record.
//!
//! The header fills a prefix of the record whose width does not depend on the
//! content. Content is written flush with the record's end, so that no write,
//! however long, reaches the header.

use vstd::prelude::*;
use crate::error::ErrorCode;
use crate::layout::FILE_HEADER_SIZE;

verus! {

/// Whether a record of `record_len` bytes has room for `content_len` bytes behind its header.
pub open spec fn content_fits(record_len: int, content_len: int) -> bool {
    record_len - content_len >= FILE_HEADER_SIZE as int
}

/// The record `data` with `content` written flush with its end.
pub open spec fn packed(data: Seq<u8>, content: Seq<u8>) -> Seq<u8> {
    data.subrange(0, data.len() - content.len()) + content
}

/// The last `len` bytes of `data`.
pub open spec fn tail(data: Seq<u8>, len: int) -> Seq<u8> {
    data.subrange(data.len() - len, data.len() as int)
}

/// Writes `content` into the tail of the record `data`.
///
/// Fails with `DataSizeExceeded`, and leaves the record as it was, when the
/// content would reach into the header. Otherwise the last `content.len()`
/// bytes of the record become the content and every byte before them stays.
pub fn copy_content(data: &mut Vec<u8>, content: &Vec<u8>) -> (result: Result<(), ErrorCode>)
    ensures
        result is Ok <==> content_fits(old(data)@.len() as int, content@.len() as int),
        result is Ok ==> final(data)@ == packed(old(data)@, content@),
        result is Err ==> result == Err::<(), ErrorCode>(ErrorCode::DataSizeExceeded)
            && *final(data) == *old(data),
{
    let total: usize = data.len();
    let len: usize = content.len();
    if len > total || total - len < FILE_HEADER_SIZE {
        return Err(ErrorCode::DataSizeExceeded);
    }
    let idx_start: usize = total - len;
    let mut i: usize = 0;
    while i < len
        invariant
            i <= len,
            len == content@.len(),
            total == old(data)@.len(),
            idx_start + len == total,
            data@.len() == total,
            data@ == old(data)@.subrange(0, idx_start as int) + content@.subrange(0, i as int)
                + old(data)@.subrange(idx_start + i, total as int),
        decreases len - i,
    {
        data.set(idx_start + i, content[i]);
        i = i + 1;
        assert(data@ =~= old(data)@.subrange(0, idx_start as int) + content@.subrange(0, i as int)
            + old(data)@.subrange(idx_start + i, total as int));
    }
    assert(data@ =~= packed(old(data)@, content@));
    Ok(())
}

/// Reads the last `size` bytes of the record `data`: the content, when `size`
/// is the length that was recorded for it. `None` when the record is shorter.
pub fn read_content(data: &Vec<u8>, size: u32) -> (content: Option<Vec<u8>>)
    ensures
        content is Some <==> size <= data@.len(),
        content is Some ==> content.unwrap()@ == tail(data@, size as int),
{
    let total: usize = data.len();
    if size as usize > total {
        return None;
    }
    let idx_start: usize = total - size as usize;
    let mut out: Vec<u8> = Vec::new();
    let mut i: usize = idx_start;
    while i < total
        invariant
            idx_start <= i <= total,
            total == data@.len(),
            out@ == data@.subrange(idx_start as int, i as int),
        decreases total - i,
    {
        out.push(data[i]);
        i = i + 1;
        assert(out@ =~= data@.subrange(idx_start as int, i as int));
    }
    Some(out)
}

/// What was written is what is read back, and the bytes before it are the
/// record's old ones: the header among them.
pub proof fn lemma_pack_then_read(data: Seq<u8>, content: Seq<u8>)
    requires
        content.len() <= data.len(),
    ensures
        packed(data, content).len() == data.len(),
        tail(packed(data, content), content.len() as int) == content,
        forall|i: int| 0 <= i < data.len() - content.len() ==> packed(data, content)[i] == data[i],
{
    assert(tail(packed(data, content), content.len() as int) =~= content);
}

} // verus!
