//! Byte capacities of the three record kinds.
//!
//! A record's capacity is fixed when it is created. Each capacity is the sum of
//! the widths of the record's fields as they are stored, a tag of eight bytes
//! in front of them, and a slack of spare bytes kept for fields to come.

use vstd::prelude::*;

verus! {

/// Width of the tag that starts every record.
pub const DISCRIMINATOR_LEN: usize = 8;

/// Width of an owner's key.
pub const KEY_LEN: usize = 32;

/// Width of the length prefix of a stored byte string.
pub const LEN_PREFIX: usize = 4;

/// Spare bytes at the end of every header.
pub const PADDING: usize = 48;

/// Longest folder or file name, in bytes.
pub const NAME_MAX_LEN: usize = 64;

/// Longest file extension, in bytes.
pub const EXT_MAX_LEN: usize = 4;

/// Capacity of an owner's profile record.
pub const USER_SIZE: usize = DISCRIMINATOR_LEN + 8 + 4 + 4 + 4 + 4 + 4 + 1 + PADDING;

/// Capacity of a folder record.
pub const FOLDER_SIZE: usize = DISCRIMINATOR_LEN + KEY_LEN + 4 + 8 + 4 + LEN_PREFIX + 4
    * NAME_MAX_LEN + PADDING;

/// Capacity of a file record's header: all of the record but its content region.
pub const FILE_HEADER_SIZE: usize = DISCRIMINATOR_LEN + KEY_LEN + 4 + 8 + 4 + LEN_PREFIX
    + NAME_MAX_LEN + LEN_PREFIX + EXT_MAX_LEN + 8 + 1 + 1 + 4 + 4 + PADDING;

/// Capacity of a file record that reserves `byte_count` bytes of content.
pub open spec fn file_record_size(byte_count: u32) -> int {
    FILE_HEADER_SIZE as int + byte_count as int
}

/// The three capacities as plain numbers.
pub proof fn lemma_record_sizes()
    ensures
        USER_SIZE == 85,
        FOLDER_SIZE == 364,
        FILE_HEADER_SIZE == 198,
        forall|n: u32| file_record_size(n) == 198 + n,
{
}

} // verus!
