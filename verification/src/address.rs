//! Where a record is stored: an address computed from the owner's key, the
//! record's kind and its sequence number.
//!
//! The address is a hash over the seeds of the record, one after the other, and
//! the key of the program that owns the records. This module builds the seeds
//! and proves that no two records share them; the hash itself is computed by
//! `anchor_lang`.

use vstd::prelude::*;
use vstd::bytes::{lemma_auto_spec_u32_to_from_le_bytes, spec_u32_to_le_bytes, u32_to_le_bytes};
use anchor_lang::prelude::Pubkey;

verus! {

/// A key of 32 bytes: an owner, a program, or the address of a record.
pub type Key = [u8; 32];

/// The three kinds of record.
#[derive(Clone, Copy, Debug, PartialEq, Eq, Structural)]
pub enum RecordKind {
    /// An owner's profile. There is one per owner, so it has no sequence number.
    User,
    /// A folder.
    Folder,
    /// A file.
    File,
}

/// Whether two keys hold the same bytes.
pub fn same_key(a: &Key, b: &Key) -> (same: bool)
    ensures
        same <==> a@ == b@,
{
    let mut i: usize = 0;
    while i < 32
        invariant
            i <= 32,
            a@.subrange(0, i as int) == b@.subrange(0, i as int),
        decreases 32 - i,
    {
        if a[i] != b[i] {
            assert(a@.subrange(0, i + 1)[i as int] != b@.subrange(0, i + 1)[i as int]);
            return false;
        }
        i = i + 1;
        assert(a@.subrange(0, i as int) =~= a@.subrange(0, i - 1).push(a@[i - 1]));
        assert(b@.subrange(0, i as int) =~= b@.subrange(0, i - 1).push(b@[i - 1]));
    }
    assert(a@ =~= a@.subrange(0, 32));
    assert(b@ =~= b@.subrange(0, 32));
    true
}

/// The bytes that name a kind in an address: its name in ASCII.
pub open spec fn kind_tag(kind: RecordKind) -> Seq<u8> {
    match kind {
        RecordKind::User => seq![0x75u8, 0x73u8, 0x65u8, 0x72u8],
        RecordKind::Folder => seq![0x66u8, 0x6fu8, 0x6cu8, 0x64u8, 0x65u8, 0x72u8],
        RecordKind::File => seq![0x66u8, 0x69u8, 0x6cu8, 0x65u8],
    }
}

/// The seeds of a record: the kind's tag, the owner's key and, for a folder or
/// a file, the sequence number as four bytes, lowest first. A profile's seeds
/// do not depend on `seq`.
pub open spec fn record_seeds(owner: Seq<u8>, kind: RecordKind, seq: u32) -> Seq<Seq<u8>> {
    match kind {
        RecordKind::User => seq![kind_tag(kind), owner],
        _ => seq![kind_tag(kind), owner, spec_u32_to_le_bytes(seq)],
    }
}

/// All seeds joined into one byte string, which is what the hash runs over.
pub open spec fn seed_bytes(owner: Seq<u8>, kind: RecordKind, seq: u32) -> Seq<u8> {
    match kind {
        RecordKind::User => kind_tag(kind) + owner,
        _ => kind_tag(kind) + owner + spec_u32_to_le_bytes(seq),
    }
}

/// A list of seeds as the byte strings that it holds.
pub open spec fn seeds_view(seeds: &Vec<Vec<u8>>) -> Seq<Seq<u8>> {
    seeds@.map_values(|seed: Vec<u8>| seed@)
}

/// The address and the bump seed that `anchor_lang` finds for a list of seeds
/// under a program's key, or `None` where it finds none.
pub uninterp spec fn program_address(seeds: Seq<Seq<u8>>, program: Seq<u8>) -> Option<
    (Seq<u8>, u8),
>;

/// What was found, as a plain value.
pub open spec fn found_view(found: Option<(Key, u8)>) -> Option<(Seq<u8>, u8)> {
    match found {
        Some((address, bump)) => Some((address@, bump)),
        None => None,
    }
}

/// Calls `Pubkey::try_find_program_address` of `anchor_lang`.
///
/// The call hashes the seeds, one more seed of a single byte, the program's
/// key and a fixed marker, and tries that byte from 255 downwards until the
/// hash is no point of the curve. It gives `None` where no byte does, or where
/// the seeds are too many or too long. Its result depends on the seeds and the
/// program's key alone, and is named `program_address` here; nothing else is
/// claimed of it.
#[verifier::external_body]
fn try_find_program_address(seeds: &Vec<Vec<u8>>, program: &Key) -> (found: Option<(Key, u8)>)
    ensures
        found_view(found) == program_address(seeds_view(seeds), program@),
{
    let parts: Vec<&[u8]> = seeds.iter().map(Vec::as_slice).collect();
    let program_id = Pubkey::new_from_array(*program);
    match Pubkey::try_find_program_address(&parts, &program_id) {
        Some((address, bump)) => Some((address.to_bytes(), bump)),
        None => None,
    }
}

/// Builds the seeds of a record.
pub fn seeds_of(owner: &Key, kind: RecordKind, seq: u32) -> (seeds: Vec<Vec<u8>>)
    ensures
        seeds_view(&seeds) == record_seeds(owner@, kind, seq),
{
    let tag: Vec<u8> = match kind {
        RecordKind::User => vec![0x75u8, 0x73u8, 0x65u8, 0x72u8],
        RecordKind::Folder => vec![0x66u8, 0x6fu8, 0x6cu8, 0x64u8, 0x65u8, 0x72u8],
        RecordKind::File => vec![0x66u8, 0x69u8, 0x6cu8, 0x65u8],
    };
    assert(tag@ =~= kind_tag(kind));
    let mut key: Vec<u8> = Vec::new();
    let mut i: usize = 0;
    while i < 32
        invariant
            i <= 32,
            key@ == owner@.subrange(0, i as int),
        decreases 32 - i,
    {
        key.push(owner[i]);
        i = i + 1;
        assert(key@ =~= owner@.subrange(0, i as int));
    }
    assert(key@ =~= owner@);
    let mut seeds: Vec<Vec<u8>> = Vec::new();
    seeds.push(tag);
    seeds.push(key);
    match kind {
        RecordKind::User => {},
        _ => {
            seeds.push(u32_to_le_bytes(seq));
        },
    }
    assert(seeds_view(&seeds) =~= record_seeds(owner@, kind, seq));
    seeds
}

/// Computes the address of a record, and the bump seed that goes with it.
///
/// The result is what `anchor_lang` finds for the record's seeds under
/// `program`. It is `None` only where no bump seed gives an address.
pub fn derive_address(owner: &Key, kind: RecordKind, seq: u32, program: &Key) -> (found: Option<
    (Key, u8),
>)
    ensures
        found_view(found) == program_address(record_seeds(owner@, kind, seq), program@),
{
    let seeds = seeds_of(owner, kind, seq);
    try_find_program_address(&seeds, program)
}

/// The seeds of a record, joined, are the record's seed bytes.
pub proof fn lemma_seeds_join(owner: Seq<u8>, kind: RecordKind, seq: u32)
    ensures
        record_seeds(owner, kind, seq).flatten() == seed_bytes(owner, kind, seq),
{
    let seeds = record_seeds(owner, kind, seq);
    let tag = kind_tag(kind);
    let number = spec_u32_to_le_bytes(seq);
    match kind {
        RecordKind::User => {
            assert(seeds =~= seq![tag].push(owner));
            seq![tag].lemma_flatten_push(owner);
            Seq::<Seq<u8>>::empty().lemma_flatten_push(tag);
            assert(seq![tag] =~= Seq::<Seq<u8>>::empty().push(tag));
            assert(Seq::<Seq<u8>>::empty().flatten() =~= Seq::<u8>::empty());
            assert(seeds.flatten() =~= tag + owner);
        },
        _ => {
            assert(seeds =~= seq![tag, owner].push(number));
            seq![tag, owner].lemma_flatten_push(number);
            assert(seq![tag, owner] =~= seq![tag].push(owner));
            seq![tag].lemma_flatten_push(owner);
            Seq::<Seq<u8>>::empty().lemma_flatten_push(tag);
            assert(seq![tag] =~= Seq::<Seq<u8>>::empty().push(tag));
            assert(Seq::<Seq<u8>>::empty().flatten() =~= Seq::<u8>::empty());
            assert(seeds.flatten() =~= tag + owner + number);
        },
    }
}

/// No two records share their seed bytes: two records whose seeds join to the
/// same bytes have the same owner and the same kind, and, unless they are
/// profiles, the same sequence number.
pub proof fn lemma_seed_bytes_injective(
    owner1: Seq<u8>,
    kind1: RecordKind,
    seq1: u32,
    owner2: Seq<u8>,
    kind2: RecordKind,
    seq2: u32,
)
    requires
        owner1.len() == 32,
        owner2.len() == 32,
        seed_bytes(owner1, kind1, seq1) == seed_bytes(owner2, kind2, seq2),
    ensures
        owner1 == owner2,
        kind1 == kind2,
        kind1 != RecordKind::User ==> seq1 == seq2,
{
    lemma_auto_spec_u32_to_from_le_bytes();
    let b1 = seed_bytes(owner1, kind1, seq1);
    let b2 = seed_bytes(owner2, kind2, seq2);
    let t1 = kind_tag(kind1).len() as int;
    let t2 = kind_tag(kind2).len() as int;
    let n1 = spec_u32_to_le_bytes(seq1);
    let n2 = spec_u32_to_le_bytes(seq2);
    assert(b1.len() == b2.len());
    assert(kind1 == kind2);
    assert(owner1 =~= b1.subrange(t1, t1 + 32));
    assert(owner2 =~= b2.subrange(t2, t2 + 32));
    if kind1 != RecordKind::User {
        assert(n1 =~= b1.subrange(t1 + 32, t1 + 36));
        assert(n2 =~= b2.subrange(t2 + 32, t2 + 36));
    }
}

} // verus!
