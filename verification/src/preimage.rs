//! The keys of the preimage store and the entries written under them.

use vstd::prelude::*;

use crate::bytes::B256;

verus! {

/// What kind of preimage a key stands for.
#[derive(Clone, Copy, Debug, PartialEq, Eq, Structural)]
pub enum PreimageKeyType {
    /// The preimage of a Keccak-256 digest.
    Keccak256,
    /// The preimage of a SHA2-256 digest.
    Sha256,
    /// A field element of a blob, or the blob's KZG proof.
    Blob,
    /// The result of a precompile call.
    Precompile,
}

impl PreimageKeyType {
    /// The byte that opens a key of this type.
    pub open spec fn tag_byte(self) -> u8 {
        match self {
            PreimageKeyType::Keccak256 => 2,
            PreimageKeyType::Sha256 => 4,
            PreimageKeyType::Blob => 5,
            PreimageKeyType::Precompile => 6,
        }
    }

    /// The byte that opens a key of this type.
    pub fn tag(self) -> (byte: u8)
        ensures
            byte == self.tag_byte(),
    {
        match self {
            PreimageKeyType::Keccak256 => 2,
            PreimageKeyType::Sha256 => 4,
            PreimageKeyType::Blob => 5,
            PreimageKeyType::Precompile => 6,
        }
    }
}

/// The key of type `key_type` for `hash`: the type's byte in place of the hash's first byte.
pub open spec fn preimage_key(key_type: PreimageKeyType, hash: Seq<u8>) -> Seq<u8> {
    seq![key_type.tag_byte()] + hash.subrange(1, 32)
}

/// The key under which the preimage of the Keccak-256 digest `hash` is stored.
pub open spec fn keccak_key(hash: Seq<u8>) -> Seq<u8> {
    preimage_key(PreimageKeyType::Keccak256, hash)
}

/// A typed key of the preimage store: the type, and a hash without its first byte.
#[derive(Clone, Copy, Debug)]
pub struct PreimageKey {
    data: [u8; 31],
    key_type: PreimageKeyType,
}

impl View for PreimageKey {
    type V = Seq<u8>;

    closed spec fn view(&self) -> Seq<u8> {
        seq![self.key_type.tag_byte()] + self.data@
    }
}

impl PreimageKey {
    /// The key of type `key_type` for the hash `key`.
    pub fn new(key: B256, key_type: PreimageKeyType) -> (made: PreimageKey)
        ensures
            made@ == preimage_key(key_type, key@),
    {
        let mut data: [u8; 31] = [0u8; 31];
        let mut i: usize = 0;
        while i < 31
            invariant
                i <= 31,
                forall|j: int| 0 <= j < i ==> data@[j] == key@[j + 1],
            decreases 31 - i,
        {
            data[i] = key[i + 1];
            i = i + 1;
        }
        assert(data@ =~= key@.subrange(1, 32));
        PreimageKey { data, key_type }
    }

    /// The key for the preimage of the Keccak-256 digest `key`.
    pub fn new_keccak256(key: B256) -> (made: PreimageKey)
        ensures
            made@ == keccak_key(key@),
    {
        PreimageKey::new(key, PreimageKeyType::Keccak256)
    }

    /// The key as the store takes it.
    pub fn to_b256(&self) -> (word: B256)
        ensures
            word@ == self@,
    {
        let mut word: B256 = [0u8; 32];
        word[0] = self.key_type.tag();
        let mut i: usize = 0;
        while i < 31
            invariant
                i <= 31,
                word@[0] == self.key_type.tag_byte(),
                forall|j: int| 0 <= j < i ==> word@[j + 1] == self.data@[j],
            decreases 31 - i,
        {
            word[i + 1] = self.data[i];
            i = i + 1;
        }
        assert forall|j: int| 0 <= j < 32 implies word@[j] == self@[j] by {
            if j > 0 {
                assert(word@[(j - 1) + 1] == self.data@[j - 1]);
            }
        }
        assert(word@ =~= self@);
        word
    }
}

/// One entry to set in the preimage store.
#[derive(Debug)]
pub struct KvWrite {
    /// The key, as the store takes it.
    pub key: B256,
    /// The bytes to store.
    pub value: Vec<u8>,
}

impl View for KvWrite {
    type V = (Seq<u8>, Seq<u8>);

    open spec fn view(&self) -> (Seq<u8>, Seq<u8>) {
        (self.key@, self.value@)
    }
}

/// The keys and values of a list of writes, in order.
pub open spec fn write_views(writes: Seq<KvWrite>) -> Seq<(Seq<u8>, Seq<u8>)> {
    writes.map_values(|write: KvWrite| write@)
}

impl KvWrite {
    /// The write that sets `value` under `key`.
    pub fn new(key: PreimageKey, value: Vec<u8>) -> (write: KvWrite)
        ensures
            write@ == (key@, value@),
    {
        KvWrite { key: key.to_b256(), value }
    }
}

/// The store after `writes` have been set in order, the last write to a key winning.
pub open spec fn apply_writes(
    store: Map<Seq<u8>, Seq<u8>>,
    writes: Seq<(Seq<u8>, Seq<u8>)>,
) -> Map<Seq<u8>, Seq<u8>>
    decreases writes.len(),
{
    if writes.len() == 0 {
        store
    } else {
        apply_writes(store, writes.drop_last()).insert(writes.last().0, writes.last().1)
    }
}

/// A key is 32 bytes: the byte of its type, then the hash without its first byte.
pub proof fn law_key_layout(hash: Seq<u8>)
    ensures
        preimage_key(PreimageKeyType::Keccak256, hash) == seq![2u8] + hash.subrange(1, 32),
        preimage_key(PreimageKeyType::Sha256, hash) == seq![4u8] + hash.subrange(1, 32),
        preimage_key(PreimageKeyType::Blob, hash) == seq![5u8] + hash.subrange(1, 32),
        preimage_key(PreimageKeyType::Precompile, hash) == seq![6u8] + hash.subrange(1, 32),
        keccak_key(hash) == seq![2u8] + hash.subrange(1, 32),
        hash.len() == 32 ==> keccak_key(hash).len() == 32,
        PreimageKeyType::Keccak256.tag_byte() == 2,
        PreimageKeyType::Sha256.tag_byte() == 4,
        PreimageKeyType::Blob.tag_byte() == 5,
        PreimageKeyType::Precompile.tag_byte() == 6,
{
}

/// The view of a list of writes shows the key and the value of each, in order.
pub proof fn law_write_views_show_keys_and_values(writes: Seq<KvWrite>, i: int)
    requires
        0 <= i < writes.len(),
    ensures
        write_views(writes).len() == writes.len(),
        write_views(writes)[i] == (writes[i].key@, writes[i].value@),
{
}

/// Writes are set one after another: none leaves the store alone, and one more is an insertion.
pub proof fn law_writes_are_insertions(
    store: Map<Seq<u8>, Seq<u8>>,
    writes: Seq<(Seq<u8>, Seq<u8>)>,
    key: Seq<u8>,
    value: Seq<u8>,
)
    ensures
        apply_writes(store, Seq::empty()) == store,
        apply_writes(store, writes.push((key, value))) == apply_writes(store, writes).insert(
            key,
            value,
        ),
{
    assert(writes.push((key, value)).drop_last() =~= writes);
}

} // verus!
