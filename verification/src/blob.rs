//! How a blob is laid out in the preimage store.

use vstd::prelude::*;

use crate::bytes::{
    be_bytes, be_value, copy_range, law_be_bytes_of_be_value, law_be_value_of_be_bytes,
    lemma_be_bytes_len, pow256, write_be_u64, B256,
};
use crate::outside::{big_int_to_bytes_be, keccak256, keccak256_digest, limbs_value};
use crate::preimage::{
    keccak_key, preimage_key, write_views, KvWrite, PreimageKey, PreimageKeyType,
};

verus! {

/// How many field elements a blob holds.
pub const FIELD_ELEMENTS_PER_BLOB: u64 = 4096;

/// How many bytes a blob holds.
pub const BYTES_PER_BLOB: usize = 131072;

/// A blob with its KZG commitment and proof.
#[derive(Debug)]
pub struct BlobWithCommitmentAndProof {
    blob: Vec<u8>,
    kzg_proof: [u8; 48],
    kzg_commitment: [u8; 48],
}

/// A [`BlobWithCommitmentAndProof`] as sequences of bytes.
pub struct BlobView {
    pub blob: Seq<u8>,
    pub proof: Seq<u8>,
    pub commitment: Seq<u8>,
}

impl View for BlobWithCommitmentAndProof {
    type V = BlobView;

    closed spec fn view(&self) -> BlobView {
        BlobView {
            blob: self.blob@,
            proof: self.kzg_proof@,
            commitment: self.kzg_commitment@,
        }
    }
}

impl BlobWithCommitmentAndProof {
    #[verifier::type_invariant]
    spec fn full(self) -> bool {
        self.blob@.len() == BYTES_PER_BLOB
    }

    /// Puts a blob together; `None` if `blob` does not have the size of a blob.
    pub fn new(blob: Vec<u8>, kzg_proof: [u8; 48], kzg_commitment: [u8; 48]) -> (made: Option<
        BlobWithCommitmentAndProof,
    >)
        ensures
            made is Some <==> blob@.len() == BYTES_PER_BLOB,
            made matches Some(b) ==> b@ == (BlobView {
                blob: blob@,
                proof: kzg_proof@,
                commitment: kzg_commitment@,
            }),
    {
        if blob.len() == BYTES_PER_BLOB {
            Some(BlobWithCommitmentAndProof { blob, kzg_proof, kzg_commitment })
        } else {
            None
        }
    }
}

/// The roots of unity at which a blob's field elements are the values of its polynomial, in
/// the order of the elements; each as the four little-endian limbs of its canonical integer.
#[derive(Debug)]
pub struct RootsOfUnity {
    limbs: Vec<[u64; 4]>,
}

impl View for RootsOfUnity {
    type V = Seq<Seq<u64>>;

    closed spec fn view(&self) -> Seq<Seq<u64>> {
        self.limbs@.map_values(|root: [u64; 4]| root@)
    }
}

impl RootsOfUnity {
    #[verifier::type_invariant]
    spec fn one_per_element(self) -> bool {
        self.limbs@.len() == FIELD_ELEMENTS_PER_BLOB
    }

    /// The table of these roots; `None` if there is not one for each field element.
    pub fn new(limbs: Vec<[u64; 4]>) -> (made: Option<RootsOfUnity>)
        ensures
            made is Some <==> limbs@.len() == FIELD_ELEMENTS_PER_BLOB,
            made matches Some(roots) ==> roots@ == limbs@.map_values(|root: [u64; 4]| root@),
    {
        if limbs.len() == 4096 {
            Some(RootsOfUnity { limbs })
        } else {
            None
        }
    }
}

/// A root of unity as 32 big-endian bytes.
pub open spec fn root_bytes(limbs: Seq<u64>) -> Seq<u8> {
    be_bytes(limbs_value(limbs), 32)
}

/// The 80 bytes that identify slot `i` of a blob. A slot below 4096 is a field element: the
/// commitment and the element's root of unity. Slot 4096 is the proof: it has no root of its
/// own, and its number stands in the last eight bytes over those of the last root.
pub open spec fn slot_key(commitment: Seq<u8>, roots: Seq<Seq<u64>>, i: int) -> Seq<u8> {
    if i < FIELD_ELEMENTS_PER_BLOB {
        commitment + root_bytes(roots[i])
    } else {
        commitment + root_bytes(roots[FIELD_ELEMENTS_PER_BLOB - 1]).subrange(0, 24) + be_bytes(
            FIELD_ELEMENTS_PER_BLOB as nat,
            8,
        )
    }
}

/// What slot `i` of a blob holds: a field element, or the proof.
pub open spec fn slot_value(blob: BlobView, i: int) -> Seq<u8> {
    if i < FIELD_ELEMENTS_PER_BLOB {
        blob.blob.subrange(32 * i, 32 * i + 32)
    } else {
        blob.proof
    }
}

/// The two writes for a slot: its key as the preimage of the key's digest, and what it holds.
pub open spec fn slot_writes_spec(digest: Seq<u8>, key: Seq<u8>, value: Seq<u8>) -> Seq<
    (Seq<u8>, Seq<u8>),
> {
    seq![(keccak_key(digest), key), (preimage_key(PreimageKeyType::Blob, digest), value)]
}

/// Write number `j` of a blob: first the commitment, then two for each slot in order.
pub open spec fn blob_write(hash: Seq<u8>, blob: BlobView, roots: Seq<Seq<u64>>, j: int) -> (
    Seq<u8>,
    Seq<u8>,
) {
    if j == 0 {
        (preimage_key(PreimageKeyType::Sha256, hash), blob.commitment)
    } else {
        let i = (j - 1) / 2;
        let key = slot_key(blob.commitment, roots, i);
        slot_writes_spec(keccak256_digest(key), key, slot_value(blob, i))[(j - 1) % 2]
    }
}

/// All writes of a blob whose versioned hash is `hash`.
pub open spec fn blob_writes_spec(hash: Seq<u8>, blob: BlobView, roots: Seq<Seq<u64>>) -> Seq<
    (Seq<u8>, Seq<u8>),
> {
    Seq::new(
        (2 * FIELD_ELEMENTS_PER_BLOB + 3) as nat,
        |j: int| blob_write(hash, blob, roots, j),
    )
}

/// The two writes for the slot with this key, whose digest is `digest`.
pub fn slot_writes(digest: B256, key: Vec<u8>, value: Vec<u8>) -> (writes: (KvWrite, KvWrite))
    ensures
        seq![writes.0@, writes.1@] == slot_writes_spec(digest@, key@, value@),
{
    (
        KvWrite::new(PreimageKey::new_keccak256(digest), key),
        KvWrite::new(PreimageKey::new(digest, PreimageKeyType::Blob), value),
    )
}

/// The key of slot `i`.
fn make_slot_key(blob: &BlobWithCommitmentAndProof, roots: &RootsOfUnity, i: usize) -> (key:
    Vec<u8>)
    requires
        i <= FIELD_ELEMENTS_PER_BLOB,
    ensures
        key@ == slot_key(blob@.commitment, roots@, i as int),
{
    proof {
        use_type_invariant(blob);
        use_type_invariant(roots);
    }
    let mut key: Vec<u8> = copy_range(blob.kzg_commitment.as_slice(), 0, 48);
    assert(key@ =~= blob@.commitment);
    if i < 4096 {
        let mut root = big_int_to_bytes_be(&roots.limbs[i]);
        key.append(&mut root);
    } else {
        let root = big_int_to_bytes_be(&roots.limbs[4095]);
        proof {
            lemma_be_bytes_len(limbs_value(roots@[4095]), 32);
        }
        let mut kept = copy_range(root.as_slice(), 0, 24);
        let mut number = write_be_u64(FIELD_ELEMENTS_PER_BLOB, 8);
        key.append(&mut kept);
        key.append(&mut number);
    }
    key
}

/// What slot `i` holds.
fn make_slot_value(blob: &BlobWithCommitmentAndProof, i: usize) -> (value: Vec<u8>)
    requires
        i <= FIELD_ELEMENTS_PER_BLOB,
    ensures
        value@ == slot_value(blob@, i as int),
{
    proof {
        use_type_invariant(blob);
    }
    if i < 4096 {
        copy_range(blob.blob.as_slice(), 32 * i, 32 * i + 32)
    } else {
        let value = copy_range(blob.kzg_proof.as_slice(), 0, 48);
        assert(value@ =~= blob@.proof);
        value
    }
}

/// The writes that put the blob with the versioned hash `hash` into the store: the commitment,
/// all field elements, and the proof after them.
pub fn blob_writes(hash: B256, blob: &BlobWithCommitmentAndProof, roots: &RootsOfUnity) -> (writes:
    Vec<KvWrite>)
    ensures
        write_views(writes@) == blob_writes_spec(hash@, blob@, roots@),
{
    let commitment = copy_range(blob.kzg_commitment.as_slice(), 0, 48);
    assert(commitment@ =~= blob@.commitment);
    let mut writes: Vec<KvWrite> = Vec::new();
    writes.push(KvWrite::new(PreimageKey::new(hash, PreimageKeyType::Sha256), commitment));
    let mut i: usize = 0;
    while i <= 4096
        invariant
            i <= 4097,
            writes@.len() == 2 * i + 1,
            forall|j: int|
                0 <= j < writes@.len() ==> (#[trigger] writes@[j])@ == blob_write(
                    hash@,
                    blob@,
                    roots@,
                    j,
                ),
        decreases 4097 - i,
    {
        let key = make_slot_key(blob, roots, i);
        let value = make_slot_value(blob, i);
        let ghost key_bytes = key@;
        let ghost value_bytes = value@;
        let digest = keccak256(key.as_slice());
        let (key_write, value_write) = slot_writes(digest, key, value);
        proof {
            let pair = seq![key_write@, value_write@];
            assert(pair == slot_writes_spec(digest@, key_bytes, value_bytes));
            assert(pair[0] == key_write@ && pair[1] == value_write@);
            assert(blob_write(hash@, blob@, roots@, 2 * i + 1) == key_write@);
            assert(blob_write(hash@, blob@, roots@, 2 * i + 2) == value_write@);
        }
        writes.push(key_write);
        writes.push(value_write);
        i = i + 1;
    }
    assert(write_views(writes@) =~= blob_writes_spec(hash@, blob@, roots@));
    writes
}

/// Four limbs spell the sum of the limbs, each by its power of 2^64.
pub proof fn law_limbs_value_of_four(limbs: Seq<u64>)
    requires
        limbs.len() == 4,
    ensures
        limbs_value(limbs) == limbs[0] + 0x1_0000_0000_0000_0000 * limbs[1]
            + 0x1_0000_0000_0000_0000_0000_0000_0000_0000 * limbs[2]
            + 0x1_0000_0000_0000_0000_0000_0000_0000_0000_0000_0000_0000_0000 * limbs[3],
{
    reveal_with_fuel(limbs_value, 6);
    let one = limbs.drop_first();
    let two = one.drop_first();
    let three = two.drop_first();
    assert(one.first() == limbs[1]);
    assert(two.first() == limbs[2]);
    assert(three.first() == limbs[3]);
    assert(three.drop_first().len() == 0);
}

proof fn lemma_root_fits(limbs: Seq<u64>)
    requires
        limbs.len() == 4,
    ensures
        limbs_value(limbs) < pow256(32),
{
    law_limbs_value_of_four(limbs);
    reveal_with_fuel(pow256, 33);
    assert(pow256(32)
        == 0x1_0000_0000_0000_0000_0000_0000_0000_0000_0000_0000_0000_0000_0000_0000_0000_0000);
}

/// A root of unity is written as the 32 bytes that spell it, and as no others.
pub proof fn law_root_bytes(limbs: Seq<u64>, bytes: Seq<u8>)
    requires
        limbs.len() == 4,
        bytes.len() == 32,
    ensures
        root_bytes(limbs).len() == 32,
        be_value(root_bytes(limbs)) == limbs_value(limbs),
        be_value(bytes) == limbs_value(limbs) <==> bytes == root_bytes(limbs),
{
    lemma_root_fits(limbs);
    law_be_value_of_be_bytes(limbs_value(limbs), 32);
    law_be_bytes_of_be_value(bytes);
}

/// The key of a field element is the commitment, then the element's own root of unity in 32
/// big-endian bytes. The proof's key is that of the last element with the number of elements
/// over its last eight bytes.
pub proof fn law_slot_key_layout(commitment: Seq<u8>, roots: Seq<Seq<u64>>, i: int)
    requires
        commitment.len() == 48,
        roots.len() == 4096,
        forall|k: int| 0 <= k < 4096 ==> (#[trigger] roots[k]).len() == 4,
        0 <= i <= 4096,
    ensures
        slot_key(commitment, roots, i).len() == 80,
        slot_key(commitment, roots, i).subrange(0, 48) == commitment,
        i < 4096 ==> be_value(slot_key(commitment, roots, i).subrange(48, 80)) == limbs_value(
            roots[i],
        ),
        i == 4096 ==> {
            &&& slot_key(commitment, roots, i).subrange(0, 72) == slot_key(
                commitment,
                roots,
                4095,
            ).subrange(0, 72)
            &&& be_value(slot_key(commitment, roots, i).subrange(72, 80)) == 4096
        },
{
    let key = slot_key(commitment, roots, i);
    let n = if i < 4096 {
        i
    } else {
        4095
    };
    let root = root_bytes(roots[n]);
    lemma_be_bytes_len(limbs_value(roots[n]), 32);
    law_root_bytes(roots[n], root);
    assert(key.subrange(0, 48) =~= commitment);
    if i < 4096 {
        assert(key.subrange(48, 80) =~= root);
    } else {
        reveal_with_fuel(pow256, 9);
        law_be_value_of_be_bytes(4096, 8);
        assert(key.subrange(72, 80) =~= be_bytes(4096, 8));
        assert(key.subrange(0, 72) =~= slot_key(commitment, roots, 4095).subrange(0, 72));
    }
}

/// A field element is the 32 bytes of the blob at its place; the slot after all elements holds
/// the proof.
pub proof fn law_slot_value_layout(blob: BlobView, i: int, b: int)
    requires
        blob.blob.len() == 131072,
        0 <= i < 4096,
        0 <= b < 32,
    ensures
        slot_value(blob, i).len() == 32,
        slot_value(blob, i)[b] == blob.blob[32 * i + b],
        slot_value(blob, 4096) == blob.proof,
{
}

/// The two writes of a slot: the key under its digest, then the value.
pub proof fn law_slot_writes(digest: Seq<u8>, key: Seq<u8>, value: Seq<u8>)
    ensures
        slot_writes_spec(digest, key, value) == seq![
            (seq![2u8] + digest.subrange(1, 32), key),
            (seq![5u8] + digest.subrange(1, 32), value),
        ],
{
}

/// The writes of a blob are the commitment under the versioned hash, then for each slot its key
/// under the key's digest and its value under the same digest, and nothing else.
pub proof fn law_blob_write_list(hash: Seq<u8>, blob: BlobView, roots: Seq<Seq<u64>>, i: int)
    requires
        0 <= i <= 4096,
    ensures
        ({
            let writes = blob_writes_spec(hash, blob, roots);
            let key = slot_key(blob.commitment, roots, i);
            let tail = keccak256_digest(key).subrange(1, 32);
            &&& writes.len() == 8195
            &&& writes[0] == (seq![4u8] + hash.subrange(1, 32), blob.commitment)
            &&& writes[2 * i + 1] == (seq![2u8] + tail, key)
            &&& writes[2 * i + 2] == (seq![5u8] + tail, slot_value(blob, i))
        }),
{
    let writes = blob_writes_spec(hash, blob, roots);
    assert(writes[2 * i + 1] == blob_write(hash, blob, roots, 2 * i + 1));
    assert(writes[2 * i + 2] == blob_write(hash, blob, roots, 2 * i + 2));
}

/// A blob is 4096 field elements of 32 bytes.
pub proof fn law_blob_size()
    ensures
        FIELD_ELEMENTS_PER_BLOB == 4096,
        BYTES_PER_BLOB == 4096 * 32,
{
}

} // verus!
