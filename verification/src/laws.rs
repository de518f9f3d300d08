//! What holds of the hints as a whole: of the store that they fill, and of whole runs.

use op_alloy_rpc_types_engine::OpPayloadAttributes;
use vstd::prelude::*;

use crate::blob::{
    blob_write, blob_writes_spec, slot_key, slot_value, BlobView, BYTES_PER_BLOB,
    FIELD_ELEMENTS_PER_BLOB,
};
use crate::bytes::{be_bytes, law_be_bytes_of_be_value, law_be_value_of_be_bytes, pow256};
use crate::error::{error_code, Chain, HintErrorView, RpcError, METHOD_NOT_FOUND};
use crate::handler::{fetch_hint_spec, resume_spec, HintType, SingleChainHost};
use crate::hint::{bare_code_spec, blob_hint};
use crate::outside::{header_state_root, keccak256_digest, parsed_payload_attributes};
use crate::output_root::output_root_preimage;
use crate::preimage::{apply_writes, keccak_key, preimage_key, PreimageKeyType};
use crate::reply::{
    message_passer, precompile_result, precompile_writes_spec, preimage_writes_spec,
    store_output_root_spec, store_preimage_spec,
};
use crate::step::{
    answers, AccountProofView, BlockIdView, PendingView, ReplyView, RequestView, SkipReason,
    StepView,
};

verus! {

/// Both formats of a blob hint give back the hash and the timestamp that were put in, whatever
/// the index field of the longer one holds.
pub proof fn law_blob_hint_reads_back(hash: Seq<u8>, index: Seq<u8>, timestamp: nat)
    requires
        hash.len() == 32,
        index.len() == 8,
        timestamp <= u64::MAX,
    ensures
        blob_hint(hash + be_bytes(timestamp, 8)) == Some((hash, timestamp)),
        blob_hint(hash + index + be_bytes(timestamp, 8)) == Some((hash, timestamp)),
{
    reveal_with_fuel(pow256, 9);
    law_be_value_of_be_bytes(timestamp, 8);
    let tail = be_bytes(timestamp, 8);
    let short = hash + tail;
    let long = hash + index + tail;
    assert(short.subrange(0, 32) =~= hash);
    assert(short.subrange(32, 40) =~= tail);
    assert(long.subrange(0, 32) =~= hash);
    assert(long.subrange(40, 48) =~= tail);
}

/// A blob hint is exactly its hash followed by its timestamp, with nothing but the index field
/// between them in the 48-byte format.
pub proof fn law_blob_hint_holds_nothing_else(data: Seq<u8>)
    requires
        data.len() == 40 || data.len() == 48,
    ensures
        blob_hint(data) matches Some((hash, timestamp)) && data == if data.len() == 40 {
            hash + be_bytes(timestamp, 8)
        } else {
            hash + data.subrange(32, 40) + be_bytes(timestamp, 8)
        },
{
    let tail = data.subrange(data.len() - 8, data.len() as int);
    law_be_bytes_of_be_value(tail);
    if data.len() == 40 {
        assert(data =~= data.subrange(0, 32) + tail);
    } else {
        assert(data =~= data.subrange(0, 32) + data.subrange(32, 40) + tail);
    }
}

/// Keys of different types are different.
pub proof fn law_key_types_do_not_collide(
    t1: PreimageKeyType,
    h1: Seq<u8>,
    t2: PreimageKeyType,
    h2: Seq<u8>,
)
    requires
        t1 != t2,
    ensures
        preimage_key(t1, h1) != preimage_key(t2, h2),
{
    assert(preimage_key(t1, h1)[0] == t1.tag_byte());
    assert(preimage_key(t2, h2)[0] == t2.tag_byte());
}

/// Keys of one type are the same only for hashes that agree on all but the first byte.
pub proof fn law_key_keeps_hash_tail(t: PreimageKeyType, h1: Seq<u8>, h2: Seq<u8>)
    requires
        h1.len() == 32,
        h2.len() == 32,
        preimage_key(t, h1) == preimage_key(t, h2),
    ensures
        h1.skip(1) == h2.skip(1),
{
    assert(preimage_key(t, h1).skip(1) =~= h1.skip(1));
    assert(preimage_key(t, h2).skip(1) =~= h2.skip(1));
}

/// The last write to a key is what is read under it.
pub proof fn law_last_write_is_read(
    store: Map<Seq<u8>, Seq<u8>>,
    writes: Seq<(Seq<u8>, Seq<u8>)>,
    i: int,
)
    requires
        0 <= i < writes.len(),
        forall|j: int| i < j < writes.len() ==> (#[trigger] writes[j]).0 != writes[i].0,
    ensures
        apply_writes(store, writes).contains_key(writes[i].0),
        apply_writes(store, writes)[writes[i].0] == writes[i].1,
    decreases writes.len(),
{
    if i < writes.len() - 1 {
        let shorter = writes.drop_last();
        assert forall|j: int| i < j < shorter.len() implies (#[trigger] shorter[j]).0
            != shorter[i].0 by {
            assert(shorter[j] == writes[j]);
        }
        law_last_write_is_read(store, shorter, i);
        assert(writes[writes.len() - 1].0 != writes[i].0);
    }
}

/// A key that nothing was written to keeps what it had.
pub proof fn law_unwritten_key_is_kept(
    store: Map<Seq<u8>, Seq<u8>>,
    writes: Seq<(Seq<u8>, Seq<u8>)>,
    key: Seq<u8>,
)
    requires
        forall|j: int| 0 <= j < writes.len() ==> (#[trigger] writes[j]).0 != key,
    ensures
        apply_writes(store, writes).contains_key(key) == store.contains_key(key),
        apply_writes(store, writes)[key] == store[key],
    decreases writes.len(),
{
    if writes.len() > 0 {
        let shorter = writes.drop_last();
        assert forall|j: int| 0 <= j < shorter.len() implies (#[trigger] shorter[j]).0 != key by {
            assert(shorter[j] == writes[j]);
        }
        law_unwritten_key_is_kept(store, shorter, key);
        assert(writes[writes.len() - 1].0 != key);
    }
}

/// A header, state node or contract code is read back under the hash it was asked for, and
/// storing it touches nothing else.
pub proof fn law_preimage_reads_back(store: Map<Seq<u8>, Seq<u8>>, hash: Seq<u8>, value: Seq<u8>)
    ensures
        store_preimage_spec(hash, value) matches StepView::Store { writes } && apply_writes(
            store,
            writes,
        ) == store.insert(keccak_key(hash), value),
{
    let writes = store_preimage_spec(hash, value)->writes;
    assert(writes.drop_last() =~= Seq::empty());
    assert(apply_writes(store, writes.drop_last()) == store);
}

/// After a precompile hint, the hint's data is read back as a preimage, and the result under
/// the same digest tells failure from success and holds the output.
pub proof fn law_precompile_reads_back(
    store: Map<Seq<u8>, Seq<u8>>,
    digest: Seq<u8>,
    data: Seq<u8>,
    output: Option<Seq<u8>>,
)
    ensures
        ({
            let after = apply_writes(store, precompile_writes_spec(digest, data, output));
            let result = after[preimage_key(PreimageKeyType::Precompile, digest)];
            &&& after.contains_key(keccak_key(digest))
            &&& after[keccak_key(digest)] == data
            &&& after.contains_key(preimage_key(PreimageKeyType::Precompile, digest))
            &&& result.len() > 0
            &&& result[0] == 1 <==> output is Some
            &&& output matches Some(bytes) ==> result.skip(1) == bytes
            &&& output is None ==> result == seq![0u8]
        }),
{
    let writes = precompile_writes_spec(digest, data, output);
    law_key_types_do_not_collide(
        PreimageKeyType::Keccak256,
        digest,
        PreimageKeyType::Precompile,
        digest,
    );
    law_last_write_is_read(store, writes, 0);
    law_last_write_is_read(store, writes, 1);
    if let Some(bytes) = output {
        assert(precompile_result(output).skip(1) =~= bytes);
    }
}

/// The field elements of a blob make up the whole of it.
pub proof fn law_field_elements_cover_blob(blob: BlobView, at: int)
    requires
        blob.blob.len() == BYTES_PER_BLOB,
        0 <= at < BYTES_PER_BLOB,
    ensures
        0 <= at / 32 < FIELD_ELEMENTS_PER_BLOB,
        slot_value(blob, at / 32).len() == 32,
        slot_value(blob, at / 32)[at % 32] == blob.blob[at],
{
}

/// After a blob hint, the commitment is read back under the versioned hash. So is what each
/// slot holds, field elements and proof alike, together with the slot's own key as a preimage,
/// unless a later slot has the same key in the store.
pub proof fn law_blob_reads_back(
    store: Map<Seq<u8>, Seq<u8>>,
    hash: Seq<u8>,
    blob: BlobView,
    roots: Seq<Seq<u64>>,
    i: int,
)
    requires
        0 <= i <= FIELD_ELEMENTS_PER_BLOB,
        forall|k: int|
            i < k <= FIELD_ELEMENTS_PER_BLOB ==> keccak_key(
                keccak256_digest(#[trigger] slot_key(blob.commitment, roots, k)),
            ) != keccak_key(keccak256_digest(slot_key(blob.commitment, roots, i))),
    ensures
        ({
            let after = apply_writes(store, blob_writes_spec(hash, blob, roots));
            let key = slot_key(blob.commitment, roots, i);
            let digest = keccak256_digest(key);
            &&& after.contains_key(preimage_key(PreimageKeyType::Sha256, hash))
            &&& after[preimage_key(PreimageKeyType::Sha256, hash)] == blob.commitment
            &&& after.contains_key(keccak_key(digest))
            &&& after[keccak_key(digest)] == key
            &&& after.contains_key(preimage_key(PreimageKeyType::Blob, digest))
            &&& after[preimage_key(PreimageKeyType::Blob, digest)] == slot_value(blob, i)
        }),
{
    let writes = blob_writes_spec(hash, blob, roots);
    let key = slot_key(blob.commitment, roots, i);
    let digest = keccak256_digest(key);
    assert(writes[2 * i + 1] == blob_write(hash, blob, roots, 2 * i + 1));
    assert(writes[2 * i + 2] == blob_write(hash, blob, roots, 2 * i + 2));
    assert(writes[2 * i + 1] == (keccak_key(digest), key));
    assert(writes[2 * i + 2] == (
        preimage_key(PreimageKeyType::Blob, digest),
        slot_value(blob, i),
    ));
    assert forall|j: int| 0 < j < writes.len() implies {
        let k = (j - 1) / 2;
        let d = keccak256_digest(slot_key(blob.commitment, roots, k));
        (#[trigger] writes[j]).0 == if (j - 1) % 2 == 0 {
            keccak_key(d)
        } else {
            preimage_key(PreimageKeyType::Blob, d)
        }
    } by {
        assert(writes[j] == blob_write(hash, blob, roots, j));
    }
    assert forall|j: int| 0 < j < writes.len() implies (#[trigger] writes[j]).0
        != writes[0].0 by {
        let d = keccak256_digest(slot_key(blob.commitment, roots, (j - 1) / 2));
        law_key_types_do_not_collide(PreimageKeyType::Keccak256, d, PreimageKeyType::Sha256, hash);
        law_key_types_do_not_collide(PreimageKeyType::Blob, d, PreimageKeyType::Sha256, hash);
    }
    law_last_write_is_read(store, writes, 0);
    assert forall|j: int| 2 * i + 1 < j < writes.len() implies (#[trigger] writes[j]).0
        != keccak_key(digest) by {
        let k = (j - 1) / 2;
        let d = keccak256_digest(slot_key(blob.commitment, roots, k));
        law_key_types_do_not_collide(
            PreimageKeyType::Blob,
            d,
            PreimageKeyType::Keccak256,
            digest,
        );
    }
    law_last_write_is_read(store, writes, 2 * i + 1);
    assert forall|j: int| 2 * i + 2 < j < writes.len() implies (#[trigger] writes[j]).0
        != preimage_key(PreimageKeyType::Blob, digest) by {
        let k = (j - 1) / 2;
        let d = keccak256_digest(slot_key(blob.commitment, roots, k));
        law_key_types_do_not_collide(
            PreimageKeyType::Keccak256,
            d,
            PreimageKeyType::Blob,
            digest,
        );
        if (j - 1) % 2 != 0 && preimage_key(PreimageKeyType::Blob, d) == preimage_key(
            PreimageKeyType::Blob,
            digest,
        ) {
            assert(preimage_key(PreimageKeyType::Blob, d).skip(1) =~= d.subrange(1, 32));
            assert(preimage_key(PreimageKeyType::Blob, digest).skip(1) =~= digest.subrange(1, 32));
            assert(keccak_key(d) == keccak_key(digest));
        }
    }
    law_last_write_is_read(store, writes, 2 * i + 2);
}

/// An output root's preimage determines its parts.
pub proof fn law_output_root_preimage_is_injective(
    s1: Seq<u8>,
    b1: Seq<u8>,
    h1: Seq<u8>,
    s2: Seq<u8>,
    b2: Seq<u8>,
    h2: Seq<u8>,
)
    requires
        s1.len() == 32,
        b1.len() == 32,
        h1.len() == 32,
        s2.len() == 32,
        b2.len() == 32,
        h2.len() == 32,
        output_root_preimage(s1, b1, h1) == output_root_preimage(s2, b2, h2),
    ensures
        output_root_preimage(s1, b1, h1).len() == 128,
        s1 == s2,
        b1 == b2,
        h1 == h2,
{
    let one = output_root_preimage(s1, b1, h1);
    let two = output_root_preimage(s2, b2, h2);
    assert(one.subrange(32, 64) =~= s1);
    assert(one.subrange(64, 96) =~= b1);
    assert(one.subrange(96, 128) =~= h1);
    assert(two.subrange(32, 64) =~= s2);
    assert(two.subrange(64, 96) =~= b2);
    assert(two.subrange(96, 128) =~= h2);
}

/// The output root hint stores something if and only if the recomputed root is the agreed one,
/// and what is then read under the agreed root has the agreed root as its digest.
pub proof fn law_output_root_is_checked(
    store: Map<Seq<u8>, Seq<u8>>,
    state_root: Seq<u8>,
    storage_hash: Seq<u8>,
    head_hash: Seq<u8>,
    agreed: Seq<u8>,
)
    ensures
        ({
            let preimage = output_root_preimage(state_root, storage_hash, head_hash);
            match store_output_root_spec(state_root, storage_hash, head_hash, agreed) {
                Ok(StepView::Store { writes }) => {
                    let after = apply_writes(store, writes);
                    &&& keccak256_digest(preimage) == agreed
                    &&& after.contains_key(keccak_key(agreed))
                    &&& after[keccak_key(agreed)] == preimage
                    &&& keccak256_digest(after[keccak_key(agreed)]) == agreed
                },
                Ok(_) => false,
                Err(e) => {
                    &&& keccak256_digest(preimage) != agreed
                    &&& e == HintErrorView::OutputRootMismatch
                },
            }
        }),
{
    law_preimage_reads_back(
        store,
        agreed,
        output_root_preimage(state_root, storage_hash, head_hash),
    );
}

/// Every entry under a Keccak-256 key is a preimage for that key.
pub open spec fn preimages_sound(store: Map<Seq<u8>, Seq<u8>>) -> bool {
    forall|key: Seq<u8>|
        #![trigger store.contains_key(key)]
        store.contains_key(key) && key.len() > 0 && key[0]
            == PreimageKeyType::Keccak256.tag_byte() ==> key == keccak_key(
            keccak256_digest(store[key]),
        )
}

/// A write under a Keccak-256 key writes a preimage for that key.
pub open spec fn write_sound(write: (Seq<u8>, Seq<u8>)) -> bool {
    write.0.len() > 0 && write.0[0] == PreimageKeyType::Keccak256.tag_byte() ==> write.0
        == keccak_key(keccak256_digest(write.1))
}

proof fn lemma_sound_writes_keep_store_sound(
    store: Map<Seq<u8>, Seq<u8>>,
    writes: Seq<(Seq<u8>, Seq<u8>)>,
)
    requires
        preimages_sound(store),
        forall|j: int| 0 <= j < writes.len() ==> write_sound(#[trigger] writes[j]),
    ensures
        preimages_sound(apply_writes(store, writes)),
    decreases writes.len(),
{
    if writes.len() > 0 {
        let shorter = writes.drop_last();
        assert forall|j: int| 0 <= j < shorter.len() implies write_sound(
            #[trigger] shorter[j],
        ) by {
            assert(shorter[j] == writes[j]);
        }
        lemma_sound_writes_keep_store_sound(store, shorter);
        let before = apply_writes(store, shorter);
        let after = apply_writes(store, writes);
        assert(write_sound(writes[writes.len() - 1]));
        assert forall|key: Seq<u8>|
            #![trigger after.contains_key(key)]
            after.contains_key(key) && key.len() > 0 && key[0]
                == PreimageKeyType::Keccak256.tag_byte() implies key == keccak_key(
            keccak256_digest(after[key]),
        ) by {
            if key != writes.last().0 {
                assert(before.contains_key(key));
            }
        }
    }
}

proof fn lemma_blob_writes_are_sound(hash: Seq<u8>, blob: BlobView, roots: Seq<Seq<u64>>)
    ensures
        forall|j: int|
            0 <= j < blob_writes_spec(hash, blob, roots).len() ==> write_sound(
                #[trigger] blob_writes_spec(hash, blob, roots)[j],
            ),
{
    let writes = blob_writes_spec(hash, blob, roots);
    assert forall|j: int| 0 <= j < writes.len() implies write_sound(#[trigger] writes[j]) by {
        assert(writes[j] == blob_write(hash, blob, roots, j));
        if j == 0 {
            assert(writes[j].0[0] == PreimageKeyType::Sha256.tag_byte());
        } else if (j - 1) % 2 == 1 {
            assert(writes[j].0[0] == PreimageKeyType::Blob.tag_byte());
        }
    }
}

/// What a node returned for a hash is a preimage of it. Hints that ask a node for the preimage
/// of a hash store its answer unchecked.
pub open spec fn honest(pending: PendingView, reply: ReplyView) -> bool {
    match (pending, reply) {
        (PendingView::Preimage { hash }, ReplyView::Bytes(value)) => keccak256_digest(value)
            == hash,
        (PendingView::PrefixedCode { hash }, ReplyView::Bytes(value)) => keccak256_digest(value)
            == hash,
        (PendingView::BareCode { hash }, ReplyView::Bytes(value)) => keccak256_digest(value)
            == hash,
        _ => true,
    }
}

/// If all entries under Keccak-256 keys are preimages for their keys, they still are after any
/// hint has stored what it found, provided that a node asked for the preimage of a hash
/// returned one.
pub proof fn law_hints_keep_preimages_sound(
    store: Map<Seq<u8>, Seq<u8>>,
    pending: PendingView,
    reply: ReplyView,
    roots: Seq<Seq<u64>>,
)
    requires
        answers(pending, reply),
        honest(pending, reply),
        preimages_sound(store),
    ensures
        resume_spec(pending, reply, roots) matches Ok(StepView::Store { writes })
            ==> preimages_sound(apply_writes(store, writes)),
{
    if let Ok(StepView::Store { writes }) = resume_spec(pending, reply, roots) {
        assert forall|j: int| 0 <= j < writes.len() implies write_sound(#[trigger] writes[j]) by {
            match (pending, reply) {
                (PendingView::Blob { hash }, ReplyView::Blobs(blobs)) => {
                    lemma_blob_writes_are_sound(hash, blobs[0], roots);
                },
                (PendingView::Precompile { data }, ReplyView::Precompile(output)) => {
                    if j == 1 {
                        assert(writes[j].0[0] == PreimageKeyType::Precompile.tag_byte());
                    }
                },
                _ => {},
            }
        }
        lemma_sound_writes_keep_store_sound(store, writes);
    }
}

/// The data lengths that a hint type accepts.
pub open spec fn accepts_length(ty: HintType, len: nat) -> bool {
    match ty {
        HintType::L1Blob => len == 40 || len == 48,
        HintType::L1Precompile => len >= 28,
        HintType::L2AccountProof => len == 28,
        HintType::L2AccountStorageProof => len == 60,
        HintType::L2PayloadWitness => len >= 32,
        _ => len == 32,
    }
}

/// A hint is refused at once if and only if its data does not have a length of its type, or,
/// for a payload witness, holds no payload attributes; a payload witness that is switched off
/// is never refused.
pub proof fn law_hint_is_refused_for_its_data(ty: HintType, data: Seq<u8>, cfg: SingleChainHost)
    ensures
        ty != HintType::L2PayloadWitness ==> (fetch_hint_spec(ty, data, cfg) is Err
            <==> !accepts_length(ty, data.len())),
        ty == HintType::L2PayloadWitness && !cfg.enable_experimental_witness_endpoint
            ==> fetch_hint_spec(ty, data, cfg) == Ok::<StepView, HintErrorView>(
            StepView::Skip { reason: SkipReason::WitnessDisabled },
        ),
        ty == HintType::L2PayloadWitness && cfg.enable_experimental_witness_endpoint ==> (
        fetch_hint_spec(ty, data, cfg) is Err <==> (!accepts_length(ty, data.len())
            || parsed_payload_attributes(data.skip(32)) is Err)),
        match fetch_hint_spec(ty, data, cfg) {
            Err(HintErrorView::PayloadAttributes(e)) => {
                &&& ty == HintType::L2PayloadWitness
                &&& accepts_length(ty, data.len())
                &&& parsed_payload_attributes(data.skip(32)) == Err::<
                    OpPayloadAttributes,
                    serde_json::Error,
                >(e)
            },
            Err(e) => {
                &&& !accepts_length(ty, data.len())
                &&& e == if ty == HintType::L1Blob {
                    HintErrorView::InvalidBlobHintLength { len: data.len() }
                } else {
                    HintErrorView::InvalidHintLength
                }
            },
            Ok(_) => accepts_length(ty, data.len()) || ty == HintType::L2PayloadWitness,
        },
{
}

/// Whether `reply` is of a kind that `request` can get.
pub open spec fn can_reply(request: RequestView, reply: ReplyView) -> bool {
    match request {
        RequestView::RawHeader { .. } | RequestView::DbGet { .. } => {
            reply is Bytes || reply is Failed
        },
        RequestView::BlockTransactions { .. } => reply is Transactions || reply is Failed,
        RequestView::RawReceipts { .. } => reply is Receipts || reply is Failed,
        RequestView::Blobs { .. } => reply is Blobs || reply is BlobsFailed,
        RequestView::Precompile { .. } => reply is Precompile,
        RequestView::Proof { slots, .. } => match reply {
            ReplyView::Proof(proof) => proof.storage_proof.len() == slots.len(),
            _ => reply is Failed,
        },
        RequestView::ExecutePayload { .. } => reply is Witness || reply is Failed,
    }
}

/// Whoever answers a request in kind, with one storage proof for each slot asked for, can go on
/// with the answer: this holds of the first request of a hint and of the second.
pub proof fn law_requests_can_be_answered(
    ty: HintType,
    data: Seq<u8>,
    cfg: SingleChainHost,
    roots: Seq<Seq<u64>>,
    first: ReplyView,
    second: ReplyView,
)
    ensures
        match fetch_hint_spec(ty, data, cfg) {
            Ok(StepView::Ask { request, pending }) => can_reply(request, first) ==> {
                &&& answers(pending, first)
                &&& match resume_spec(pending, first, roots) {
                    Ok(StepView::Ask { request: next_request, pending: next_pending }) => {
                        can_reply(next_request, second) ==> answers(next_pending, second)
                    },
                    _ => true,
                }
            },
            _ => true,
        },
{
}

/// A hint makes at most two requests.
pub proof fn law_hint_makes_at_most_two_requests(
    ty: HintType,
    data: Seq<u8>,
    cfg: SingleChainHost,
    roots: Seq<Seq<u64>>,
    first: ReplyView,
    second: ReplyView,
)
    ensures
        match fetch_hint_spec(ty, data, cfg) {
            Ok(StepView::Ask { pending, .. }) => answers(pending, first) ==> match resume_spec(
                pending,
                first,
                roots,
            ) {
                Ok(StepView::Ask { pending: next, .. }) => answers(next, second) ==> !(
                resume_spec(next, second, roots) matches Ok(StepView::Ask { .. })),
                _ => true,
            },
            _ => true,
        },
{
}

/// Contract code is taken from the first of the two lookups that succeeds, and stored under its
/// hash in both cases; the hint fails only if both lookups do.
pub proof fn law_code_lookup_falls_back(
    hash: Seq<u8>,
    cfg: SingleChainHost,
    roots: Seq<Seq<u64>>,
    code: Seq<u8>,
    error: RpcError,
    last_error: RpcError,
    text: Seq<char>,
    last_text: Seq<char>,
)
    requires
        hash.len() == 32,
    ensures
        fetch_hint_spec(HintType::L2Code, hash, cfg) matches Ok(
            StepView::Ask { request: RequestView::DbGet { key }, pending },
        ) && key == seq!['c' as u8] + hash && {
            let failed = ReplyView::Failed { error, text };
            let last_failed = ReplyView::Failed { error: last_error, text: last_text };
            let found = ReplyView::Bytes(code);
            &&& resume_spec(pending, found, roots) == Ok::<StepView, HintErrorView>(
                store_preimage_spec(hash, code),
            )
            &&& resume_spec(pending, failed, roots) == Ok::<StepView, HintErrorView>(
                bare_code_spec(hash),
            )
            &&& bare_code_spec(hash)->request == (RequestView::DbGet { key: hash })
            &&& resume_spec(bare_code_spec(hash)->pending, found, roots) == Ok::<
                StepView,
                HintErrorView,
            >(store_preimage_spec(hash, code))
            &&& resume_spec(bare_code_spec(hash)->pending, last_failed, roots) == Err::<
                StepView,
                HintErrorView,
            >(HintErrorView::CodeFetch { text: last_text })
        },
{
}

/// A payload witness that the node cannot provide is no error, and stores nothing.
pub proof fn law_missing_witness_is_skipped(
    error: RpcError,
    text: Seq<char>,
    roots: Seq<Seq<u64>>,
)
    ensures
        resume_spec(PendingView::Witness, ReplyView::Failed { error, text }, roots) == Ok::<
            StepView,
            HintErrorView,
        >(
            StepView::Skip {
                reason: SkipReason::WitnessUnavailable {
                    method_not_found: error_code(error) == Some(METHOD_NOT_FOUND),
                },
            },
        ),
{
}

/// Each preimage that is stored under its own digest is found there: the key holds it, or
/// another of the preimages stored, if that has the same key.
pub proof fn law_every_preimage_is_stored(
    store: Map<Seq<u8>, Seq<u8>>,
    preimages: Seq<Seq<u8>>,
    i: int,
)
    requires
        0 <= i < preimages.len(),
    ensures
        ({
            let after = apply_writes(store, preimage_writes_spec(preimages));
            let key = keccak_key(keccak256_digest(preimages[i]));
            &&& after.contains_key(key)
            &&& preimages.contains(after[key])
            &&& keccak_key(keccak256_digest(after[key])) == key
        }),
    decreases preimages.len(),
{
    let writes = preimage_writes_spec(preimages);
    let shorter = preimages.drop_last();
    let last = preimages.last();
    assert(writes.drop_last() =~= preimage_writes_spec(shorter));
    assert(writes.last() == (keccak_key(keccak256_digest(last)), last));
    assert(preimages[preimages.len() - 1] == last);
    if i < preimages.len() - 1 {
        assert(shorter[i] == preimages[i]);
        law_every_preimage_is_stored(store, shorter, i);
        let found = apply_writes(store, preimage_writes_spec(shorter))[keccak_key(
            keccak256_digest(preimages[i]),
        )];
        let at = choose|j: int| 0 <= j < shorter.len() && shorter[j] == found;
        assert(preimages[at] == found);
    }
}

/// A header or state node hint asks for exactly the hash in its data, and leaves the store as
/// it was but for the reply under that hash.
pub proof fn law_hash_hint_stores_the_reply(
    store: Map<Seq<u8>, Seq<u8>>,
    ty: HintType,
    hash: Seq<u8>,
    cfg: SingleChainHost,
    roots: Seq<Seq<u64>>,
    value: Seq<u8>,
)
    requires
        hash.len() == 32,
        ty == HintType::L1BlockHeader || ty == HintType::L2BlockHeader || ty
            == HintType::L2StateNode,
    ensures
        fetch_hint_spec(ty, hash, cfg) matches Ok(StepView::Ask { request, pending }) && {
            &&& request == match ty {
                HintType::L1BlockHeader => RequestView::RawHeader { chain: Chain::L1, hash },
                HintType::L2BlockHeader => RequestView::RawHeader { chain: Chain::L2, hash },
                _ => RequestView::DbGet { key: hash },
            }
            &&& resume_spec(pending, ReplyView::Bytes(value), roots) matches Ok(
                StepView::Store { writes },
            )
            &&& apply_writes(store, writes) == store.insert(keccak_key(hash), value)
        },
{
    law_preimage_reads_back(store, hash, value);
}

/// A transactions or receipts hint stores the trie of exactly the values that the node
/// returned for the block in the hint's data, in their order.
pub proof fn law_block_hint_stores_the_list(
    ty: HintType,
    hash: Seq<u8>,
    cfg: SingleChainHost,
    roots: Seq<Seq<u64>>,
    values: Seq<Seq<u8>>,
)
    requires
        hash.len() == 32,
        ty == HintType::L1Transactions || ty == HintType::L2Transactions || ty
            == HintType::L1Receipts,
    ensures
        fetch_hint_spec(ty, hash, cfg) matches Ok(StepView::Ask { request, pending }) && {
            let reply = if ty == HintType::L1Receipts {
                ReplyView::Receipts(values)
            } else {
                ReplyView::Transactions(Some(values))
            };
            &&& request == match ty {
                HintType::L1Transactions => RequestView::BlockTransactions {
                    chain: Chain::L1,
                    hash,
                },
                HintType::L2Transactions => RequestView::BlockTransactions {
                    chain: Chain::L2,
                    hash,
                },
                _ => RequestView::RawReceipts { hash },
            }
            &&& resume_spec(pending, reply, roots) == Ok::<StepView, HintErrorView>(
                StepView::StoreOrderedTrie { values },
            )
        },
{
}

/// A blob hint of either format, whatever its index field holds, asks for the blob it names,
/// and stores that blob alone under the hash it names.
pub proof fn law_blob_hint_stores_the_blob(
    hash: Seq<u8>,
    index: Seq<u8>,
    timestamp: nat,
    data: Seq<u8>,
    cfg: SingleChainHost,
    roots: Seq<Seq<u64>>,
    blobs: Seq<BlobView>,
)
    requires
        hash.len() == 32,
        index.len() == 8,
        timestamp <= u64::MAX,
        data == hash + be_bytes(timestamp, 8) || data == hash + index + be_bytes(timestamp, 8),
    ensures
        fetch_hint_spec(HintType::L1Blob, data, cfg) matches Ok(
            StepView::Ask { request, pending },
        ) && {
            &&& request == (RequestView::Blobs { hash, timestamp })
            &&& resume_spec(pending, ReplyView::Blobs(blobs), roots) == if blobs.len() == 1 {
                Ok::<StepView, HintErrorView>(
                    StepView::Store { writes: blob_writes_spec(hash, blobs[0], roots) },
                )
            } else {
                Err::<StepView, HintErrorView>(HintErrorView::BlobCount { got: blobs.len() })
            }
        },
{
    law_blob_hint_reads_back(hash, index, timestamp);
}

/// A precompile hint asks for the call that its data spells.
pub proof fn law_precompile_hint_asks_for_its_call(
    address: Seq<u8>,
    gas: nat,
    input: Seq<u8>,
    cfg: SingleChainHost,
)
    requires
        address.len() == 20,
        gas <= u64::MAX,
    ensures
        fetch_hint_spec(HintType::L1Precompile, address + be_bytes(gas, 8) + input, cfg) == Ok::<
            StepView,
            HintErrorView,
        >(
            StepView::Ask {
                request: RequestView::Precompile { address, gas, input },
                pending: PendingView::Precompile { data: address + be_bytes(gas, 8) + input },
            },
        ),
{
    reveal_with_fuel(pow256, 9);
    law_be_value_of_be_bytes(gas, 8);
    let data = address + be_bytes(gas, 8) + input;
    assert(data.subrange(0, 20) =~= address);
    assert(data.subrange(20, 28) =~= be_bytes(gas, 8));
    assert(data.skip(28) =~= input);
}

/// A proof hint asks for the account, and the slot if there is one, that its data spells, at
/// the block it names.
pub proof fn law_proof_hint_asks_for_its_proof(
    number: nat,
    address: Seq<u8>,
    slot: Seq<u8>,
    cfg: SingleChainHost,
)
    requires
        number <= u64::MAX,
        address.len() == 20,
        slot.len() == 32,
    ensures
        fetch_hint_spec(HintType::L2AccountProof, be_bytes(number, 8) + address, cfg) == Ok::<
            StepView,
            HintErrorView,
        >(
            StepView::Ask {
                request: RequestView::Proof {
                    address,
                    slots: Seq::empty(),
                    block: BlockIdView::Number(number),
                },
                pending: PendingView::AccountProof,
            },
        ),
        fetch_hint_spec(
            HintType::L2AccountStorageProof,
            be_bytes(number, 8) + address + slot,
            cfg,
        ) == Ok::<StepView, HintErrorView>(
            StepView::Ask {
                request: RequestView::Proof {
                    address,
                    slots: seq![slot],
                    block: BlockIdView::Number(number),
                },
                pending: PendingView::StorageProof,
            },
        ),
{
    reveal_with_fuel(pow256, 9);
    law_be_value_of_be_bytes(number, 8);
    let account = be_bytes(number, 8) + address;
    let storage = account + slot;
    assert(account.subrange(0, 8) =~= be_bytes(number, 8));
    assert(account.subrange(8, 28) =~= address);
    assert(storage.subrange(0, 8) =~= be_bytes(number, 8));
    assert(storage.subrange(8, 28) =~= address);
    assert(storage.subrange(28, 60) =~= slot);
}

/// The starting output hint, with a header that decodes, stores the output root's preimage if
/// and only if the root recomputed from header, proof and head hash is the agreed one; with a
/// header that does not decode, it asks for no proof.
pub proof fn law_starting_output_run(
    data: Seq<u8>,
    cfg: SingleChainHost,
    roots: Seq<Seq<u64>>,
    raw_header: Seq<u8>,
    proof: AccountProofView,
)
    requires
        data.len() == 32,
    ensures
        fetch_hint_spec(HintType::StartingL2Output, data, cfg) matches Ok(
            StepView::Ask { request, pending },
        ) && {
            &&& request == (RequestView::RawHeader {
                chain: Chain::L2,
                hash: cfg.agreed_l2_head_hash@,
            })
            &&& match (
                header_state_root(raw_header),
                resume_spec(pending, ReplyView::Bytes(raw_header), roots),
            ) {
                (Ok(state_root), Ok(StepView::Ask { request: second, pending: next })) => {
                    let preimage = output_root_preimage(
                        state_root,
                        proof.storage_hash,
                        cfg.agreed_l2_head_hash@,
                    );
                    let agreed = cfg.agreed_l2_output_root@;
                    &&& second == (RequestView::Proof {
                        address: message_passer(),
                        slots: Seq::empty(),
                        block: BlockIdView::Hash(cfg.agreed_l2_head_hash@),
                    })
                    &&& resume_spec(next, ReplyView::Proof(proof), roots) == if keccak256_digest(
                        preimage,
                    ) == agreed {
                        Ok::<StepView, HintErrorView>(store_preimage_spec(agreed, preimage))
                    } else {
                        Err::<StepView, HintErrorView>(HintErrorView::OutputRootMismatch)
                    }
                },
                (Err(e), Err(HintErrorView::Header(reported))) => e == reported,
                _ => false,
            }
        },
{
}

/// The preimages in a reply that a proof or witness hint waits for: the account's nodes, then
/// the slot's; or state nodes, codes and keys.
pub open spec fn preimages_in(pending: PendingView, reply: ReplyView) -> Seq<Seq<u8>> {
    match (pending, reply) {
        (PendingView::AccountProof, ReplyView::Proof(proof)) => proof.account_proof,
        (PendingView::StorageProof, ReplyView::Proof(proof)) => proof.account_proof
            + proof.storage_proof[0],
        (PendingView::Witness, ReplyView::Witness(witness)) => witness.state + witness.codes
            + witness.keys,
        _ => Seq::empty(),
    }
}

/// A proof or witness hint stores every preimage in the reply: its key then holds it, or
/// another preimage in the reply, if that has the same key.
pub proof fn law_proof_and_witness_are_stored_whole(
    store: Map<Seq<u8>, Seq<u8>>,
    pending: PendingView,
    reply: ReplyView,
    roots: Seq<Seq<u64>>,
    i: int,
)
    requires
        answers(pending, reply),
        0 <= i < preimages_in(pending, reply).len(),
    ensures
        resume_spec(pending, reply, roots) matches Ok(StepView::Store { writes }) && {
            let after = apply_writes(store, writes);
            let key = keccak_key(keccak256_digest(preimages_in(pending, reply)[i]));
            &&& after.contains_key(key)
            &&& preimages_in(pending, reply).contains(after[key])
            &&& keccak_key(keccak256_digest(after[key])) == key
        },
{
    let preimages = preimages_in(pending, reply);
    let writes = resume_spec(pending, reply, roots)->Ok_0->writes;
    assert(writes =~= preimage_writes_spec(preimages));
    law_every_preimage_is_stored(store, preimages, i);
}

} // verus!
