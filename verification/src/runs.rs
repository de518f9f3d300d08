//! What holds of each hint from its data to the bytes that end up in the store: which request
//! the data spells, and which entries the reply becomes.

use op_alloy_rpc_types_engine::OpPayloadAttributes;
use vstd::prelude::*;

use crate::blob::{
    blob_writes_spec, law_blob_write_list, law_root_bytes, law_slot_key_layout, slot_key,
    slot_value, BlobView,
};
use crate::bytes::{be_value, law_be_bytes_of_be_value};
use crate::error::{Chain, HintErrorView, RpcError};
use crate::handler::{fetch_hint_spec, resume_spec, HintType, SingleChainHost};
use crate::hint::{
    account_proof_spec, bare_code_spec, blob_hint, blob_spec, block_header_spec, code_spec,
    payload_request_spec, payload_witness_spec, precompile_spec, receipts_spec,
    starting_output_spec, state_node_spec, storage_proof_spec, transactions_spec,
};
use crate::laws::law_blob_reads_back;
use crate::outside::{
    header_state_root, keccak256_digest, limbs_value, parsed_payload_attributes,
};
use crate::output_root::{law_output_root_layout, output_root_preimage};
use crate::preimage::{apply_writes, keccak_key, law_key_layout};
use crate::reply::{
    checked_output_root_spec, message_passer, output_proof_request_spec, precompile_writes_spec,
    preimage_writes_spec, store_account_proof_spec, store_blob_spec, store_output_root_spec,
    store_precompile_spec, store_preimage_spec, store_storage_proof_spec, store_transactions_spec,
    store_witness_spec,
};
use crate::step::{
    AccountProofView, BlockIdView, PendingView, ReplyView, RequestView, SkipReason, StepView,
    WitnessView,
};

verus! {

/// A header or state node hint asks for the hash that is its data, to store the reply under it.
pub proof fn law_header_and_node_requests(hash: Seq<u8>, cfg: SingleChainHost)
    requires
        hash.len() == 32,
    ensures
        fetch_hint_spec(HintType::L1BlockHeader, hash, cfg) == Ok::<StepView, HintErrorView>(
            StepView::Ask {
                request: RequestView::RawHeader { chain: Chain::L1, hash },
                pending: PendingView::Preimage { hash },
            },
        ),
        fetch_hint_spec(HintType::L2BlockHeader, hash, cfg) == Ok::<StepView, HintErrorView>(
            StepView::Ask {
                request: RequestView::RawHeader { chain: Chain::L2, hash },
                pending: PendingView::Preimage { hash },
            },
        ),
        fetch_hint_spec(HintType::L2StateNode, hash, cfg) == Ok::<StepView, HintErrorView>(
            StepView::Ask {
                request: RequestView::DbGet { key: hash },
                pending: PendingView::Preimage { hash },
            },
        ),
        block_header_spec(Chain::L1, hash) == fetch_hint_spec(HintType::L1BlockHeader, hash, cfg),
        block_header_spec(Chain::L2, hash) == fetch_hint_spec(HintType::L2BlockHeader, hash, cfg),
        state_node_spec(hash) == fetch_hint_spec(HintType::L2StateNode, hash, cfg),
{
}

/// A transactions or receipts hint asks for those of the block whose hash is its data.
pub proof fn law_block_list_requests(hash: Seq<u8>, cfg: SingleChainHost)
    requires
        hash.len() == 32,
    ensures
        fetch_hint_spec(HintType::L1Transactions, hash, cfg) == Ok::<StepView, HintErrorView>(
            StepView::Ask {
                request: RequestView::BlockTransactions { chain: Chain::L1, hash },
                pending: PendingView::Transactions { chain: Chain::L1 },
            },
        ),
        fetch_hint_spec(HintType::L2Transactions, hash, cfg) == Ok::<StepView, HintErrorView>(
            StepView::Ask {
                request: RequestView::BlockTransactions { chain: Chain::L2, hash },
                pending: PendingView::Transactions { chain: Chain::L2 },
            },
        ),
        fetch_hint_spec(HintType::L1Receipts, hash, cfg) == Ok::<StepView, HintErrorView>(
            StepView::Ask {
                request: RequestView::RawReceipts { hash },
                pending: PendingView::Receipts,
            },
        ),
        transactions_spec(Chain::L1, hash) == fetch_hint_spec(HintType::L1Transactions, hash, cfg),
        transactions_spec(Chain::L2, hash) == fetch_hint_spec(HintType::L2Transactions, hash, cfg),
        receipts_spec(hash) == fetch_hint_spec(HintType::L1Receipts, hash, cfg),
{
}

/// A code hint asks for the hash behind the byte `c`, and for the bare hash after a failure.
pub proof fn law_code_requests(
    hash: Seq<u8>,
    cfg: SingleChainHost,
    error: RpcError,
    text: Seq<char>,
    roots: Seq<Seq<u64>>,
)
    requires
        hash.len() == 32,
    ensures
        fetch_hint_spec(HintType::L2Code, hash, cfg) == Ok::<StepView, HintErrorView>(
            StepView::Ask {
                request: RequestView::DbGet { key: seq![0x63u8] + hash },
                pending: PendingView::PrefixedCode { hash },
            },
        ),
        code_spec(hash) == fetch_hint_spec(HintType::L2Code, hash, cfg),
        resume_spec(
            PendingView::PrefixedCode { hash },
            ReplyView::Failed { error, text },
            roots,
        ) == Ok::<StepView, HintErrorView>(
            StepView::Ask {
                request: RequestView::DbGet { key: hash },
                pending: PendingView::BareCode { hash },
            },
        ),
        bare_code_spec(hash) == (StepView::Ask {
            request: RequestView::DbGet { key: hash },
            pending: PendingView::BareCode { hash },
        }),
{
}

/// A blob hint asks for the blob whose hash and timestamp it spells. Between the two, the
/// longer format has eight bytes that change nothing.
pub proof fn law_blob_request(
    hash: Seq<u8>,
    index: Seq<u8>,
    timestamp: Seq<u8>,
    cfg: SingleChainHost,
)
    requires
        hash.len() == 32,
        index.len() == 8,
        timestamp.len() == 8,
    ensures
        fetch_hint_spec(HintType::L1Blob, hash + timestamp, cfg) == Ok::<StepView, HintErrorView>(
            StepView::Ask {
                request: RequestView::Blobs { hash, timestamp: be_value(timestamp) },
                pending: PendingView::Blob { hash },
            },
        ),
        fetch_hint_spec(HintType::L1Blob, hash + index + timestamp, cfg) == fetch_hint_spec(
            HintType::L1Blob,
            hash + timestamp,
            cfg,
        ),
        blob_spec(hash + timestamp) == fetch_hint_spec(HintType::L1Blob, hash + timestamp, cfg),
        blob_spec(hash + index + timestamp) == blob_spec(hash + timestamp),
        blob_hint(hash + timestamp) == Some((hash, be_value(timestamp))),
        blob_hint(hash + index + timestamp) == Some((hash, be_value(timestamp))),
{
    let short = hash + timestamp;
    let long = hash + index + timestamp;
    assert(short.subrange(0, 32) =~= hash);
    assert(short.subrange(32, 40) =~= timestamp);
    assert(long.subrange(0, 32) =~= hash);
    assert(long.subrange(40, 48) =~= timestamp);
}

/// A precompile hint asks for the call whose address, gas and input it spells.
pub proof fn law_precompile_request(
    address: Seq<u8>,
    gas: Seq<u8>,
    input: Seq<u8>,
    cfg: SingleChainHost,
)
    requires
        address.len() == 20,
        gas.len() == 8,
    ensures
        fetch_hint_spec(HintType::L1Precompile, address + gas + input, cfg) == Ok::<
            StepView,
            HintErrorView,
        >(
            StepView::Ask {
                request: RequestView::Precompile { address, gas: be_value(gas), input },
                pending: PendingView::Precompile { data: address + gas + input },
            },
        ),
        precompile_spec(address + gas + input) == fetch_hint_spec(
            HintType::L1Precompile,
            address + gas + input,
            cfg,
        ),
{
    let data = address + gas + input;
    assert(data.subrange(0, 20) =~= address);
    assert(data.subrange(20, 28) =~= gas);
    assert(data.skip(28) =~= input);
}

/// A proof hint asks for the account, and the slot if there is one, at the block whose number
/// it spells.
pub proof fn law_proof_requests(
    number: Seq<u8>,
    address: Seq<u8>,
    slot: Seq<u8>,
    cfg: SingleChainHost,
)
    requires
        number.len() == 8,
        address.len() == 20,
        slot.len() == 32,
    ensures
        fetch_hint_spec(HintType::L2AccountProof, number + address, cfg) == Ok::<
            StepView,
            HintErrorView,
        >(
            StepView::Ask {
                request: RequestView::Proof {
                    address,
                    slots: Seq::empty(),
                    block: BlockIdView::Number(be_value(number)),
                },
                pending: PendingView::AccountProof,
            },
        ),
        fetch_hint_spec(HintType::L2AccountStorageProof, number + address + slot, cfg) == Ok::<
            StepView,
            HintErrorView,
        >(
            StepView::Ask {
                request: RequestView::Proof {
                    address,
                    slots: seq![slot],
                    block: BlockIdView::Number(be_value(number)),
                },
                pending: PendingView::StorageProof,
            },
        ),
        account_proof_spec(number + address) == fetch_hint_spec(
            HintType::L2AccountProof,
            number + address,
            cfg,
        ),
        storage_proof_spec(number + address + slot) == fetch_hint_spec(
            HintType::L2AccountStorageProof,
            number + address + slot,
            cfg,
        ),
{
    let account = number + address;
    let storage = account + slot;
    assert(account.subrange(0, 8) =~= number);
    assert(account.subrange(8, 28) =~= address);
    assert(storage.subrange(0, 8) =~= number);
    assert(storage.subrange(8, 28) =~= address);
    assert(storage.subrange(28, 60) =~= slot);
}

/// A starting output hint asks for the header of the agreed head, and goes on with that head
/// and the agreed output root, whatever word its data is.
pub proof fn law_starting_output_request(word: Seq<u8>, cfg: SingleChainHost)
    requires
        word.len() == 32,
    ensures
        fetch_hint_spec(HintType::StartingL2Output, word, cfg) == Ok::<StepView, HintErrorView>(
            StepView::Ask {
                request: RequestView::RawHeader {
                    chain: Chain::L2,
                    hash: cfg.agreed_l2_head_hash@,
                },
                pending: PendingView::OutputHeader {
                    head_hash: cfg.agreed_l2_head_hash@,
                    output_root: cfg.agreed_l2_output_root@,
                },
            },
        ),
        starting_output_spec(word, cfg.agreed_l2_head_hash@, cfg.agreed_l2_output_root@)
            == fetch_hint_spec(HintType::StartingL2Output, word, cfg),
{
}

/// A payload witness hint asks for the attributes in its JSON to be executed on the parent in
/// front of it, and waits for the witness. JSON that holds no attributes is refused with the
/// parser's error, and a host that has witnesses switched off skips the hint.
pub proof fn law_payload_witness_request(parent: Seq<u8>, json: Seq<u8>, cfg: SingleChainHost)
    requires
        parent.len() == 32,
    ensures
        cfg.enable_experimental_witness_endpoint ==> match parsed_payload_attributes(json) {
            Ok(attributes) => fetch_hint_spec(HintType::L2PayloadWitness, parent + json, cfg)
                == Ok::<StepView, HintErrorView>(
                StepView::Ask {
                    request: RequestView::ExecutePayload { parent_block_hash: parent, attributes },
                    pending: PendingView::Witness,
                },
            ),
            Err(e) => fetch_hint_spec(HintType::L2PayloadWitness, parent + json, cfg) == Err::<
                StepView,
                HintErrorView,
            >(HintErrorView::PayloadAttributes(e)),
        },
        cfg.enable_experimental_witness_endpoint ==> payload_witness_spec(parent + json)
            == fetch_hint_spec(HintType::L2PayloadWitness, parent + json, cfg),
        !cfg.enable_experimental_witness_endpoint ==> fetch_hint_spec(
            HintType::L2PayloadWitness,
            parent + json,
            cfg,
        ) == Ok::<StepView, HintErrorView>(
            StepView::Skip { reason: SkipReason::WitnessDisabled },
        ),
{
    let data = parent + json;
    assert(data.subrange(0, 32) =~= parent);
    assert(data.skip(32) =~= json);
}

/// Parsed payload attributes are asked to be executed on the parent given, and the error of
/// unparsed ones is reported, whether or not a host has witnesses switched on.
pub proof fn law_payload_of_a_parent(
    parent: Seq<u8>,
    json: Seq<u8>,
    attributes: OpPayloadAttributes,
    error: serde_json::Error,
)
    requires
        parent.len() == 32,
    ensures
        payload_request_spec(parent, Ok(attributes)) == Ok::<StepView, HintErrorView>(
            StepView::Ask {
                request: RequestView::ExecutePayload { parent_block_hash: parent, attributes },
                pending: PendingView::Witness,
            },
        ),
        payload_request_spec(parent, Err(error)) == Err::<StepView, HintErrorView>(
            HintErrorView::PayloadAttributes(error),
        ),
        payload_witness_spec(parent + json) == payload_request_spec(
            parent,
            parsed_payload_attributes(json),
        ),
{
    let data = parent + json;
    assert(data.subrange(0, 32) =~= parent);
    assert(data.skip(32) =~= json);
}

/// Data of another length than the hint's format has is refused, and a blob hint's error tells
/// that length.
pub proof fn law_other_lengths_are_refused(data: Seq<u8>, chain: Chain, cfg: SingleChainHost)
    ensures
        data.len() != 32 ==> {
            let refused = Err::<StepView, HintErrorView>(HintErrorView::InvalidHintLength);
            &&& fetch_hint_spec(HintType::L1BlockHeader, data, cfg) == refused
            &&& fetch_hint_spec(HintType::L1Transactions, data, cfg) == refused
            &&& fetch_hint_spec(HintType::L1Receipts, data, cfg) == refused
            &&& fetch_hint_spec(HintType::L2BlockHeader, data, cfg) == refused
            &&& fetch_hint_spec(HintType::L2Transactions, data, cfg) == refused
            &&& fetch_hint_spec(HintType::StartingL2Output, data, cfg) == refused
            &&& fetch_hint_spec(HintType::L2Code, data, cfg) == refused
            &&& fetch_hint_spec(HintType::L2StateNode, data, cfg) == refused
            &&& block_header_spec(chain, data) == refused
            &&& transactions_spec(chain, data) == refused
            &&& receipts_spec(data) == refused
            &&& code_spec(data) == refused
            &&& state_node_spec(data) == refused
            &&& starting_output_spec(data, cfg.agreed_l2_head_hash@, cfg.agreed_l2_output_root@)
                == refused
        },
        data.len() != 40 && data.len() != 48 ==> {
            let refused = Err::<StepView, HintErrorView>(
                HintErrorView::InvalidBlobHintLength { len: data.len() },
            );
            &&& fetch_hint_spec(HintType::L1Blob, data, cfg) == refused
            &&& blob_spec(data) == refused
            &&& blob_hint(data) is None
        },
        data.len() < 28 ==> {
            let refused = Err::<StepView, HintErrorView>(HintErrorView::InvalidHintLength);
            &&& fetch_hint_spec(HintType::L1Precompile, data, cfg) == refused
            &&& precompile_spec(data) == refused
        },
        data.len() != 28 ==> {
            let refused = Err::<StepView, HintErrorView>(HintErrorView::InvalidHintLength);
            &&& fetch_hint_spec(HintType::L2AccountProof, data, cfg) == refused
            &&& account_proof_spec(data) == refused
        },
        data.len() != 60 ==> {
            let refused = Err::<StepView, HintErrorView>(HintErrorView::InvalidHintLength);
            &&& fetch_hint_spec(HintType::L2AccountStorageProof, data, cfg) == refused
            &&& storage_proof_spec(data) == refused
        },
        data.len() < 32 ==> {
            let refused = Err::<StepView, HintErrorView>(HintErrorView::InvalidHintLength);
            &&& cfg.enable_experimental_witness_endpoint ==> fetch_hint_spec(
                HintType::L2PayloadWitness,
                data,
                cfg,
            ) == refused
            &&& !cfg.enable_experimental_witness_endpoint ==> fetch_hint_spec(
                HintType::L2PayloadWitness,
                data,
                cfg,
            ) == Ok::<StepView, HintErrorView>(
                StepView::Skip { reason: SkipReason::WitnessDisabled },
            )
            &&& payload_witness_spec(data) == refused
        },
{
}

/// A header, state node or contract code is stored as it came, in one entry, under the hash
/// with its first byte replaced by 2.
pub proof fn law_preimage_entry(hash: Seq<u8>, value: Seq<u8>, roots: Seq<Seq<u64>>)
    ensures
        ({
            let stored = StepView::Store {
                writes: seq![(seq![2u8] + hash.subrange(1, 32), value)],
            };
            let bytes = ReplyView::Bytes(value);
            &&& resume_spec(PendingView::Preimage { hash }, bytes, roots) == Ok::<
                StepView,
                HintErrorView,
            >(stored)
            &&& resume_spec(PendingView::PrefixedCode { hash }, bytes, roots) == Ok::<
                StepView,
                HintErrorView,
            >(stored)
            &&& resume_spec(PendingView::BareCode { hash }, bytes, roots) == Ok::<
                StepView,
                HintErrorView,
            >(stored)
            &&& store_preimage_spec(hash, value) == stored
        }),
{
    law_key_layout(hash);
}

/// A block's transactions and receipts are stored as the ordered trie of exactly those values,
/// and a block that the chain does not have is an error of that chain.
pub proof fn law_list_entries(chain: Chain, values: Seq<Seq<u8>>, roots: Seq<Seq<u64>>)
    ensures
        resume_spec(
            PendingView::Transactions { chain },
            ReplyView::Transactions(Some(values)),
            roots,
        ) == Ok::<StepView, HintErrorView>(StepView::StoreOrderedTrie { values }),
        resume_spec(PendingView::Transactions { chain }, ReplyView::Transactions(None), roots)
            == Err::<StepView, HintErrorView>(HintErrorView::BlockNotFound { chain }),
        resume_spec(PendingView::Receipts, ReplyView::Receipts(values), roots) == Ok::<
            StepView,
            HintErrorView,
        >(StepView::StoreOrderedTrie { values }),
        store_transactions_spec(chain, Some(values)) == Ok::<StepView, HintErrorView>(
            StepView::StoreOrderedTrie { values },
        ),
        store_transactions_spec(chain, None) == Err::<StepView, HintErrorView>(
            HintErrorView::BlockNotFound { chain },
        ),
{
}

/// Any number of blobs but one is an error that tells the number; one blob becomes the entry of
/// its commitment, and two entries for each of its slots.
pub proof fn law_blob_entries(
    hash: Seq<u8>,
    blobs: Seq<BlobView>,
    roots: Seq<Seq<u64>>,
    i: int,
)
    requires
        0 <= i <= 4096,
    ensures
        ({
            let result = resume_spec(PendingView::Blob { hash }, ReplyView::Blobs(blobs), roots);
            let key = slot_key(blobs[0].commitment, roots, i);
            let tail = keccak256_digest(key).subrange(1, 32);
            &&& store_blob_spec(hash, blobs, roots) == result
            &&& blobs.len() != 1 ==> result == Err::<StepView, HintErrorView>(
                HintErrorView::BlobCount { got: blobs.len() },
            )
            &&& blobs.len() == 1 ==> {
                &&& result matches Ok(StepView::Store { writes })
                &&& writes.len() == 8195
                &&& writes[0] == (seq![4u8] + hash.subrange(1, 32), blobs[0].commitment)
                &&& writes[2 * i + 1] == (seq![2u8] + tail, key)
                &&& writes[2 * i + 2] == (seq![5u8] + tail, slot_value(blobs[0], i))
            }
        }),
{
    law_blob_write_list(hash, blobs[0], roots, i);
}

/// After a blob hint, a field element is read back under the digest of its commitment followed
/// by the 32 bytes that spell its own root of unity, those bytes are the preimage of that
/// digest, and the commitment is read back under the versioned hash. This leaves out a field
/// element whose key in the store a later slot has too.
pub proof fn law_field_element_is_read_under_its_root(
    store: Map<Seq<u8>, Seq<u8>>,
    hash: Seq<u8>,
    blob: BlobView,
    roots: Seq<Seq<u64>>,
    i: int,
    root: Seq<u8>,
)
    requires
        blob.commitment.len() == 48,
        roots.len() == 4096,
        forall|k: int| 0 <= k < 4096 ==> (#[trigger] roots[k]).len() == 4,
        0 <= i < 4096,
        root.len() == 32,
        be_value(root) == limbs_value(roots[i]),
        forall|k: int|
            i < k <= 4096 ==> keccak256_digest(
                #[trigger] slot_key(blob.commitment, roots, k),
            ).subrange(1, 32) != keccak256_digest(blob.commitment + root).subrange(1, 32),
    ensures
        resume_spec(PendingView::Blob { hash }, ReplyView::Blobs(seq![blob]), roots) matches Ok(
            StepView::Store { writes },
        ) && {
            let after = apply_writes(store, writes);
            let tail = keccak256_digest(blob.commitment + root).subrange(1, 32);
            &&& after.contains_key(seq![5u8] + tail)
            &&& after[seq![5u8] + tail] == blob.blob.subrange(32 * i, 32 * i + 32)
            &&& after.contains_key(seq![2u8] + tail)
            &&& after[seq![2u8] + tail] == blob.commitment + root
            &&& after.contains_key(seq![4u8] + hash.subrange(1, 32))
            &&& after[seq![4u8] + hash.subrange(1, 32)] == blob.commitment
        },
{
    let key = slot_key(blob.commitment, roots, i);
    law_root_bytes(roots[i], root);
    law_slot_key_layout(blob.commitment, roots, i);
    law_root_bytes(roots[i], key.subrange(48, 80));
    assert(key =~= key.subrange(0, 48) + key.subrange(48, 80));
    assert(key == blob.commitment + root);
    lemma_blob_is_read(store, hash, blob, roots, i);
}

/// After a blob hint, the proof is read back under the digest of a key that is the last field
/// element's key with the number of elements over its last eight bytes.
pub proof fn law_blob_proof_is_read(
    store: Map<Seq<u8>, Seq<u8>>,
    hash: Seq<u8>,
    blob: BlobView,
    roots: Seq<Seq<u64>>,
    root: Seq<u8>,
    count: Seq<u8>,
)
    requires
        blob.commitment.len() == 48,
        roots.len() == 4096,
        forall|k: int| 0 <= k < 4096 ==> (#[trigger] roots[k]).len() == 4,
        root.len() == 32,
        be_value(root) == limbs_value(roots[4095]),
        count.len() == 8,
        be_value(count) == 4096,
    ensures
        resume_spec(PendingView::Blob { hash }, ReplyView::Blobs(seq![blob]), roots) matches Ok(
            StepView::Store { writes },
        ) && {
            let after = apply_writes(store, writes);
            let key = blob.commitment + root.subrange(0, 24) + count;
            let tail = keccak256_digest(key).subrange(1, 32);
            &&& after.contains_key(seq![5u8] + tail)
            &&& after[seq![5u8] + tail] == blob.proof
            &&& after.contains_key(seq![2u8] + tail)
            &&& after[seq![2u8] + tail] == key
        },
{
    let key = slot_key(blob.commitment, roots, 4096);
    let last = slot_key(blob.commitment, roots, 4095);
    law_slot_key_layout(blob.commitment, roots, 4095);
    law_slot_key_layout(blob.commitment, roots, 4096);
    law_root_bytes(roots[4095], root);
    law_root_bytes(roots[4095], last.subrange(48, 80));
    law_be_bytes_of_be_value(count);
    law_be_bytes_of_be_value(key.subrange(72, 80));
    assert(key =~= key.subrange(0, 72) + key.subrange(72, 80));
    assert(last.subrange(0, 72) =~= last.subrange(0, 48) + last.subrange(48, 80).subrange(0, 24));
    assert(key == blob.commitment + root.subrange(0, 24) + count);
    lemma_blob_is_read(store, hash, blob, roots, 4096);
}

proof fn lemma_blob_is_read(
    store: Map<Seq<u8>, Seq<u8>>,
    hash: Seq<u8>,
    blob: BlobView,
    roots: Seq<Seq<u64>>,
    i: int,
)
    requires
        0 <= i <= 4096,
        forall|k: int|
            i < k <= 4096 ==> keccak256_digest(
                #[trigger] slot_key(blob.commitment, roots, k),
            ).subrange(1, 32) != keccak256_digest(slot_key(blob.commitment, roots, i)).subrange(
                1,
                32,
            ),
    ensures
        resume_spec(PendingView::Blob { hash }, ReplyView::Blobs(seq![blob]), roots) == Ok::<
            StepView,
            HintErrorView,
        >(StepView::Store { writes: blob_writes_spec(hash, blob, roots) }),
        ({
            let after = apply_writes(store, blob_writes_spec(hash, blob, roots));
            let key = slot_key(blob.commitment, roots, i);
            let tail = keccak256_digest(key).subrange(1, 32);
            &&& after.contains_key(seq![4u8] + hash.subrange(1, 32))
            &&& after[seq![4u8] + hash.subrange(1, 32)] == blob.commitment
            &&& after.contains_key(seq![2u8] + tail)
            &&& after[seq![2u8] + tail] == key
            &&& after.contains_key(seq![5u8] + tail)
            &&& after[seq![5u8] + tail] == slot_value(blob, i)
        }),
{
    let digest = keccak256_digest(slot_key(blob.commitment, roots, i));
    assert forall|k: int| i < k <= 4096 implies keccak_key(
        keccak256_digest(#[trigger] slot_key(blob.commitment, roots, k)),
    ) != keccak_key(digest) by {
        let other = keccak256_digest(slot_key(blob.commitment, roots, k));
        law_key_layout(other);
        law_key_layout(digest);
        assert(keccak_key(other).skip(1) =~= other.subrange(1, 32));
        assert(keccak_key(digest).skip(1) =~= digest.subrange(1, 32));
    }
    law_blob_reads_back(store, hash, blob, roots, i);
    law_key_layout(hash);
    law_key_layout(digest);
}

/// Whatever a precompile gave back, it is stored whole: under the digest of the hint's data,
/// the data is found as the preimage, and as the result the byte 1 and the output, or the byte
/// 0 alone if the call failed.
pub proof fn law_precompile_outcome_is_read(
    store: Map<Seq<u8>, Seq<u8>>,
    data: Seq<u8>,
    output: Seq<u8>,
    roots: Seq<Seq<u64>>,
)
    ensures
        ({
            let tail = keccak256_digest(data).subrange(1, 32);
            let pending = PendingView::Precompile { data };
            &&& resume_spec(pending, ReplyView::Precompile(Some(output)), roots) matches Ok(
                StepView::Store { writes },
            )
            &&& writes.len() == 2
            &&& apply_writes(store, writes) == store.insert(seq![2u8] + tail, data).insert(
                seq![6u8] + tail,
                seq![1u8] + output,
            )
            &&& store_precompile_spec(data, Some(output)) == (StepView::Store { writes })
        }),
        ({
            let tail = keccak256_digest(data).subrange(1, 32);
            let pending = PendingView::Precompile { data };
            &&& resume_spec(pending, ReplyView::Precompile(None), roots) matches Ok(
                StepView::Store { writes },
            )
            &&& writes.len() == 2
            &&& apply_writes(store, writes) == store.insert(seq![2u8] + tail, data).insert(
                seq![6u8] + tail,
                seq![0u8],
            )
            &&& store_precompile_spec(data, None) == (StepView::Store { writes })
        }),
{
    let digest = keccak256_digest(data);
    law_precompile_writes(store, digest, data, output);
}

/// The writes of a precompile call whose data has a given digest set exactly two entries.
pub proof fn law_precompile_writes(
    store: Map<Seq<u8>, Seq<u8>>,
    digest: Seq<u8>,
    data: Seq<u8>,
    output: Seq<u8>,
)
    ensures
        apply_writes(store, precompile_writes_spec(digest, data, Some(output))) == store.insert(
            seq![2u8] + digest.subrange(1, 32),
            data,
        ).insert(seq![6u8] + digest.subrange(1, 32), seq![1u8] + output),
        apply_writes(store, precompile_writes_spec(digest, data, None)) == store.insert(
            seq![2u8] + digest.subrange(1, 32),
            data,
        ).insert(seq![6u8] + digest.subrange(1, 32), seq![0u8]),
        precompile_writes_spec(digest, data, Some(output)).len() == 2,
        precompile_writes_spec(digest, data, None).len() == 2,
{
    law_key_layout(digest);
    let some = precompile_writes_spec(digest, data, Some(output));
    let none = precompile_writes_spec(digest, data, None);
    reveal_with_fuel(apply_writes, 4);
    assert(some.drop_last().drop_last().len() == 0);
    assert(none.drop_last().drop_last().len() == 0);
}

/// A header that decodes leads to the proof of the message passer, the account `0x42`, eighteen
/// zero bytes and `0x16`, at the head; one that does not is an error.
pub proof fn law_message_passer_request(
    raw_header: Seq<u8>,
    passer: Seq<u8>,
    head_hash: Seq<u8>,
    output_root: Seq<u8>,
    roots: Seq<Seq<u64>>,
)
    requires
        passer.len() == 20,
        passer[0] == 0x42,
        forall|k: int| 0 < k < 19 ==> passer[k] == 0,
        passer[19] == 0x16,
    ensures
        ({
            let result = resume_spec(
                PendingView::OutputHeader { head_hash, output_root },
                ReplyView::Bytes(raw_header),
                roots,
            );
            &&& result == output_proof_request_spec(
                header_state_root(raw_header),
                head_hash,
                output_root,
            )
            &&& match header_state_root(raw_header) {
                Ok(state_root) => result == Ok::<StepView, HintErrorView>(
                    StepView::Ask {
                        request: RequestView::Proof {
                            address: passer,
                            slots: Seq::empty(),
                            block: BlockIdView::Hash(head_hash),
                        },
                        pending: PendingView::OutputProof { state_root, head_hash, output_root },
                    },
                ),
                Err(e) => result == Err::<StepView, HintErrorView>(HintErrorView::Header(e)),
            }
        }),
{
    assert(passer =~= message_passer());
}

/// The same of a state root that is given, decoded or not.
pub proof fn law_message_passer_request_for_a_root(
    state_root: Seq<u8>,
    error: alloy_rlp::Error,
    passer: Seq<u8>,
    head_hash: Seq<u8>,
    output_root: Seq<u8>,
)
    requires
        passer.len() == 20,
        passer[0] == 0x42,
        forall|k: int| 0 < k < 19 ==> passer[k] == 0,
        passer[19] == 0x16,
    ensures
        output_proof_request_spec(Ok(state_root), head_hash, output_root) == Ok::<
            StepView,
            HintErrorView,
        >(
            StepView::Ask {
                request: RequestView::Proof {
                    address: passer,
                    slots: Seq::empty(),
                    block: BlockIdView::Hash(head_hash),
                },
                pending: PendingView::OutputProof { state_root, head_hash, output_root },
            },
        ),
        output_proof_request_spec(Err(error), head_hash, output_root) == Err::<
            StepView,
            HintErrorView,
        >(HintErrorView::Header(error)),
{
    assert(passer =~= message_passer());
}

/// The proof of the message passer completes an output root's preimage: a zero word, the state
/// root, the storage root in the proof and the head's hash. It is stored under the agreed root
/// if it hashes to it, and is an error otherwise.
pub proof fn law_output_root_is_stored_if_agreed(
    preimage: Seq<u8>,
    found: AccountProofView,
    agreed: Seq<u8>,
    roots: Seq<Seq<u64>>,
)
    requires
        preimage.len() == 128,
        forall|k: int| 0 <= k < 32 ==> preimage[k] == 0,
        found.storage_hash == preimage.subrange(64, 96),
    ensures
        ({
            let state_root = preimage.subrange(32, 64);
            let head_hash = preimage.subrange(96, 128);
            let result = resume_spec(
                PendingView::OutputProof { state_root, head_hash, output_root: agreed },
                ReplyView::Proof(found),
                roots,
            );
            &&& store_output_root_spec(state_root, found.storage_hash, head_hash, agreed) == result
            &&& keccak256_digest(preimage) == agreed ==> result == Ok::<StepView, HintErrorView>(
                StepView::Store {
                    writes: seq![(seq![2u8] + agreed.subrange(1, 32), preimage)],
                },
            )
            &&& keccak256_digest(preimage) != agreed ==> result == Err::<StepView, HintErrorView>(
                HintErrorView::OutputRootMismatch,
            )
        }),
{
    let s = preimage.subrange(32, 64);
    let b = preimage.subrange(64, 96);
    let h = preimage.subrange(96, 128);
    law_output_root_layout(s, b, h);
    let spelled = output_root_preimage(s, b, h);
    assert forall|k: int| 0 <= k < 128 implies spelled[k] == preimage[k] by {
        if 32 <= k < 64 {
            assert(spelled.subrange(32, 64)[k - 32] == s[k - 32]);
        } else if 64 <= k < 96 {
            assert(spelled.subrange(64, 96)[k - 64] == b[k - 64]);
        } else if 96 <= k {
            assert(spelled.subrange(96, 128)[k - 96] == h[k - 96]);
        }
    }
    assert(spelled =~= preimage);
    law_key_layout(agreed);
}

/// The preimage of an output root is stored under its digest if that is the agreed root, and
/// refused otherwise.
pub proof fn law_agreed_digest_is_stored(digest: Seq<u8>, preimage: Seq<u8>, agreed: Seq<u8>)
    ensures
        digest == agreed ==> checked_output_root_spec(digest, preimage, agreed) == Ok::<
            StepView,
            HintErrorView,
        >(StepView::Store { writes: seq![(seq![2u8] + agreed.subrange(1, 32), preimage)] }),
        digest != agreed ==> checked_output_root_spec(digest, preimage, agreed) == Err::<
            StepView,
            HintErrorView,
        >(HintErrorView::OutputRootMismatch),
{
    law_key_layout(digest);
}

/// The nodes of an account's proof become one entry each, in order, under their digests; so do
/// those of an account's proof followed by those of the first slot's; and the state nodes,
/// codes and keys of a witness, in this order.
pub proof fn law_proof_and_witness_entries(
    found: AccountProofView,
    witness: WitnessView,
    roots: Seq<Seq<u64>>,
    i: int,
)
    requires
        0 <= i,
    ensures
        ({
            let result = resume_spec(PendingView::AccountProof, ReplyView::Proof(found), roots);
            let nodes = found.account_proof;
            &&& result matches Ok(StepView::Store { writes })
            &&& store_account_proof_spec(found) == (StepView::Store { writes })
            &&& writes.len() == nodes.len()
            &&& i < nodes.len() ==> writes[i] == (
                seq![2u8] + keccak256_digest(nodes[i]).subrange(1, 32),
                nodes[i],
            )
        }),
        ({
            let result = resume_spec(PendingView::StorageProof, ReplyView::Proof(found), roots);
            let nodes = found.account_proof + found.storage_proof[0];
            &&& result matches Ok(StepView::Store { writes })
            &&& store_storage_proof_spec(found) == (StepView::Store { writes })
            &&& writes.len() == nodes.len()
            &&& i < nodes.len() ==> writes[i] == (
                seq![2u8] + keccak256_digest(nodes[i]).subrange(1, 32),
                nodes[i],
            )
        }),
        ({
            let result = resume_spec(PendingView::Witness, ReplyView::Witness(witness), roots);
            let nodes = witness.state + witness.codes + witness.keys;
            &&& result matches Ok(StepView::Store { writes })
            &&& store_witness_spec(witness) == (StepView::Store { writes })
            &&& writes.len() == nodes.len()
            &&& i < nodes.len() ==> writes[i] == (
                seq![2u8] + keccak256_digest(nodes[i]).subrange(1, 32),
                nodes[i],
            )
        }),
{
    let storage = found.account_proof + found.storage_proof[0];
    let all = witness.state + witness.codes + witness.keys;
    if i < found.account_proof.len() {
        law_preimage_entries(found.account_proof, i);
    }
    assert(preimage_writes_spec(found.account_proof) + preimage_writes_spec(found.storage_proof[0])
        =~= preimage_writes_spec(storage));
    if i < storage.len() {
        law_preimage_entries(storage, i);
    }
    assert(preimage_writes_spec(witness.state) + preimage_writes_spec(witness.codes)
        + preimage_writes_spec(witness.keys) =~= preimage_writes_spec(all));
    if i < all.len() {
        law_preimage_entries(all, i);
    }
}

/// Each byte string becomes one entry, in order: itself, under its digest with the first byte
/// replaced by 2.
pub proof fn law_preimage_entries(preimages: Seq<Seq<u8>>, i: int)
    requires
        0 <= i < preimages.len(),
    ensures
        preimage_writes_spec(preimages).len() == preimages.len(),
        preimage_writes_spec(preimages)[i] == (
            seq![2u8] + keccak256_digest(preimages[i]).subrange(1, 32),
            preimages[i],
        ),
{
    law_key_layout(keccak256_digest(preimages[i]));
}

/// The failure of a call ends the hint with the text of the error, unless there is another
/// lookup to try or the hint can do without.
pub proof fn law_failures_are_reported(
    chain: Chain,
    hash: Seq<u8>,
    state_root: Seq<u8>,
    output_root: Seq<u8>,
    error: RpcError,
    text: Seq<char>,
    roots: Seq<Seq<u64>>,
)
    ensures
        ({
            let failed = ReplyView::Failed { error, text };
            let reported = Err::<StepView, HintErrorView>(HintErrorView::Rpc { text });
            let header = PendingView::OutputHeader { head_hash: hash, output_root };
            let proved = PendingView::OutputProof { state_root, head_hash: hash, output_root };
            &&& resume_spec(PendingView::Preimage { hash }, failed, roots) == reported
            &&& resume_spec(PendingView::Transactions { chain }, failed, roots) == reported
            &&& resume_spec(PendingView::Receipts, failed, roots) == reported
            &&& resume_spec(header, failed, roots) == reported
            &&& resume_spec(proved, failed, roots) == reported
            &&& resume_spec(PendingView::AccountProof, failed, roots) == reported
            &&& resume_spec(PendingView::StorageProof, failed, roots) == reported
            &&& resume_spec(PendingView::BareCode { hash }, failed, roots) == Err::<
                StepView,
                HintErrorView,
            >(HintErrorView::CodeFetch { text })
            &&& resume_spec(PendingView::Blob { hash }, ReplyView::BlobsFailed { text }, roots)
                == Err::<StepView, HintErrorView>(HintErrorView::BlobFetch { text })
        }),
{
}

/// A witness that could not be had is skipped, and the reason tells whether the server answered
/// with the code -32601.
pub proof fn law_skipped_witness_tells_why(error: RpcError, text: Seq<char>, roots: Seq<Seq<u64>>)
    ensures
        resume_spec(PendingView::Witness, ReplyView::Failed { error, text }, roots) == Ok::<
            StepView,
            HintErrorView,
        >(
            StepView::Skip {
                reason: SkipReason::WitnessUnavailable {
                    method_not_found: match error {
                        RpcError::ErrorResp(payload) => payload.code == -32601,
                        _ => false,
                    },
                },
            },
        ),
{
}

} // verus!
