//! What becomes of the replies that hints wait for.

use vstd::prelude::*;

use crate::blob::{blob_writes, blob_writes_spec, BlobView, BlobWithCommitmentAndProof, RootsOfUnity};
use crate::bytes::{same_word, Address, B256};
use crate::error::{Chain, HintError, HintErrorView};
use crate::outside::{decode_state_root, header_state_root, keccak256, keccak256_digest};
use crate::output_root::{output_root_preimage, OutputRoot};
use crate::preimage::{
    keccak_key, preimage_key, write_views, KvWrite, PreimageKey, PreimageKeyType,
};
use crate::step::{
    byte_strings, outcome, words, AccountProof, AccountProofView, BlockId, BlockIdView,
    ExecutionWitness, Pending, PendingView, Request, RequestView, Step, StepView, WitnessView,
};

verus! {

/// Storing `value` as the preimage of `hash`.
pub open spec fn store_preimage_spec(hash: Seq<u8>, value: Seq<u8>) -> StepView {
    StepView::Store { writes: seq![(keccak_key(hash), value)] }
}

/// Stores `value`, a header, a trie node or contract code, as the preimage of `hash`.
pub fn store_preimage(hash: B256, value: Vec<u8>) -> (step: Step)
    ensures
        step@ == store_preimage_spec(hash@, value@),
{
    let mut writes: Vec<KvWrite> = Vec::new();
    writes.push(KvWrite::new(PreimageKey::new_keccak256(hash), value));
    assert(write_views(writes@) =~= seq![(keccak_key(hash@), value@)]);
    Step::Store { writes }
}

/// Storing a block's transactions, if there is such a block.
pub open spec fn store_transactions_spec(
    chain: Chain,
    transactions: Option<Seq<Seq<u8>>>,
) -> Result<StepView, HintErrorView> {
    match transactions {
        Some(values) => Ok(StepView::StoreOrderedTrie { values }),
        None => Err(HintErrorView::BlockNotFound { chain }),
    }
}

/// Stores a block's transactions as an ordered trie; fails if the chain has no such block.
pub fn store_transactions(chain: Chain, transactions: Option<Vec<Vec<u8>>>) -> (result: Result<
    Step,
    HintError,
>)
    ensures
        outcome(result) == store_transactions_spec(
            chain,
            match transactions {
                Some(list) => Some(byte_strings(list@)),
                None => None,
            },
        ),
{
    match transactions {
        Some(values) => Ok(Step::StoreOrderedTrie { values }),
        None => Err(HintError::BlockNotFound { chain }),
    }
}

/// Storing the one blob asked for.
pub open spec fn store_blob_spec(
    hash: Seq<u8>,
    blobs: Seq<BlobView>,
    roots: Seq<Seq<u64>>,
) -> Result<StepView, HintErrorView> {
    if blobs.len() == 1 {
        Ok(StepView::Store { writes: blob_writes_spec(hash, blobs[0], roots) })
    } else {
        Err(HintErrorView::BlobCount { got: blobs.len() })
    }
}

/// Stores the commitment, the field elements and the proof of the one blob asked for; fails if
/// there is not exactly one.
pub fn store_blob(hash: B256, blobs: &Vec<BlobWithCommitmentAndProof>, roots: &RootsOfUnity) -> (
    result: Result<Step, HintError>)
    ensures
        outcome(result) == store_blob_spec(
            hash@,
            blobs@.map_values(|blob: BlobWithCommitmentAndProof| blob@),
            roots@,
        ),
{
    if blobs.len() != 1 {
        return Err(HintError::BlobCount { got: blobs.len() });
    }
    Ok(Step::Store { writes: blob_writes(hash, &blobs[0], roots) })
}

/// How a precompile's outcome is stored: the byte 1 and the output, or the byte 0 alone.
pub open spec fn precompile_result(output: Option<Seq<u8>>) -> Seq<u8> {
    match output {
        Some(bytes) => seq![1u8] + bytes,
        None => seq![0u8],
    }
}

/// The writes for a precompile call: the hint's data as the preimage of its digest, and the
/// result under the same digest.
pub open spec fn precompile_writes_spec(
    digest: Seq<u8>,
    data: Seq<u8>,
    output: Option<Seq<u8>>,
) -> Seq<(Seq<u8>, Seq<u8>)> {
    seq![
        (keccak_key(digest), data),
        (preimage_key(PreimageKeyType::Precompile, digest), precompile_result(output)),
    ]
}

/// Storing a precompile call and its outcome.
pub open spec fn store_precompile_spec(data: Seq<u8>, output: Option<Seq<u8>>) -> StepView {
    StepView::Store { writes: precompile_writes_spec(keccak256_digest(data), data, output) }
}

/// The contents of a precompile's output, if there is one.
pub open spec fn output_bytes(output: Option<Vec<u8>>) -> Option<Seq<u8>> {
    match output {
        Some(bytes) => Some(bytes@),
        None => None,
    }
}

/// The writes for a precompile call whose data has the digest `digest`.
pub fn precompile_writes(digest: B256, data: Vec<u8>, output: Option<Vec<u8>>) -> (writes: Vec<
    KvWrite,
>)
    ensures
        write_views(writes@) == precompile_writes_spec(digest@, data@, output_bytes(output)),
{
    let mut result: Vec<u8> = Vec::new();
    match output {
        Some(mut bytes) => {
            result.push(1);
            result.append(&mut bytes);
        },
        None => {
            result.push(0);
        },
    }
    assert(result@ =~= precompile_result(output_bytes(output)));
    let mut writes: Vec<KvWrite> = Vec::new();
    writes.push(KvWrite::new(PreimageKey::new_keccak256(digest), data));
    writes.push(KvWrite::new(PreimageKey::new(digest, PreimageKeyType::Precompile), result));
    assert(write_views(writes@) =~= precompile_writes_spec(digest@, data@, output_bytes(output)));
    writes
}

/// Stores a precompile call and its outcome.
pub fn store_precompile(data: Vec<u8>, output: Option<Vec<u8>>) -> (step: Step)
    ensures
        step@ == store_precompile_spec(data@, output_bytes(output)),
{
    let digest = keccak256(data.as_slice());
    Step::Store { writes: precompile_writes(digest, data, output) }
}

/// The address of the `L2ToL1MessagePasser` predeploy, `0x4200...0016`.
pub open spec fn message_passer() -> Seq<u8> {
    Seq::new(
        20,
        |i: int|
            if i == 0 {
                0x42u8
            } else if i == 19 {
                0x16u8
            } else {
                0u8
            },
    )
}

/// What follows from decoding the agreed L2 head's header.
pub open spec fn output_proof_request_spec(
    state_root: Result<Seq<u8>, alloy_rlp::Error>,
    head_hash: Seq<u8>,
    output_root: Seq<u8>,
) -> Result<StepView, HintErrorView> {
    match state_root {
        Ok(state_root) => Ok(
            StepView::Ask {
                request: RequestView::Proof {
                    address: message_passer(),
                    slots: Seq::empty(),
                    block: BlockIdView::Hash(head_hash),
                },
                pending: PendingView::OutputProof { state_root, head_hash, output_root },
            },
        ),
        Err(e) => Err(HintErrorView::Header(e)),
    }
}

/// The bytes of a state root, or the error in its place.
pub open spec fn root_view(state_root: Result<B256, alloy_rlp::Error>) -> Result<
    Seq<u8>,
    alloy_rlp::Error,
> {
    match state_root {
        Ok(root) => Ok(root@),
        Err(e) => Err(e),
    }
}

/// Asks for the proof of the message passer's account at the agreed L2 head, whose header has
/// the given state root.
pub fn output_proof_request(
    state_root: Result<B256, alloy_rlp::Error>,
    head_hash: B256,
    output_root: B256,
) -> (result: Result<Step, HintError>)
    ensures
        outcome(result) == output_proof_request_spec(
            root_view(state_root),
            head_hash@,
            output_root@,
        ),
{
    match state_root {
        Ok(state_root) => {
            let mut address: Address = [0u8; 20];
            address[0] = 0x42;
            address[19] = 0x16;
            assert(address@ =~= message_passer());
            let slots: Vec<B256> = Vec::new();
            assert(words(slots@) =~= Seq::empty());
            Ok(
                Step::Ask {
                    request: Request::Proof { address, slots, block: BlockId::Hash(head_hash) },
                    pending: Pending::OutputProof { state_root, head_hash, output_root },
                },
            )
        },
        Err(e) => Err(HintError::Header(e)),
    }
}

/// Reads the state root out of the agreed L2 head's header, and asks for the message passer's
/// proof.
pub fn read_output_header(raw_header: Vec<u8>, head_hash: B256, output_root: B256) -> (result:
    Result<Step, HintError>)
    ensures
        outcome(result) == output_proof_request_spec(
            header_state_root(raw_header@),
            head_hash@,
            output_root@,
        ),
{
    output_proof_request(decode_state_root(raw_header.as_slice()), head_hash, output_root)
}

/// Storing the preimage of an output root whose digest is `digest`, if that is the agreed root.
pub open spec fn checked_output_root_spec(
    digest: Seq<u8>,
    preimage: Seq<u8>,
    agreed: Seq<u8>,
) -> Result<StepView, HintErrorView> {
    if digest == agreed {
        Ok(store_preimage_spec(digest, preimage))
    } else {
        Err(HintErrorView::OutputRootMismatch)
    }
}

/// Stores the preimage of an output root whose digest is `digest`; fails if that is not the
/// agreed root.
pub fn checked_output_root(digest: B256, root: &OutputRoot, agreed: B256) -> (result: Result<
    Step,
    HintError,
>)
    ensures
        outcome(result) == checked_output_root_spec(digest@, root.preimage(), agreed@),
{
    if !same_word(&digest, &agreed) {
        return Err(HintError::OutputRootMismatch);
    }
    Ok(store_preimage(digest, root.encode()))
}

/// Recomputing the output root, and storing its preimage if it is the agreed one.
pub open spec fn store_output_root_spec(
    state_root: Seq<u8>,
    storage_hash: Seq<u8>,
    head_hash: Seq<u8>,
    agreed: Seq<u8>,
) -> Result<StepView, HintErrorView> {
    let preimage = output_root_preimage(state_root, storage_hash, head_hash);
    checked_output_root_spec(keccak256_digest(preimage), preimage, agreed)
}

/// Recomputes the output root from its parts, and stores its preimage; fails if it is not the
/// agreed root.
pub fn store_output_root(
    state_root: B256,
    storage_hash: B256,
    head_hash: B256,
    agreed: B256,
) -> (result: Result<Step, HintError>)
    ensures
        outcome(result) == store_output_root_spec(
            state_root@,
            storage_hash@,
            head_hash@,
            agreed@,
        ),
{
    let root = OutputRoot::from_parts(state_root, storage_hash, head_hash);
    checked_output_root(root.hash(), &root, agreed)
}

/// A write for each byte string: itself, as the preimage of its digest.
pub open spec fn preimage_writes_spec(preimages: Seq<Seq<u8>>) -> Seq<(Seq<u8>, Seq<u8>)> {
    preimages.map_values(|bytes: Seq<u8>| (keccak_key(keccak256_digest(bytes)), bytes))
}

/// Appends a write for each byte string: itself, as the preimage of its digest.
fn push_preimages(writes: &mut Vec<KvWrite>, preimages: Vec<Vec<u8>>)
    ensures
        write_views(final(writes)@) == write_views(old(writes)@) + preimage_writes_spec(
            byte_strings(preimages@),
        ),
{
    let ghost before = write_views(writes@);
    let ghost all = preimage_writes_spec(byte_strings(preimages@));
    for bytes in iter: preimages
        invariant
            iter.seq() == preimages@,
            before.len() + iter.index() == writes@.len(),
            all == preimage_writes_spec(byte_strings(preimages@)),
            write_views(writes@) == before + all.take(iter.index() as int),
    {
        let ghost i = iter.index() as int;
        let digest = keccak256(bytes.as_slice());
        let ghost written = writes@;
        writes.push(KvWrite::new(PreimageKey::new_keccak256(digest), bytes));
        assert(writes@.last()@ == all[i]);
        assert(write_views(writes@) =~= write_views(written).push(all[i]));
        assert(write_views(writes@) =~= before + all.take(i + 1));
    }
    assert(all.take(preimages@.len() as int) =~= all);
}

/// Storing the nodes of an account's proof.
pub open spec fn store_account_proof_spec(proof: AccountProofView) -> StepView {
    StepView::Store { writes: preimage_writes_spec(proof.account_proof) }
}

/// Stores each node of an account's proof.
pub fn store_account_proof(proof: AccountProof) -> (step: Step)
    ensures
        step@ == store_account_proof_spec(proof@),
{
    let mut writes: Vec<KvWrite> = Vec::new();
    push_preimages(&mut writes, proof.account_proof);
    assert(write_views(writes@) =~= preimage_writes_spec(proof@.account_proof));
    Step::Store { writes }
}

/// Storing the nodes of an account's proof, then those of its first storage slot's proof.
pub open spec fn store_storage_proof_spec(proof: AccountProofView) -> StepView {
    StepView::Store {
        writes: preimage_writes_spec(proof.account_proof) + preimage_writes_spec(
            proof.storage_proof[0],
        ),
    }
}

/// Stores each node of an account's proof and of the proof of the storage slot asked for.
pub fn store_storage_proof(proof: AccountProof) -> (step: Step)
    requires
        proof.storage_proof@.len() > 0,
    ensures
        step@ == store_storage_proof_spec(proof@),
{
    let mut writes: Vec<KvWrite> = Vec::new();
    let mut slots = proof.storage_proof;
    push_preimages(&mut writes, proof.account_proof);
    push_preimages(&mut writes, slots.remove(0));
    assert(write_views(writes@) =~= preimage_writes_spec(proof@.account_proof)
        + preimage_writes_spec(proof@.storage_proof[0]));
    Step::Store { writes }
}

/// Storing the preimages of a witness: state nodes, then codes, then keys.
pub open spec fn store_witness_spec(witness: WitnessView) -> StepView {
    StepView::Store {
        writes: preimage_writes_spec(witness.state) + preimage_writes_spec(witness.codes)
            + preimage_writes_spec(witness.keys),
    }
}

/// Stores all preimages of an execution witness.
pub fn store_witness(witness: ExecutionWitness) -> (step: Step)
    ensures
        step@ == store_witness_spec(witness@),
{
    let mut writes: Vec<KvWrite> = Vec::new();
    push_preimages(&mut writes, witness.state);
    push_preimages(&mut writes, witness.codes);
    push_preimages(&mut writes, witness.keys);
    assert(write_views(writes@) =~= preimage_writes_spec(witness@.state) + preimage_writes_spec(
        witness@.codes,
    ) + preimage_writes_spec(witness@.keys));
    Step::Store { writes }
}

/// The views of a precompile's output and of a decoded state root keep what there is, whatever
/// it holds.
pub proof fn law_reply_parts_are_kept(bytes: Vec<u8>, root: B256, e: alloy_rlp::Error)
    ensures
        output_bytes(Some(bytes)) == Some(bytes@),
        output_bytes(None) is None,
        precompile_result(Some(bytes@)) == seq![1u8] + bytes@,
        precompile_result(None) == seq![0u8],
        root_view(Ok(root)) == Ok::<Seq<u8>, alloy_rlp::Error>(root@),
        root_view(Err(e)) == Err::<Seq<u8>, alloy_rlp::Error>(e),
{
}

} // verus!
