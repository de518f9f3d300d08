//! The hint handler of a host that runs a single chain.

use vstd::pervasive::unreached;
use vstd::prelude::*;

use crate::blob::RootsOfUnity;
use crate::bytes::B256;
use crate::error::{
    error_code, is_rpc_method_not_found, Chain, HintError, HintErrorView, METHOD_NOT_FOUND,
};
use crate::hint;
use crate::outside::header_state_root;
use crate::reply;
use crate::step::{
    answers, outcome, Pending, PendingView, Reply, ReplyView, SkipReason, Step, StepView,
};

verus! {

/// The kinds of hints.
#[derive(Clone, Copy, Debug, PartialEq, Eq, Structural)]
pub enum HintType {
    L1BlockHeader,
    L1Transactions,
    L1Receipts,
    L1Blob,
    L1Precompile,
    L2BlockHeader,
    L2Transactions,
    StartingL2Output,
    L2Code,
    L2StateNode,
    L2AccountProof,
    L2AccountStorageProof,
    L2PayloadWitness,
}

/// A hint: its kind, and data in that kind's format.
#[derive(Debug)]
pub struct Hint {
    pub ty: HintType,
    pub data: Vec<u8>,
}

/// The part of the host's configuration that hints depend on.
#[derive(Clone, Copy, Debug)]
pub struct SingleChainHost {
    /// The hash of the agreed L2 head.
    pub agreed_l2_head_hash: B256,
    /// The output root of the agreed L2 head.
    pub agreed_l2_output_root: B256,
    /// Whether payload witnesses are fetched.
    pub enable_experimental_witness_endpoint: bool,
}

/// The first step for a hint of type `ty` with this data.
pub open spec fn fetch_hint_spec(
    ty: HintType,
    data: Seq<u8>,
    cfg: SingleChainHost,
) -> Result<StepView, HintErrorView> {
    match ty {
        HintType::L1BlockHeader => hint::block_header_spec(Chain::L1, data),
        HintType::L1Transactions => hint::transactions_spec(Chain::L1, data),
        HintType::L1Receipts => hint::receipts_spec(data),
        HintType::L1Blob => hint::blob_spec(data),
        HintType::L1Precompile => hint::precompile_spec(data),
        HintType::L2BlockHeader => hint::block_header_spec(Chain::L2, data),
        HintType::L2Transactions => hint::transactions_spec(Chain::L2, data),
        HintType::StartingL2Output => hint::starting_output_spec(
            data,
            cfg.agreed_l2_head_hash@,
            cfg.agreed_l2_output_root@,
        ),
        HintType::L2Code => hint::code_spec(data),
        HintType::L2StateNode => hint::state_node_spec(data),
        HintType::L2AccountProof => hint::account_proof_spec(data),
        HintType::L2AccountStorageProof => hint::storage_proof_spec(data),
        HintType::L2PayloadWitness => if cfg.enable_experimental_witness_endpoint {
            hint::payload_witness_spec(data)
        } else {
            Ok(StepView::Skip { reason: SkipReason::WitnessDisabled })
        },
    }
}

/// The step that follows the reply to what `pending` waits for.
pub open spec fn resume_spec(
    pending: PendingView,
    reply: ReplyView,
    roots: Seq<Seq<u64>>,
) -> Result<StepView, HintErrorView>
    recommends
        answers(pending, reply),
{
    match (pending, reply) {
        (PendingView::Preimage { hash }, ReplyView::Bytes(value)) => Ok(
            reply::store_preimage_spec(hash, value),
        ),
        (PendingView::Transactions { chain }, ReplyView::Transactions(transactions)) => {
            reply::store_transactions_spec(chain, transactions)
        },
        (PendingView::Receipts, ReplyView::Receipts(values)) => Ok(
            StepView::StoreOrderedTrie { values },
        ),
        (PendingView::Blob { hash }, ReplyView::Blobs(blobs)) => {
            reply::store_blob_spec(hash, blobs, roots)
        },
        (PendingView::Precompile { data }, ReplyView::Precompile(output)) => Ok(
            reply::store_precompile_spec(data, output),
        ),
        (PendingView::OutputHeader { head_hash, output_root }, ReplyView::Bytes(raw)) => {
            reply::output_proof_request_spec(header_state_root(raw), head_hash, output_root)
        },
        (
            PendingView::OutputProof { state_root, head_hash, output_root },
            ReplyView::Proof(proof),
        ) => reply::store_output_root_spec(
            state_root,
            proof.storage_hash,
            head_hash,
            output_root,
        ),
        (PendingView::PrefixedCode { hash }, ReplyView::Bytes(code)) => Ok(
            reply::store_preimage_spec(hash, code),
        ),
        (PendingView::PrefixedCode { hash }, ReplyView::Failed { .. }) => Ok(
            hint::bare_code_spec(hash),
        ),
        (PendingView::BareCode { hash }, ReplyView::Bytes(code)) => Ok(
            reply::store_preimage_spec(hash, code),
        ),
        (PendingView::AccountProof, ReplyView::Proof(proof)) => Ok(
            reply::store_account_proof_spec(proof),
        ),
        (PendingView::StorageProof, ReplyView::Proof(proof)) => Ok(
            reply::store_storage_proof_spec(proof),
        ),
        (PendingView::Witness, ReplyView::Witness(witness)) => Ok(
            reply::store_witness_spec(witness),
        ),
        (PendingView::Witness, ReplyView::Failed { error, .. }) => Ok(
            StepView::Skip {
                reason: SkipReason::WitnessUnavailable {
                    method_not_found: error_code(error) == Some(METHOD_NOT_FOUND),
                },
            },
        ),
        (PendingView::BareCode { .. }, ReplyView::Failed { text, .. }) => Err(
            HintErrorView::CodeFetch { text },
        ),
        (_, ReplyView::BlobsFailed { text }) => Err(HintErrorView::BlobFetch { text }),
        (_, ReplyView::Failed { text, .. }) => Err(HintErrorView::Rpc { text }),
        _ => arbitrary(),
    }
}

/// The hint handler of a host that runs a single chain.
#[derive(Debug, Clone, Copy)]
pub struct SingleChainHintHandler;

impl SingleChainHintHandler {
    /// The first step for a hint.
    pub fn fetch_hint(hint: &Hint, cfg: &SingleChainHost) -> (result: Result<Step, HintError>)
        ensures
            outcome(result) == fetch_hint_spec(hint.ty, hint.data@, *cfg),
    {
        let data: &[u8] = hint.data.as_slice();
        match hint.ty {
            HintType::L1BlockHeader => hint::l1_block_header(data),
            HintType::L1Transactions => hint::l1_transactions(data),
            HintType::L1Receipts => hint::l1_receipts(data),
            HintType::L1Blob => hint::l1_blob(data),
            HintType::L1Precompile => hint::l1_precompile(data),
            HintType::L2BlockHeader => hint::l2_block_header(data),
            HintType::L2Transactions => hint::l2_transactions(data),
            HintType::StartingL2Output => hint::starting_l2_output(
                data,
                cfg.agreed_l2_head_hash,
                cfg.agreed_l2_output_root,
            ),
            HintType::L2Code => hint::l2_code(data),
            HintType::L2StateNode => hint::l2_state_node(data),
            HintType::L2AccountProof => hint::l2_account_proof(data),
            HintType::L2AccountStorageProof => hint::l2_account_storage_proof(data),
            HintType::L2PayloadWitness => {
                if !cfg.enable_experimental_witness_endpoint {
                    return Ok(Step::Skip { reason: SkipReason::WitnessDisabled });
                }
                hint::l2_payload_witness(data)
            },
        }
    }

    /// The step that follows the reply to what `pending` waits for.
    pub fn resume(pending: Pending, reply: Reply, roots: &RootsOfUnity) -> (result: Result<
        Step,
        HintError,
    >)
        requires
            answers(pending@, reply@),
        ensures
            outcome(result) == resume_spec(pending@, reply@, roots@),
    {
        match (pending, reply) {
            (Pending::Preimage { hash }, Reply::Bytes(value)) => Ok(
                reply::store_preimage(hash, value),
            ),
            (Pending::Transactions { chain }, Reply::Transactions(transactions)) => {
                reply::store_transactions(chain, transactions)
            },
            (Pending::Receipts, Reply::Receipts(values)) => Ok(Step::StoreOrderedTrie { values }),
            (Pending::Blob { hash }, Reply::Blobs(blobs)) => {
                reply::store_blob(hash, &blobs, roots)
            },
            (Pending::Precompile { data }, Reply::Precompile(output)) => Ok(
                reply::store_precompile(data, output),
            ),
            (Pending::OutputHeader { head_hash, output_root }, Reply::Bytes(raw)) => {
                reply::read_output_header(raw, head_hash, output_root)
            },
            (Pending::OutputProof { state_root, head_hash, output_root }, Reply::Proof(proof)) => {
                reply::store_output_root(state_root, proof.storage_hash, head_hash, output_root)
            },
            (Pending::PrefixedCode { hash }, Reply::Bytes(code)) => Ok(
                reply::store_preimage(hash, code),
            ),
            (Pending::PrefixedCode { hash }, Reply::Failed { .. }) => Ok(
                hint::l2_code_without_prefix(hash),
            ),
            (Pending::BareCode { hash }, Reply::Bytes(code)) => Ok(
                reply::store_preimage(hash, code),
            ),
            (Pending::AccountProof, Reply::Proof(proof)) => Ok(reply::store_account_proof(proof)),
            (Pending::StorageProof, Reply::Proof(proof)) => Ok(reply::store_storage_proof(proof)),
            (Pending::Witness, Reply::Witness(witness)) => Ok(reply::store_witness(witness)),
            (Pending::Witness, Reply::Failed { error, .. }) => Ok(
                Step::Skip {
                    reason: SkipReason::WitnessUnavailable {
                        method_not_found: is_rpc_method_not_found(&error),
                    },
                },
            ),
            (Pending::BareCode { .. }, Reply::Failed { text, .. }) => Err(
                HintError::CodeFetch { text },
            ),
            (_, Reply::BlobsFailed { text }) => Err(HintError::BlobFetch { text }),
            (_, Reply::Failed { text, .. }) => Err(HintError::Rpc { text }),
            _ => unreached(),
        }
    }
}

} // verus!
