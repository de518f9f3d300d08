//! The hints: one function per hint type for what its data asks for.

use op_alloy_rpc_types_engine::OpPayloadAttributes;
use vstd::prelude::*;

use crate::bytes::{be_value, copy_range, read_address, read_b256, read_be_u64, Address, B256};
use crate::error::{Chain, HintError, HintErrorView};
use crate::outside::{parse_payload_attributes, parsed_payload_attributes};
use crate::step::{
    outcome, words, BlockId, BlockIdView, Pending, PendingView, Request, RequestView, Step,
    StepView,
};

verus! {

/// The hash and the timestamp in the data of a blob hint: a hash of 32 bytes, then, in the
/// 48-byte format only, an index of 8 bytes that has no meaning any more, then a big-endian
/// timestamp of 8 bytes.
pub open spec fn blob_hint(data: Seq<u8>) -> Option<(Seq<u8>, nat)> {
    if data.len() == 48 {
        Some((data.subrange(0, 32), be_value(data.subrange(40, 48))))
    } else if data.len() == 40 {
        Some((data.subrange(0, 32), be_value(data.subrange(32, 40))))
    } else {
        None
    }
}

/// Parses a blob hint into `(hash, timestamp)`. Supports 40-byte (hash + timestamp) and
/// 48-byte legacy (hash + index + timestamp) formats; the legacy index field is ignored.
pub fn parse_blob_hint(hint_data: &[u8]) -> (parsed: Result<(B256, u64), HintError>)
    ensures
        match parsed {
            Ok((hash, timestamp)) => blob_hint(hint_data@) == Some((hash@, timestamp as nat)),
            Err(e) => {
                &&& blob_hint(hint_data@) is None
                &&& e@ == HintErrorView::InvalidBlobHintLength { len: hint_data@.len() }
            },
        },
{
    match hint_data.len() {
        48 => Ok((read_b256(hint_data, 0), read_be_u64(hint_data, 40))),
        40 => Ok((read_b256(hint_data, 0), read_be_u64(hint_data, 32))),
        len => Err(HintError::InvalidBlobHintLength { len }),
    }
}

/// The hash that makes up the whole of a hint's data.
fn parse_hash(data: &[u8]) -> (parsed: Result<B256, HintError>)
    ensures
        match parsed {
            Ok(hash) => data@.len() == 32 && hash@ == data@,
            Err(e) => data@.len() != 32 && e@ == HintErrorView::InvalidHintLength,
        },
{
    if data.len() != 32 {
        return Err(HintError::InvalidHintLength);
    }
    let hash = read_b256(data, 0);
    assert(hash@ =~= data@);
    Ok(hash)
}

/// What a hint does whose data is one hash: `then_step` for 32 bytes, an error otherwise.
pub open spec fn for_hash(data: Seq<u8>, then_step: StepView) -> Result<StepView, HintErrorView> {
    if data.len() == 32 {
        Ok(then_step)
    } else {
        Err(HintErrorView::InvalidHintLength)
    }
}

/// A hint for a block header: fetch it by hash, and store it as the preimage of that hash.
pub open spec fn block_header_spec(chain: Chain, data: Seq<u8>) -> Result<
    StepView,
    HintErrorView,
> {
    for_hash(
        data,
        StepView::Ask {
            request: RequestView::RawHeader { chain, hash: data },
            pending: PendingView::Preimage { hash: data },
        },
    )
}

/// Asks for an L1 block header by hash.
pub fn l1_block_header(data: &[u8]) -> (result: Result<Step, HintError>)
    ensures
        outcome(result) == block_header_spec(Chain::L1, data@),
{
    match parse_hash(data) {
        Ok(hash) => Ok(
            Step::Ask {
                request: Request::RawHeader { chain: Chain::L1, hash },
                pending: Pending::Preimage { hash },
            },
        ),
        Err(e) => Err(e),
    }
}

/// Asks for an L2 block header by hash.
pub fn l2_block_header(data: &[u8]) -> (result: Result<Step, HintError>)
    ensures
        outcome(result) == block_header_spec(Chain::L2, data@),
{
    match parse_hash(data) {
        Ok(hash) => Ok(
            Step::Ask {
                request: Request::RawHeader { chain: Chain::L2, hash },
                pending: Pending::Preimage { hash },
            },
        ),
        Err(e) => Err(e),
    }
}

/// A hint for a block's transactions: fetch them by the block's hash, and store their trie.
pub open spec fn transactions_spec(chain: Chain, data: Seq<u8>) -> Result<
    StepView,
    HintErrorView,
> {
    for_hash(
        data,
        StepView::Ask {
            request: RequestView::BlockTransactions { chain, hash: data },
            pending: PendingView::Transactions { chain },
        },
    )
}

/// Asks for the transactions of an L1 block.
pub fn l1_transactions(data: &[u8]) -> (result: Result<Step, HintError>)
    ensures
        outcome(result) == transactions_spec(Chain::L1, data@),
{
    match parse_hash(data) {
        Ok(hash) => Ok(
            Step::Ask {
                request: Request::BlockTransactions { chain: Chain::L1, hash },
                pending: Pending::Transactions { chain: Chain::L1 },
            },
        ),
        Err(e) => Err(e),
    }
}

/// Asks for the transactions of an L2 block.
pub fn l2_transactions(data: &[u8]) -> (result: Result<Step, HintError>)
    ensures
        outcome(result) == transactions_spec(Chain::L2, data@),
{
    match parse_hash(data) {
        Ok(hash) => Ok(
            Step::Ask {
                request: Request::BlockTransactions { chain: Chain::L2, hash },
                pending: Pending::Transactions { chain: Chain::L2 },
            },
        ),
        Err(e) => Err(e),
    }
}

/// A hint for an L1 block's receipts: fetch them by the block's hash, and store their trie.
pub open spec fn receipts_spec(data: Seq<u8>) -> Result<StepView, HintErrorView> {
    for_hash(
        data,
        StepView::Ask {
            request: RequestView::RawReceipts { hash: data },
            pending: PendingView::Receipts,
        },
    )
}

/// Asks for the receipts of an L1 block.
pub fn l1_receipts(data: &[u8]) -> (result: Result<Step, HintError>)
    ensures
        outcome(result) == receipts_spec(data@),
{
    match parse_hash(data) {
        Ok(hash) => Ok(
            Step::Ask { request: Request::RawReceipts { hash }, pending: Pending::Receipts },
        ),
        Err(e) => Err(e),
    }
}

/// A hint for a blob: fetch it by its versioned hash and timestamp, and store all of it.
pub open spec fn blob_spec(data: Seq<u8>) -> Result<StepView, HintErrorView> {
    match blob_hint(data) {
        Some((hash, timestamp)) => Ok(
            StepView::Ask {
                request: RequestView::Blobs { hash, timestamp },
                pending: PendingView::Blob { hash },
            },
        ),
        None => Err(HintErrorView::InvalidBlobHintLength { len: data.len() }),
    }
}

/// Asks for a blob by versioned hash and timestamp.
pub fn l1_blob(data: &[u8]) -> (result: Result<Step, HintError>)
    ensures
        outcome(result) == blob_spec(data@),
{
    match parse_blob_hint(data) {
        Ok((hash, timestamp)) => Ok(
            Step::Ask {
                request: Request::Blobs { hash, timestamp },
                pending: Pending::Blob { hash },
            },
        ),
        Err(e) => Err(e),
    }
}

/// A hint for a precompile call: an address of 20 bytes, a big-endian gas limit of 8 bytes, and
/// the input. Run it, and store input and result.
pub open spec fn precompile_spec(data: Seq<u8>) -> Result<StepView, HintErrorView> {
    if data.len() >= 28 {
        Ok(
            StepView::Ask {
                request: RequestView::Precompile {
                    address: data.subrange(0, 20),
                    gas: be_value(data.subrange(20, 28)),
                    input: data.skip(28),
                },
                pending: PendingView::Precompile { data },
            },
        )
    } else {
        Err(HintErrorView::InvalidHintLength)
    }
}

/// Asks for a precompile to be run.
pub fn l1_precompile(data: &[u8]) -> (result: Result<Step, HintError>)
    ensures
        outcome(result) == precompile_spec(data@),
{
    let len: usize = data.len();
    if len < 28 {
        return Err(HintError::InvalidHintLength);
    }
    let address: Address = read_address(data, 0);
    let gas: u64 = read_be_u64(data, 20);
    let input = copy_range(data, 28, len);
    let data_copy = copy_range(data, 0, len);
    assert(input@ =~= data@.skip(28));
    assert(data_copy@ =~= data@);
    Ok(
        Step::Ask {
            request: Request::Precompile { address, gas, input },
            pending: Pending::Precompile { data: data_copy },
        },
    )
}

/// The hint for the starting output root: fetch the agreed L2 head's header.
pub open spec fn starting_output_spec(
    data: Seq<u8>,
    agreed_l2_head_hash: Seq<u8>,
    agreed_l2_output_root: Seq<u8>,
) -> Result<StepView, HintErrorView> {
    for_hash(
        data,
        StepView::Ask {
            request: RequestView::RawHeader { chain: Chain::L2, hash: agreed_l2_head_hash },
            pending: PendingView::OutputHeader {
                head_hash: agreed_l2_head_hash,
                output_root: agreed_l2_output_root,
            },
        },
    )
}

/// Asks for the header of the agreed L2 head, to recompute the output root from.
pub fn starting_l2_output(
    data: &[u8],
    agreed_l2_head_hash: B256,
    agreed_l2_output_root: B256,
) -> (result: Result<Step, HintError>)
    ensures
        outcome(result) == starting_output_spec(
            data@,
            agreed_l2_head_hash@,
            agreed_l2_output_root@,
        ),
{
    if data.len() != 32 {
        return Err(HintError::InvalidHintLength);
    }
    Ok(
        Step::Ask {
            request: Request::RawHeader { chain: Chain::L2, hash: agreed_l2_head_hash },
            pending: Pending::OutputHeader {
                head_hash: agreed_l2_head_hash,
                output_root: agreed_l2_output_root,
            },
        },
    )
}

/// The prefix of a code hash in the keys of geth's hashdb scheme: `b'c'`.
pub const CODE_PREFIX: u8 = 0x63;

/// A hint for a contract's code: look it up under the prefixed hash.
pub open spec fn code_spec(data: Seq<u8>) -> Result<StepView, HintErrorView> {
    for_hash(
        data,
        StepView::Ask {
            request: RequestView::DbGet { key: seq![CODE_PREFIX] + data },
            pending: PendingView::PrefixedCode { hash: data },
        },
    )
}

/// Asks for L2 contract code by code hash, under the key of geth's hashdb scheme.
pub fn l2_code(data: &[u8]) -> (result: Result<Step, HintError>)
    ensures
        outcome(result) == code_spec(data@),
{
    match parse_hash(data) {
        Ok(hash) => {
            let mut key: Vec<u8> = Vec::new();
            key.push(CODE_PREFIX);
            key.append(&mut copy_range(data, 0, 32));
            assert(key@ =~= seq![CODE_PREFIX] + data@);
            Ok(
                Step::Ask {
                    request: Request::DbGet { key },
                    pending: Pending::PrefixedCode { hash },
                },
            )
        },
        Err(e) => Err(e),
    }
}

/// The second lookup of a contract's code: under the bare hash.
pub open spec fn bare_code_spec(hash: Seq<u8>) -> StepView {
    StepView::Ask {
        request: RequestView::DbGet { key: hash },
        pending: PendingView::BareCode { hash },
    }
}

/// Asks for L2 contract code under the bare hash, the prefixed lookup having failed.
pub fn l2_code_without_prefix(hash: B256) -> (step: Step)
    ensures
        step@ == bare_code_spec(hash@),
{
    let key = copy_range(hash.as_slice(), 0, 32);
    assert(key@ =~= hash@);
    Step::Ask { request: Request::DbGet { key }, pending: Pending::BareCode { hash } }
}

/// A hint for a state trie node: look it up by hash, and store it as that hash's preimage.
pub open spec fn state_node_spec(data: Seq<u8>) -> Result<StepView, HintErrorView> {
    for_hash(
        data,
        StepView::Ask {
            request: RequestView::DbGet { key: data },
            pending: PendingView::Preimage { hash: data },
        },
    )
}

/// Asks for an L2 state trie node.
pub fn l2_state_node(data: &[u8]) -> (result: Result<Step, HintError>)
    ensures
        outcome(result) == state_node_spec(data@),
{
    match parse_hash(data) {
        Ok(hash) => {
            let key = copy_range(data, 0, 32);
            assert(key@ =~= data@);
            Ok(
                Step::Ask {
                    request: Request::DbGet { key },
                    pending: Pending::Preimage { hash },
                },
            )
        },
        Err(e) => Err(e),
    }
}

/// A hint for an account's proof: a big-endian block number of 8 bytes and an address.
pub open spec fn account_proof_spec(data: Seq<u8>) -> Result<StepView, HintErrorView> {
    if data.len() == 28 {
        Ok(
            StepView::Ask {
                request: RequestView::Proof {
                    address: data.subrange(8, 28),
                    slots: Seq::empty(),
                    block: BlockIdView::Number(be_value(data.subrange(0, 8))),
                },
                pending: PendingView::AccountProof,
            },
        )
    } else {
        Err(HintErrorView::InvalidHintLength)
    }
}

/// Asks for the Merkle proof of an L2 account.
pub fn l2_account_proof(data: &[u8]) -> (result: Result<Step, HintError>)
    ensures
        outcome(result) == account_proof_spec(data@),
{
    if data.len() != 28 {
        return Err(HintError::InvalidHintLength);
    }
    let block = BlockId::Number(read_be_u64(data, 0));
    let address: Address = read_address(data, 8);
    let slots: Vec<B256> = Vec::new();
    assert(words(slots@) =~= Seq::empty());
    Ok(
        Step::Ask {
            request: Request::Proof { address, slots, block },
            pending: Pending::AccountProof,
        },
    )
}

/// A hint for a storage slot's proof: as for an account's, then the slot of 32 bytes.
pub open spec fn storage_proof_spec(data: Seq<u8>) -> Result<StepView, HintErrorView> {
    if data.len() == 60 {
        Ok(
            StepView::Ask {
                request: RequestView::Proof {
                    address: data.subrange(8, 28),
                    slots: seq![data.subrange(28, 60)],
                    block: BlockIdView::Number(be_value(data.subrange(0, 8))),
                },
                pending: PendingView::StorageProof,
            },
        )
    } else {
        Err(HintErrorView::InvalidHintLength)
    }
}

/// Asks for the Merkle proof of an L2 account's storage slot.
pub fn l2_account_storage_proof(data: &[u8]) -> (result: Result<Step, HintError>)
    ensures
        outcome(result) == storage_proof_spec(data@),
{
    if data.len() != 60 {
        return Err(HintError::InvalidHintLength);
    }
    let block = BlockId::Number(read_be_u64(data, 0));
    let address: Address = read_address(data, 8);
    let mut slots: Vec<B256> = Vec::new();
    slots.push(read_b256(data, 28));
    assert(words(slots@) =~= seq![data@.subrange(28, 60)]);
    Ok(
        Step::Ask {
            request: Request::Proof { address, slots, block },
            pending: Pending::StorageProof,
        },
    )
}

/// What follows from parsing the payload attributes of a witness hint.
pub open spec fn payload_request_spec(
    parent_block_hash: Seq<u8>,
    attributes: Result<OpPayloadAttributes, serde_json::Error>,
) -> Result<StepView, HintErrorView> {
    match attributes {
        Ok(attributes) => Ok(
            StepView::Ask {
                request: RequestView::ExecutePayload { parent_block_hash, attributes },
                pending: PendingView::Witness,
            },
        ),
        Err(e) => Err(HintErrorView::PayloadAttributes(e)),
    }
}

/// A hint for a payload's witness: the parent block's hash, then the attributes in JSON.
pub open spec fn payload_witness_spec(data: Seq<u8>) -> Result<StepView, HintErrorView> {
    if data.len() >= 32 {
        payload_request_spec(data.subrange(0, 32), parsed_payload_attributes(data.skip(32)))
    } else {
        Err(HintErrorView::InvalidHintLength)
    }
}

/// Asks for a payload with these attributes to be executed on top of the given block.
pub fn payload_request(
    parent_block_hash: B256,
    attributes: Result<OpPayloadAttributes, serde_json::Error>,
) -> (result: Result<Step, HintError>)
    ensures
        outcome(result) == payload_request_spec(parent_block_hash@, attributes),
{
    match attributes {
        Ok(attributes) => Ok(
            Step::Ask {
                request: Request::ExecutePayload { parent_block_hash, attributes },
                pending: Pending::Witness,
            },
        ),
        Err(e) => Err(HintError::PayloadAttributes(e)),
    }
}

/// Asks for the witness of executing a payload.
pub fn l2_payload_witness(data: &[u8]) -> (result: Result<Step, HintError>)
    ensures
        outcome(result) == payload_witness_spec(data@),
{
    let len: usize = data.len();
    if len < 32 {
        return Err(HintError::InvalidHintLength);
    }
    let parent_block_hash = read_b256(data, 0);
    let json = copy_range(data, 32, len);
    assert(json@ =~= data@.skip(32));
    payload_request(parent_block_hash, parse_payload_attributes(json.as_slice()))
}

} // verus!
