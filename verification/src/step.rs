//! What a hint asks for, what comes back, and what is done next.

use op_alloy_rpc_types_engine::OpPayloadAttributes;
use vstd::prelude::*;

use crate::blob::{BlobView, BlobWithCommitmentAndProof};
use crate::bytes::{Address, B256};
use crate::error::{Chain, HintError, HintErrorView, RpcError};
use crate::preimage::{write_views, KvWrite};

verus! {

/// The contents of a list of byte strings.
pub open spec fn byte_strings(list: Seq<Vec<u8>>) -> Seq<Seq<u8>> {
    list.map_values(|bytes: Vec<u8>| bytes@)
}

/// The contents of a list of words.
pub open spec fn words(list: Seq<B256>) -> Seq<Seq<u8>> {
    list.map_values(|word: B256| word@)
}

/// A block, by hash or by number.
#[derive(Clone, Copy, Debug)]
pub enum BlockId {
    Hash(B256),
    Number(u64),
}

/// A [`BlockId`] with its hash as a sequence of bytes.
pub enum BlockIdView {
    Hash(Seq<u8>),
    Number(nat),
}

impl View for BlockId {
    type V = BlockIdView;

    open spec fn view(&self) -> BlockIdView {
        match *self {
            BlockId::Hash(hash) => BlockIdView::Hash(hash@),
            BlockId::Number(number) => BlockIdView::Number(number as nat),
        }
    }
}

/// Something that only the world outside can answer.
#[derive(Debug)]
pub enum Request {
    /// The RLP encoding of a block's header (`debug_getRawHeader`).
    RawHeader { chain: Chain, hash: B256 },
    /// The transactions of a block, each in its EIP-2718 encoding.
    BlockTransactions { chain: Chain, hash: B256 },
    /// The encoded receipts of an L1 block (`debug_getRawReceipts`).
    RawReceipts { hash: B256 },
    /// The blob with this versioned hash, in the beacon block for this L1 timestamp.
    Blobs { hash: B256, timestamp: u64 },
    /// The result of running a precompile with this much gas.
    Precompile { address: Address, gas: u64, input: Vec<u8> },
    /// A value of the L2 node's database (`debug_dbGet`).
    DbGet { key: Vec<u8> },
    /// The Merkle proof of an L2 account and of some of its storage slots (`eth_getProof`).
    Proof { address: Address, slots: Vec<B256>, block: BlockId },
    /// The witness of executing a payload on top of an L2 block (`debug_executePayload`).
    ExecutePayload { parent_block_hash: B256, attributes: OpPayloadAttributes },
}

/// A [`Request`] with its bytes as sequences.
pub enum RequestView {
    RawHeader { chain: Chain, hash: Seq<u8> },
    BlockTransactions { chain: Chain, hash: Seq<u8> },
    RawReceipts { hash: Seq<u8> },
    Blobs { hash: Seq<u8>, timestamp: nat },
    Precompile { address: Seq<u8>, gas: nat, input: Seq<u8> },
    DbGet { key: Seq<u8> },
    Proof { address: Seq<u8>, slots: Seq<Seq<u8>>, block: BlockIdView },
    ExecutePayload { parent_block_hash: Seq<u8>, attributes: OpPayloadAttributes },
}

impl View for Request {
    type V = RequestView;

    open spec fn view(&self) -> RequestView {
        match *self {
            Request::RawHeader { chain, hash } => RequestView::RawHeader { chain, hash: hash@ },
            Request::BlockTransactions { chain, hash } => RequestView::BlockTransactions {
                chain,
                hash: hash@,
            },
            Request::RawReceipts { hash } => RequestView::RawReceipts { hash: hash@ },
            Request::Blobs { hash, timestamp } => RequestView::Blobs {
                hash: hash@,
                timestamp: timestamp as nat,
            },
            Request::Precompile { address, gas, input } => RequestView::Precompile {
                address: address@,
                gas: gas as nat,
                input: input@,
            },
            Request::DbGet { key } => RequestView::DbGet { key: key@ },
            Request::Proof { address, slots, block } => RequestView::Proof {
                address: address@,
                slots: words(slots@),
                block: block@,
            },
            Request::ExecutePayload { parent_block_hash, attributes } => {
                RequestView::ExecutePayload { parent_block_hash: parent_block_hash@, attributes }
            },
        }
    }
}

/// What a hint still has to do with the reply it waits for.
#[derive(Debug)]
pub enum Pending {
    /// Store the reply as the preimage of `hash`.
    Preimage { hash: B256 },
    /// Store a block's transactions as an ordered trie.
    Transactions { chain: Chain },
    /// Store a block's receipts as an ordered trie.
    Receipts,
    /// Store the blob with this versioned hash.
    Blob { hash: B256 },
    /// Store the result of a precompile call, whose hint data was `data`.
    Precompile { data: Vec<u8> },
    /// Read the state root out of the agreed L2 head's header.
    OutputHeader { head_hash: B256, output_root: B256 },
    /// Check the agreed output root, and store its preimage.
    OutputProof { state_root: B256, head_hash: B256, output_root: B256 },
    /// Store the code that the prefixed lookup found, or look it up by the bare hash.
    PrefixedCode { hash: B256 },
    /// Store the code that the lookup by the bare hash found.
    BareCode { hash: B256 },
    /// Store the nodes of an account's proof.
    AccountProof,
    /// Store the nodes of an account's proof and of its storage slot's proof.
    StorageProof,
    /// Store the preimages of an execution witness.
    Witness,
}

/// A [`Pending`] with its bytes as sequences.
pub enum PendingView {
    Preimage { hash: Seq<u8> },
    Transactions { chain: Chain },
    Receipts,
    Blob { hash: Seq<u8> },
    Precompile { data: Seq<u8> },
    OutputHeader { head_hash: Seq<u8>, output_root: Seq<u8> },
    OutputProof { state_root: Seq<u8>, head_hash: Seq<u8>, output_root: Seq<u8> },
    PrefixedCode { hash: Seq<u8> },
    BareCode { hash: Seq<u8> },
    AccountProof,
    StorageProof,
    Witness,
}

impl View for Pending {
    type V = PendingView;

    open spec fn view(&self) -> PendingView {
        match *self {
            Pending::Preimage { hash } => PendingView::Preimage { hash: hash@ },
            Pending::Transactions { chain } => PendingView::Transactions { chain },
            Pending::Receipts => PendingView::Receipts,
            Pending::Blob { hash } => PendingView::Blob { hash: hash@ },
            Pending::Precompile { data } => PendingView::Precompile { data: data@ },
            Pending::OutputHeader { head_hash, output_root } => PendingView::OutputHeader {
                head_hash: head_hash@,
                output_root: output_root@,
            },
            Pending::OutputProof { state_root, head_hash, output_root } => {
                PendingView::OutputProof {
                    state_root: state_root@,
                    head_hash: head_hash@,
                    output_root: output_root@,
                }
            },
            Pending::PrefixedCode { hash } => PendingView::PrefixedCode { hash: hash@ },
            Pending::BareCode { hash } => PendingView::BareCode { hash: hash@ },
            Pending::AccountProof => PendingView::AccountProof,
            Pending::StorageProof => PendingView::StorageProof,
            Pending::Witness => PendingView::Witness,
        }
    }
}

/// The Merkle proof of an account.
#[derive(Debug)]
pub struct AccountProof {
    /// The root of the account's storage trie.
    pub storage_hash: B256,
    /// The nodes from the state root to the account.
    pub account_proof: Vec<Vec<u8>>,
    /// For each storage slot asked for, the nodes from the storage root to it.
    pub storage_proof: Vec<Vec<Vec<u8>>>,
}

/// An [`AccountProof`] with its bytes as sequences.
pub struct AccountProofView {
    pub storage_hash: Seq<u8>,
    pub account_proof: Seq<Seq<u8>>,
    pub storage_proof: Seq<Seq<Seq<u8>>>,
}

impl View for AccountProof {
    type V = AccountProofView;

    open spec fn view(&self) -> AccountProofView {
        AccountProofView {
            storage_hash: self.storage_hash@,
            account_proof: byte_strings(self.account_proof@),
            storage_proof: self.storage_proof@.map_values(
                |nodes: Vec<Vec<u8>>| byte_strings(nodes@),
            ),
        }
    }
}

/// The preimages that executing a payload touched.
#[derive(Debug)]
pub struct ExecutionWitness {
    pub state: Vec<Vec<u8>>,
    pub codes: Vec<Vec<u8>>,
    pub keys: Vec<Vec<u8>>,
}

/// An [`ExecutionWitness`] with its bytes as sequences.
pub struct WitnessView {
    pub state: Seq<Seq<u8>>,
    pub codes: Seq<Seq<u8>>,
    pub keys: Seq<Seq<u8>>,
}

impl View for ExecutionWitness {
    type V = WitnessView;

    open spec fn view(&self) -> WitnessView {
        WitnessView {
            state: byte_strings(self.state@),
            codes: byte_strings(self.codes@),
            keys: byte_strings(self.keys@),
        }
    }
}

/// The answer to a [`Request`].
#[derive(Debug)]
pub enum Reply {
    /// Raw bytes: a header, or a value of the node's database.
    Bytes(Vec<u8>),
    /// The encoded transactions of a block, if the chain has that block.
    Transactions(Option<Vec<Vec<u8>>>),
    /// The encoded receipts of a block.
    Receipts(Vec<Vec<u8>>),
    /// The blobs that were found.
    Blobs(Vec<BlobWithCommitmentAndProof>),
    /// The blob provider failed, with this account of it.
    BlobsFailed { text: String },
    /// The output of a precompile, if it succeeded.
    Precompile(Option<Vec<u8>>),
    /// The proof of an account.
    Proof(AccountProof),
    /// An execution witness.
    Witness(ExecutionWitness),
    /// The call to the node failed; `text` is the error as the client words it.
    Failed { error: RpcError, text: String },
}

/// A [`Reply`] with its bytes as sequences.
pub enum ReplyView {
    Bytes(Seq<u8>),
    Transactions(Option<Seq<Seq<u8>>>),
    Receipts(Seq<Seq<u8>>),
    Blobs(Seq<BlobView>),
    BlobsFailed { text: Seq<char> },
    Precompile(Option<Seq<u8>>),
    Proof(AccountProofView),
    Witness(WitnessView),
    Failed { error: RpcError, text: Seq<char> },
}

impl View for Reply {
    type V = ReplyView;

    open spec fn view(&self) -> ReplyView {
        match *self {
            Reply::Bytes(bytes) => ReplyView::Bytes(bytes@),
            Reply::Transactions(None) => ReplyView::Transactions(None),
            Reply::Transactions(Some(list)) => ReplyView::Transactions(Some(byte_strings(list@))),
            Reply::Receipts(list) => ReplyView::Receipts(byte_strings(list@)),
            Reply::Blobs(blobs) => ReplyView::Blobs(
                blobs@.map_values(|blob: BlobWithCommitmentAndProof| blob@),
            ),
            Reply::BlobsFailed { text } => ReplyView::BlobsFailed { text: text@ },
            Reply::Precompile(None) => ReplyView::Precompile(None),
            Reply::Precompile(Some(output)) => ReplyView::Precompile(Some(output@)),
            Reply::Proof(proof) => ReplyView::Proof(proof@),
            Reply::Witness(witness) => ReplyView::Witness(witness@),
            Reply::Failed { error, text } => ReplyView::Failed { error, text: text@ },
        }
    }
}

/// Whether `reply` is an answer to the request that `pending` waits for.
pub open spec fn answers(pending: PendingView, reply: ReplyView) -> bool {
    match pending {
        PendingView::Preimage { .. }
        | PendingView::OutputHeader { .. }
        | PendingView::PrefixedCode { .. }
        | PendingView::BareCode { .. } => reply is Bytes || reply is Failed,
        PendingView::Transactions { .. } => reply is Transactions || reply is Failed,
        PendingView::Receipts => reply is Receipts || reply is Failed,
        PendingView::Blob { .. } => reply is Blobs || reply is BlobsFailed,
        PendingView::Precompile { .. } => reply is Precompile,
        PendingView::OutputProof { .. } | PendingView::AccountProof => {
            reply is Proof || reply is Failed
        },
        // One slot was asked for; its proof must be there.
        PendingView::StorageProof => match reply {
            ReplyView::Proof(proof) => proof.storage_proof.len() > 0,
            _ => reply is Failed,
        },
        PendingView::Witness => reply is Witness || reply is Failed,
    }
}

/// Why a hint ended without anything to store.
#[derive(Clone, Copy, Debug, PartialEq, Eq, Structural)]
pub enum SkipReason {
    /// Payload witnesses are switched off.
    WitnessDisabled,
    /// The node did not provide the witness; `method_not_found` if it does not know the method.
    WitnessUnavailable { method_not_found: bool },
}

/// What to do next for a hint.
#[derive(Debug)]
pub enum Step {
    /// Get the reply to `request`, and go on from `pending` with it.
    Ask { request: Request, pending: Pending },
    /// Set these entries in the store, in order; the hint is then done.
    Store { writes: Vec<KvWrite> },
    /// Store the ordered Merkle Patricia trie of these values; the hint is then done.
    StoreOrderedTrie { values: Vec<Vec<u8>> },
    /// Nothing; the hint is done.
    Skip { reason: SkipReason },
}

/// A [`Step`] with its bytes as sequences.
pub enum StepView {
    Ask { request: RequestView, pending: PendingView },
    Store { writes: Seq<(Seq<u8>, Seq<u8>)> },
    StoreOrderedTrie { values: Seq<Seq<u8>> },
    Skip { reason: SkipReason },
}

impl View for Step {
    type V = StepView;

    open spec fn view(&self) -> StepView {
        match *self {
            Step::Ask { request, pending } => StepView::Ask {
                request: request@,
                pending: pending@,
            },
            Step::Store { writes } => StepView::Store { writes: write_views(writes@) },
            Step::StoreOrderedTrie { values } => StepView::StoreOrderedTrie {
                values: byte_strings(values@),
            },
            Step::Skip { reason } => StepView::Skip { reason },
        }
    }
}

/// The outcome of a decision on a hint, with its bytes as sequences.
pub open spec fn outcome(result: Result<Step, HintError>) -> Result<StepView, HintErrorView> {
    match result {
        Ok(step) => Ok(step@),
        Err(e) => Err(e@),
    }
}

/// The views of lists of byte strings and of words show each item's bytes, in order.
pub proof fn law_list_views(list: Seq<Vec<u8>>, word_list: Seq<B256>, i: int)
    ensures
        byte_strings(list).len() == list.len(),
        0 <= i < list.len() ==> byte_strings(list)[i] == list[i]@,
        words(word_list).len() == word_list.len(),
        0 <= i < word_list.len() ==> words(word_list)[i] == word_list[i]@,
{
}

/// The view of a request carries what the request carries.
pub proof fn law_request_view(
    chain: Chain,
    hash: B256,
    number: u64,
    address: Address,
    bytes: Vec<u8>,
    slots: Vec<B256>,
    block: BlockId,
    attributes: OpPayloadAttributes,
)
    ensures
        (Request::RawHeader { chain, hash })@ == (RequestView::RawHeader { chain, hash: hash@ }),
        (Request::BlockTransactions { chain, hash })@ == (RequestView::BlockTransactions {
            chain,
            hash: hash@,
        }),
        (Request::RawReceipts { hash })@ == (RequestView::RawReceipts { hash: hash@ }),
        (Request::Blobs { hash, timestamp: number })@ == (RequestView::Blobs {
            hash: hash@,
            timestamp: number as nat,
        }),
        (Request::Precompile { address, gas: number, input: bytes })@
            == (RequestView::Precompile {
            address: address@,
            gas: number as nat,
            input: bytes@,
        }),
        (Request::DbGet { key: bytes })@ == (RequestView::DbGet { key: bytes@ }),
        (Request::Proof { address, slots, block })@ == (RequestView::Proof {
            address: address@,
            slots: words(slots@),
            block: block@,
        }),
        (Request::ExecutePayload { parent_block_hash: hash, attributes })@
            == (RequestView::ExecutePayload { parent_block_hash: hash@, attributes }),
        BlockId::Hash(hash)@ == BlockIdView::Hash(hash@),
        BlockId::Number(number)@ == BlockIdView::Number(number as nat),
{
}

/// The view of what is pending carries what it carries.
pub proof fn law_pending_view(
    chain: Chain,
    hash: B256,
    state_root: B256,
    output_root: B256,
    data: Vec<u8>,
)
    ensures
        (Pending::Preimage { hash })@ == (PendingView::Preimage { hash: hash@ }),
        (Pending::Transactions { chain })@ == (PendingView::Transactions { chain }),
        Pending::Receipts@ == PendingView::Receipts,
        (Pending::Blob { hash })@ == (PendingView::Blob { hash: hash@ }),
        (Pending::Precompile { data })@ == (PendingView::Precompile { data: data@ }),
        (Pending::OutputHeader { head_hash: hash, output_root })@
            == (PendingView::OutputHeader { head_hash: hash@, output_root: output_root@ }),
        (Pending::OutputProof { state_root, head_hash: hash, output_root })@
            == (PendingView::OutputProof {
            state_root: state_root@,
            head_hash: hash@,
            output_root: output_root@,
        }),
        (Pending::PrefixedCode { hash })@ == (PendingView::PrefixedCode { hash: hash@ }),
        (Pending::BareCode { hash })@ == (PendingView::BareCode { hash: hash@ }),
        Pending::AccountProof@ == PendingView::AccountProof,
        Pending::StorageProof@ == PendingView::StorageProof,
        Pending::Witness@ == PendingView::Witness,
{
}

/// The view of a reply carries what the reply carries.
pub proof fn law_reply_view(
    bytes: Vec<u8>,
    list: Vec<Vec<u8>>,
    blobs: Vec<BlobWithCommitmentAndProof>,
    text: String,
    proof_value: AccountProof,
    witness: ExecutionWitness,
    error: RpcError,
    i: int,
)
    ensures
        Reply::Bytes(bytes)@ == ReplyView::Bytes(bytes@),
        Reply::Transactions(None)@ == ReplyView::Transactions(None),
        Reply::Transactions(Some(list))@ == ReplyView::Transactions(Some(byte_strings(list@))),
        Reply::Receipts(list)@ == ReplyView::Receipts(byte_strings(list@)),
        Reply::Blobs(blobs)@ matches ReplyView::Blobs(shown) && shown.len() == blobs@.len() && (0
            <= i < blobs@.len() ==> shown[i] == blobs@[i]@),
        (Reply::BlobsFailed { text })@ == (ReplyView::BlobsFailed { text: text@ }),
        Reply::Precompile(None)@ == ReplyView::Precompile(None),
        Reply::Precompile(Some(bytes))@ == ReplyView::Precompile(Some(bytes@)),
        Reply::Proof(proof_value)@ == ReplyView::Proof(proof_value@),
        Reply::Witness(witness)@ == ReplyView::Witness(witness@),
        (Reply::Failed { error, text })@ == (ReplyView::Failed { error, text: text@ }),
        proof_value@.storage_hash == proof_value.storage_hash@,
        proof_value@.account_proof == byte_strings(proof_value.account_proof@),
        proof_value@.storage_proof.len() == proof_value.storage_proof@.len(),
        0 <= i < proof_value.storage_proof@.len() ==> proof_value@.storage_proof[i]
            == byte_strings(proof_value.storage_proof@[i]@),
        witness@.state == byte_strings(witness.state@),
        witness@.codes == byte_strings(witness.codes@),
        witness@.keys == byte_strings(witness.keys@),
{
}

/// The view of a step carries what the step carries, and the outcome of a decision is its step
/// or its error.
pub proof fn law_step_view(
    request: Request,
    pending: Pending,
    writes: Vec<KvWrite>,
    values: Vec<Vec<u8>>,
    reason: SkipReason,
    step: Step,
    error: HintError,
)
    ensures
        (Step::Ask { request, pending })@ == (StepView::Ask {
            request: request@,
            pending: pending@,
        }),
        (Step::Store { writes })@ == (StepView::Store { writes: write_views(writes@) }),
        (Step::StoreOrderedTrie { values })@ == (StepView::StoreOrderedTrie {
            values: byte_strings(values@),
        }),
        (Step::Skip { reason })@ == (StepView::Skip { reason }),
        outcome(Ok(step)) == Ok::<StepView, HintErrorView>(step@),
        outcome(Err(error)) == Err::<StepView, HintErrorView>(error@),
{
}

/// A reply answers what is pending exactly if it is of the kind asked for, or the failure of
/// such a call; the proof of a slot must be among the proofs that came back.
pub proof fn law_replies_that_answer(
    chain: Chain,
    hash: Seq<u8>,
    state_root: Seq<u8>,
    output_root: Seq<u8>,
    data: Seq<u8>,
    reply: ReplyView,
)
    ensures
        answers(PendingView::Preimage { hash }, reply) <==> reply is Bytes || reply is Failed,
        answers(PendingView::OutputHeader { head_hash: hash, output_root }, reply)
            <==> reply is Bytes || reply is Failed,
        answers(PendingView::PrefixedCode { hash }, reply) <==> reply is Bytes
            || reply is Failed,
        answers(PendingView::BareCode { hash }, reply) <==> reply is Bytes || reply is Failed,
        answers(PendingView::Transactions { chain }, reply) <==> reply is Transactions
            || reply is Failed,
        answers(PendingView::Receipts, reply) <==> reply is Receipts || reply is Failed,
        answers(PendingView::Blob { hash }, reply) <==> reply is Blobs || reply is BlobsFailed,
        answers(PendingView::Precompile { data }, reply) <==> reply is Precompile,
        answers(PendingView::OutputProof { state_root, head_hash: hash, output_root }, reply)
            <==> reply is Proof || reply is Failed,
        answers(PendingView::AccountProof, reply) <==> reply is Proof || reply is Failed,
        answers(PendingView::StorageProof, reply) <==> reply is Failed || (
        reply matches ReplyView::Proof(found) && found.storage_proof.len() > 0),
        answers(PendingView::Witness, reply) <==> reply is Witness || reply is Failed,
{
}

} // verus!
