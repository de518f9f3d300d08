//! The errors of JSON-RPC calls and of hints.

use vstd::prelude::*;

use crate::decimal::{decimal, decimal_text};

verus! {

/// The chain that a request goes to.
#[derive(Clone, Copy, Debug, PartialEq, Eq, Structural)]
pub enum Chain {
    L1,
    L2,
}

/// The error object of a JSON-RPC response.
#[derive(Debug)]
pub struct ErrorPayload {
    pub code: i64,
    pub message: String,
    pub data: Option<String>,
}

/// Why a JSON-RPC call failed.
#[derive(Debug)]
pub enum RpcError {
    /// The server answered with an error object.
    ErrorResp(ErrorPayload),
    /// The server answered null where a value was due.
    NullResp,
    /// The client does not support a feature.
    UnsupportedFeature(String),
    /// The call was malformed on this side.
    LocalUsageError(String),
    /// The request could not be serialised.
    SerError(String),
    /// The response could not be deserialised.
    DeserError { err: String, text: String },
    /// The transport failed.
    Transport(String),
}

/// The code of a server's error object, if the server answered with one.
pub open spec fn error_code(e: RpcError) -> Option<i64> {
    match e {
        RpcError::ErrorResp(payload) => Some(payload.code),
        _ => None,
    }
}

/// The JSON-RPC error code for a method that the server does not know.
pub const METHOD_NOT_FOUND: i64 = -32601;

/// Returns `true` if the RPC error indicates that the node does not support the requested
/// method (JSON-RPC error code -32601: Method not found).
pub fn is_rpc_method_not_found(e: &RpcError) -> (not_found: bool)
    ensures
        not_found == (error_code(*e) == Some(METHOD_NOT_FOUND)),
{
    match e {
        RpcError::ErrorResp(payload) => payload.code == METHOD_NOT_FOUND,
        _ => false,
    }
}

/// Why a hint failed.
#[derive(Debug)]
pub enum HintError {
    /// The hint's data has the wrong length for its type.
    InvalidHintLength,
    /// The data of a blob hint is neither 40 nor 48 bytes long.
    InvalidBlobHintLength { len: usize },
    /// The blob provider failed; `text` is its own account of it.
    BlobFetch { text: String },
    /// The blob provider returned another number of blobs than the one asked for.
    BlobCount { got: usize },
    /// The chain has no block of that hash.
    BlockNotFound { chain: Chain },
    /// The output root computed from the L2 head is not the agreed one.
    OutputRootMismatch,
    /// Both lookups of a contract's code failed; `text` is the second error.
    CodeFetch { text: String },
    /// A call to a node failed; `text` is the error.
    Rpc { text: String },
    /// The header that a node returned could not be decoded.
    Header(alloy_rlp::Error),
    /// The payload attributes in the hint's data could not be parsed.
    PayloadAttributes(serde_json::Error),
}

/// A [`HintError`] with its texts as sequences of characters.
pub enum HintErrorView {
    InvalidHintLength,
    InvalidBlobHintLength { len: nat },
    BlobFetch { text: Seq<char> },
    BlobCount { got: nat },
    BlockNotFound { chain: Chain },
    OutputRootMismatch,
    CodeFetch { text: Seq<char> },
    Rpc { text: Seq<char> },
    Header(alloy_rlp::Error),
    PayloadAttributes(serde_json::Error),
}

impl View for HintError {
    type V = HintErrorView;

    open spec fn view(&self) -> HintErrorView {
        match *self {
            HintError::InvalidHintLength => HintErrorView::InvalidHintLength,
            HintError::InvalidBlobHintLength { len } => HintErrorView::InvalidBlobHintLength {
                len: len as nat,
            },
            HintError::BlobFetch { text } => HintErrorView::BlobFetch { text: text@ },
            HintError::BlobCount { got } => HintErrorView::BlobCount { got: got as nat },
            HintError::BlockNotFound { chain } => HintErrorView::BlockNotFound { chain },
            HintError::OutputRootMismatch => HintErrorView::OutputRootMismatch,
            HintError::CodeFetch { text } => HintErrorView::CodeFetch { text: text@ },
            HintError::Rpc { text } => HintErrorView::Rpc { text: text@ },
            HintError::Header(e) => HintErrorView::Header(e),
            HintError::PayloadAttributes(e) => HintErrorView::PayloadAttributes(e),
        }
    }
}

/// The message of a hint's error; none for an error that another crate reported, which has a
/// message of its own.
pub open spec fn error_message(e: HintErrorView) -> Option<Seq<char>> {
    match e {
        HintErrorView::InvalidHintLength => Some("Invalid hint data length"@),
        HintErrorView::InvalidBlobHintLength { len } => Some(
            "Invalid blob hint length: expected 40 or 48 bytes, got "@ + decimal(len),
        ),
        HintErrorView::BlobFetch { text } => Some("Failed to fetch blobs with proofs: "@ + text),
        HintErrorView::BlobCount { got } => Some("Expected 1 blob, got "@ + decimal(got)),
        HintErrorView::BlockNotFound { chain: Chain::L1 } => Some("Block not found"@),
        HintErrorView::BlockNotFound { chain: Chain::L2 } => Some("Block not found."@),
        HintErrorView::OutputRootMismatch => Some("Output root does not match L2 head."@),
        HintErrorView::CodeFetch { text } => Some("Error fetching code hash preimage: "@ + text),
        HintErrorView::Rpc { text } => Some(text),
        HintErrorView::Header(_) => None,
        HintErrorView::PayloadAttributes(_) => None,
    }
}

impl HintError {
    /// The error's message, or `None` if the error carried inside has a message of its own.
    pub fn message(&self) -> (text: Option<String>)
        ensures
            match text {
                Some(s) => error_message(self@) == Some(s@),
                None => error_message(self@) is None,
            },
    {
        match self {
            HintError::InvalidHintLength => Some("Invalid hint data length".to_owned()),
            HintError::InvalidBlobHintLength { len } => {
                let start = "Invalid blob hint length: expected 40 or 48 bytes, got ".to_owned();
                Some(start.concat(decimal_text(*len as u64).as_str()))
            },
            HintError::BlobFetch { text } => Some(
                "Failed to fetch blobs with proofs: ".to_owned().concat(text.as_str()),
            ),
            HintError::BlobCount { got } => Some(
                "Expected 1 blob, got ".to_owned().concat(decimal_text(*got as u64).as_str()),
            ),
            HintError::BlockNotFound { chain: Chain::L1 } => Some("Block not found".to_owned()),
            HintError::BlockNotFound { chain: Chain::L2 } => Some("Block not found.".to_owned()),
            HintError::OutputRootMismatch => Some(
                "Output root does not match L2 head.".to_owned(),
            ),
            HintError::CodeFetch { text } => Some(
                "Error fetching code hash preimage: ".to_owned().concat(text.as_str()),
            ),
            HintError::Rpc { text } => Some(text.clone()),
            HintError::Header(_) => None,
            HintError::PayloadAttributes(_) => None,
        }
    }
}

/// An error tells of an unknown method exactly if the server answered with the code -32601.
pub proof fn law_method_not_found_code(e: RpcError)
    ensures
        METHOD_NOT_FOUND == -32601,
        error_code(e) == Some(METHOD_NOT_FOUND) <==> (e matches RpcError::ErrorResp(payload)
            && payload.code == -32601),
{
}

/// The message of each error, with the numbers and texts that the error carries.
pub proof fn law_error_messages(
    number: nat,
    text: Seq<char>,
    rlp: alloy_rlp::Error,
    json: serde_json::Error,
)
    ensures
        error_message(HintErrorView::InvalidHintLength) == Some("Invalid hint data length"@),
        error_message(HintErrorView::InvalidBlobHintLength { len: number }) == Some(
            "Invalid blob hint length: expected 40 or 48 bytes, got "@ + decimal(number),
        ),
        error_message(HintErrorView::BlobFetch { text }) == Some(
            "Failed to fetch blobs with proofs: "@ + text,
        ),
        error_message(HintErrorView::BlobCount { got: number }) == Some(
            "Expected 1 blob, got "@ + decimal(number),
        ),
        error_message(HintErrorView::BlockNotFound { chain: Chain::L1 }) == Some(
            "Block not found"@,
        ),
        error_message(HintErrorView::BlockNotFound { chain: Chain::L2 }) == Some(
            "Block not found."@,
        ),
        error_message(HintErrorView::OutputRootMismatch) == Some(
            "Output root does not match L2 head."@,
        ),
        error_message(HintErrorView::CodeFetch { text }) == Some(
            "Error fetching code hash preimage: "@ + text,
        ),
        error_message(HintErrorView::Rpc { text }) == Some(text),
        error_message(HintErrorView::Header(rlp)) is None,
        error_message(HintErrorView::PayloadAttributes(json)) is None,
{
}

/// The view of an error carries what the error carries.
pub proof fn law_error_view(
    number: usize,
    text: String,
    chain: Chain,
    rlp: alloy_rlp::Error,
    json: serde_json::Error,
)
    ensures
        HintError::InvalidHintLength@ == HintErrorView::InvalidHintLength,
        (HintError::InvalidBlobHintLength { len: number })@
            == (HintErrorView::InvalidBlobHintLength { len: number as nat }),
        (HintError::BlobFetch { text })@ == (HintErrorView::BlobFetch { text: text@ }),
        (HintError::BlobCount { got: number })@ == (HintErrorView::BlobCount {
            got: number as nat,
        }),
        (HintError::BlockNotFound { chain })@ == (HintErrorView::BlockNotFound { chain }),
        HintError::OutputRootMismatch@ == HintErrorView::OutputRootMismatch,
        (HintError::CodeFetch { text })@ == (HintErrorView::CodeFetch { text: text@ }),
        (HintError::Rpc { text })@ == (HintErrorView::Rpc { text: text@ }),
        HintError::Header(rlp)@ == HintErrorView::Header(rlp),
        HintError::PayloadAttributes(json)@ == HintErrorView::PayloadAttributes(json),
{
}

} // verus!
