use hint_host::error::{is_rpc_method_not_found, Chain, ErrorPayload, HintError, RpcError};

#[test]
fn test_is_rpc_method_not_found_true() {
    let e = RpcError::ErrorResp(ErrorPayload {
        code: -32601,
        message: "method not found".into(),
        data: None,
    });
    assert!(is_rpc_method_not_found(&e));
}

#[test]
fn test_is_rpc_method_not_found_false_wrong_code() {
    let e = RpcError::ErrorResp(ErrorPayload {
        code: -32600,
        message: "invalid request".into(),
        data: None,
    });
    assert!(!is_rpc_method_not_found(&e));
}

#[test]
fn test_is_rpc_method_not_found_false_null_resp() {
    let e = RpcError::NullResp;
    assert!(!is_rpc_method_not_found(&e));
}

#[test]
fn other_failures_are_not_method_not_found() {
    assert!(!is_rpc_method_not_found(&RpcError::Transport("-32601".into())));
    assert!(!is_rpc_method_not_found(&RpcError::DeserError {
        err: "e".into(),
        text: "t".into()
    }));
}

#[test]
fn messages_of_hint_errors() {
    let text = |e: HintError| e.message().unwrap();
    assert_eq!(text(HintError::InvalidHintLength), "Invalid hint data length");
    assert_eq!(
        text(HintError::InvalidBlobHintLength { len: 1203 }),
        "Invalid blob hint length: expected 40 or 48 bytes, got 1203"
    );
    assert_eq!(
        text(HintError::BlobFetch { text: "no beacon".into() }),
        "Failed to fetch blobs with proofs: no beacon"
    );
    assert_eq!(text(HintError::BlobCount { got: 0 }), "Expected 1 blob, got 0");
    assert_eq!(text(HintError::BlockNotFound { chain: Chain::L1 }), "Block not found");
    assert_eq!(text(HintError::BlockNotFound { chain: Chain::L2 }), "Block not found.");
    assert_eq!(text(HintError::OutputRootMismatch), "Output root does not match L2 head.");
    assert_eq!(
        text(HintError::CodeFetch { text: "gone".into() }),
        "Error fetching code hash preimage: gone"
    );
    assert_eq!(text(HintError::Rpc { text: "down".into() }), "down");
    assert!(HintError::Header(alloy_rlp::Error::Overflow).message().is_none());
}
