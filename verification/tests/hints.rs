use std::collections::BTreeMap;

use alloy_consensus::Header;
use hint_host::blob::RootsOfUnity;
use hint_host::bytes::{read_be_u64, write_be_u64, B256};
use hint_host::error::{Chain, ErrorPayload, HintError, RpcError};
use hint_host::handler::{Hint, HintType, SingleChainHintHandler, SingleChainHost};
use hint_host::hint::payload_request;
use hint_host::output_root::OutputRoot;
use hint_host::preimage::{KvWrite, PreimageKey, PreimageKeyType};
use hint_host::reply::{checked_output_root, output_proof_request, precompile_writes};
use hint_host::step::{
    AccountProof, BlockId, ExecutionWitness, Pending, Reply, Request, SkipReason, Step,
};

fn cfg(witness: bool) -> SingleChainHost {
    SingleChainHost {
        agreed_l2_head_hash: [0xaa; 32],
        agreed_l2_output_root: [0xbb; 32],
        enable_experimental_witness_endpoint: witness,
    }
}

fn fetch(ty: HintType, data: Vec<u8>) -> Result<Step, HintError> {
    SingleChainHintHandler::fetch_hint(&Hint { ty, data }, &cfg(true))
}

fn resume(pending: Pending, reply: Reply) -> Result<Step, HintError> {
    let roots = RootsOfUnity::new(vec![[0; 4]; 4096]).unwrap();
    SingleChainHintHandler::resume(pending, reply, &roots)
}

fn failed(code: i64, text: &str) -> Reply {
    Reply::Failed {
        error: RpcError::ErrorResp(ErrorPayload { code, message: text.into(), data: None }),
        text: text.into(),
    }
}

fn keccak(data: &[u8]) -> B256 {
    alloy_primitives::keccak256(data).0
}

fn store_key(tag: u8, digest: B256) -> B256 {
    let mut key = digest;
    key[0] = tag;
    key
}

fn entries(writes: &[KvWrite]) -> Vec<(B256, Vec<u8>)> {
    writes.iter().map(|w| (w.key, w.value.clone())).collect()
}

fn stored(step: Result<Step, HintError>) -> Vec<(B256, Vec<u8>)> {
    match step {
        Ok(Step::Store { writes }) => entries(&writes),
        other => panic!("{:?}", other),
    }
}

#[test]
fn headers_are_asked_for_and_stored() {
    for (ty, on) in [(HintType::L1BlockHeader, Chain::L1), (HintType::L2BlockHeader, Chain::L2)] {
        match fetch(ty, vec![3; 32]).unwrap() {
            Step::Ask { request: Request::RawHeader { chain, hash }, pending } => {
                assert_eq!(chain, on);
                assert_eq!(hash, [3; 32]);
                let writes = stored(resume(pending, Reply::Bytes(vec![1, 2])));
                assert_eq!(writes, vec![(store_key(2, [3; 32]), vec![1, 2])]);
            }
            other => panic!("{:?}", other),
        }
    }
}

#[test]
fn wrong_lengths_are_refused() {
    for ty in [
        HintType::L1BlockHeader,
        HintType::L1Transactions,
        HintType::L1Receipts,
        HintType::L2BlockHeader,
        HintType::L2Transactions,
        HintType::StartingL2Output,
        HintType::L2Code,
        HintType::L2StateNode,
    ] {
        for len in [0usize, 31, 33] {
            assert!(matches!(fetch(ty, vec![0; len]), Err(HintError::InvalidHintLength)));
        }
        assert!(fetch(ty, vec![0; 32]).is_ok());
    }
    for (ty, good, bad) in [
        (HintType::L1Precompile, 28usize, 27usize),
        (HintType::L2AccountProof, 28, 29),
        (HintType::L2AccountStorageProof, 60, 59),
    ] {
        assert!(matches!(fetch(ty, vec![0; bad]), Err(HintError::InvalidHintLength)));
        assert!(fetch(ty, vec![0; good]).is_ok());
    }
    assert!(matches!(
        fetch(HintType::L2PayloadWitness, vec![0; 31]),
        Err(HintError::InvalidHintLength)
    ));
}

#[test]
fn transactions_and_receipts_become_tries() {
    for (ty, on) in [(HintType::L1Transactions, Chain::L1), (HintType::L2Transactions, Chain::L2)] {
        let ask = || match fetch(ty, vec![4; 32]).unwrap() {
            Step::Ask { request: Request::BlockTransactions { chain, hash }, pending } => {
                assert_eq!(chain, on);
                assert_eq!(hash, [4; 32]);
                pending
            }
            other => panic!("{:?}", other),
        };
        let list = vec![vec![1], vec![], vec![2, 3]];
        match resume(ask(), Reply::Transactions(Some(list.clone()))) {
            Ok(Step::StoreOrderedTrie { values }) => assert_eq!(values, list),
            other => panic!("{:?}", other),
        }
        match resume(ask(), Reply::Transactions(None)) {
            Err(HintError::BlockNotFound { chain }) => assert_eq!(chain, on),
            other => panic!("{:?}", other),
        }
    }
    match fetch(HintType::L1Receipts, vec![4; 32]).unwrap() {
        Step::Ask { request: Request::RawReceipts { hash }, pending } => {
            assert_eq!(hash, [4; 32]);
            match resume(pending, Reply::Receipts(vec![vec![8], vec![9]])) {
                Ok(Step::StoreOrderedTrie { values }) => assert_eq!(values, vec![vec![8], vec![9]]),
                other => panic!("{:?}", other),
            }
        }
        other => panic!("{:?}", other),
    }
}

#[test]
fn a_failed_call_fails_the_hint() {
    for pending in [
        Pending::Preimage { hash: [0; 32] },
        Pending::Transactions { chain: Chain::L1 },
        Pending::Receipts,
        Pending::OutputHeader { head_hash: [0; 32], output_root: [0; 32] },
        Pending::AccountProof,
        Pending::StorageProof,
    ] {
        match resume(pending, failed(-32000, "down")) {
            Err(HintError::Rpc { text }) => assert_eq!(text, "down"),
            other => panic!("{:?}", other),
        }
    }
}

#[test]
fn precompile_calls_are_parsed_and_stored() {
    let mut data = vec![0x11; 20];
    data.extend(500_000u64.to_be_bytes());
    data.extend([1, 2, 3]);
    let ask = || match fetch(HintType::L1Precompile, data.clone()).unwrap() {
        Step::Ask { request: Request::Precompile { address, gas, input }, pending } => {
            assert_eq!(address, [0x11; 20]);
            assert_eq!(gas, 500_000);
            assert_eq!(input, vec![1, 2, 3]);
            pending
        }
        other => panic!("{:?}", other),
    };
    let digest = keccak(&data);
    assert_eq!(
        stored(resume(ask(), Reply::Precompile(Some(vec![7, 8])))),
        vec![
            (store_key(2, digest), data.clone()),
            (store_key(6, digest), vec![1, 7, 8]),
        ]
    );
    assert_eq!(
        stored(resume(ask(), Reply::Precompile(None))),
        vec![(store_key(2, digest), data.clone()), (store_key(6, digest), vec![0])]
    );
    // An empty output is still a success.
    assert_eq!(
        entries(&precompile_writes([1; 32], vec![5], Some(vec![])))[1],
        (store_key(6, [1; 32]), vec![1])
    );
}

#[test]
fn the_starting_output_is_recomputed_and_checked() {
    let header = Header { state_root: [0x77; 32].into(), number: 5, ..Default::default() };
    let raw = alloy_rlp::encode(&header);
    let mut preimage = vec![0u8; 32];
    preimage.extend([0x77; 32]);
    preimage.extend([0x88; 32]);
    preimage.extend([0xaa; 32]);
    let root = keccak(&preimage);

    for (agreed, good) in [(root, true), ([0xbb; 32], false)] {
        let host = SingleChainHost { agreed_l2_output_root: agreed, ..cfg(false) };
        let hint = Hint { ty: HintType::StartingL2Output, data: vec![0; 32] };
        let pending = match SingleChainHintHandler::fetch_hint(&hint, &host).unwrap() {
            Step::Ask { request: Request::RawHeader { chain: Chain::L2, hash }, pending } => {
                assert_eq!(hash, [0xaa; 32]);
                pending
            }
            other => panic!("{:?}", other),
        };
        let pending = match resume(pending, Reply::Bytes(raw.clone())).unwrap() {
            Step::Ask { request: Request::Proof { address, slots, block }, pending } => {
                let mut expected = [0u8; 20];
                expected[0] = 0x42;
                expected[19] = 0x16;
                assert_eq!(address, expected);
                assert!(slots.is_empty());
                assert!(matches!(block, BlockId::Hash(hash) if hash == [0xaa; 32]));
                pending
            }
            other => panic!("{:?}", other),
        };
        let proof = AccountProof {
            storage_hash: [0x88; 32],
            account_proof: vec![],
            storage_proof: vec![],
        };
        let end = resume(pending, Reply::Proof(proof));
        if good {
            assert_eq!(stored(end), vec![(store_key(2, root), preimage.clone())]);
        } else {
            assert!(matches!(end, Err(HintError::OutputRootMismatch)));
        }
    }
}

#[test]
fn a_broken_header_fails_the_output_hint() {
    let pending = Pending::OutputHeader { head_hash: [1; 32], output_root: [2; 32] };
    assert!(matches!(
        resume(pending, Reply::Bytes(vec![0x80])),
        Err(HintError::Header(alloy_rlp::Error::UnexpectedString))
    ));
    assert!(matches!(
        output_proof_request(Err(alloy_rlp::Error::LeadingZero), [1; 32], [2; 32]),
        Err(HintError::Header(alloy_rlp::Error::LeadingZero))
    ));
    match output_proof_request(Ok([3; 32]), [1; 32], [2; 32]) {
        Ok(Step::Ask {
            pending: Pending::OutputProof { state_root, head_hash, output_root }, ..
        }) => {
            assert_eq!((state_root, head_hash, output_root), ([3; 32], [1; 32], [2; 32]));
        }
        other => panic!("{:?}", other),
    }
}

#[test]
fn output_roots_are_encoded_and_hashed() {
    let root = OutputRoot::from_parts([1; 32], [2; 32], [3; 32]);
    let bytes = root.encode();
    assert_eq!(bytes.len(), 128);
    assert_eq!(&bytes[..32], &[0; 32]);
    assert_eq!(&bytes[32..64], &[1; 32]);
    assert_eq!(&bytes[64..96], &[2; 32]);
    assert_eq!(&bytes[96..], &[3; 32]);
    assert_eq!(root.hash(), keccak(&bytes));
    assert!(checked_output_root([9; 32], &root, [9; 32]).is_ok());
    assert!(checked_output_root([9; 32], &root, [8; 32]).is_err());
}

#[test]
fn code_is_looked_up_twice() {
    let ask = || match fetch(HintType::L2Code, vec![6; 32]).unwrap() {
        Step::Ask { request: Request::DbGet { key }, pending } => {
            assert_eq!(key.len(), 33);
            assert_eq!(key[0], b'c');
            assert_eq!(&key[1..], &[6; 32]);
            pending
        }
        other => panic!("{:?}", other),
    };
    let code = vec![(store_key(2, [6; 32]), vec![0x60])];
    assert_eq!(stored(resume(ask(), Reply::Bytes(vec![0x60]))), code);
    let again = || match resume(ask(), failed(-32000, "no such key")).unwrap() {
        Step::Ask { request: Request::DbGet { key }, pending } => {
            assert_eq!(key, vec![6; 32]);
            pending
        }
        other => panic!("{:?}", other),
    };
    assert_eq!(stored(resume(again(), Reply::Bytes(vec![0x60]))), code);
    match resume(again(), failed(-32000, "still none")) {
        Err(HintError::CodeFetch { text }) => assert_eq!(text, "still none"),
        other => panic!("{:?}", other),
    }
}

#[test]
fn state_nodes_are_looked_up_by_hash() {
    match fetch(HintType::L2StateNode, vec![9; 32]).unwrap() {
        Step::Ask { request: Request::DbGet { key }, pending } => {
            assert_eq!(key, vec![9; 32]);
            assert_eq!(
                stored(resume(pending, Reply::Bytes(vec![5]))),
                vec![(store_key(2, [9; 32]), vec![5])]
            );
        }
        other => panic!("{:?}", other),
    }
}

fn node(bytes: &[u8]) -> (B256, Vec<u8>) {
    (store_key(2, keccak(bytes)), bytes.to_vec())
}

#[test]
fn account_proofs_are_stored_node_by_node() {
    let mut data = 77u64.to_be_bytes().to_vec();
    data.extend([0x22; 20]);
    match fetch(HintType::L2AccountProof, data).unwrap() {
        Step::Ask { request: Request::Proof { address, slots, block }, pending } => {
            assert_eq!(address, [0x22; 20]);
            assert!(slots.is_empty());
            assert!(matches!(block, BlockId::Number(77)));
            let proof = AccountProof {
                storage_hash: [0; 32],
                account_proof: vec![vec![1], vec![2, 2]],
                storage_proof: vec![],
            };
            assert_eq!(
                stored(resume(pending, Reply::Proof(proof))),
                vec![node(&[1]), node(&[2, 2])]
            );
        }
        other => panic!("{:?}", other),
    }
}

#[test]
fn storage_proofs_follow_the_account() {
    let mut data = 78u64.to_be_bytes().to_vec();
    data.extend([0x22; 20]);
    data.extend([0x33; 32]);
    match fetch(HintType::L2AccountStorageProof, data).unwrap() {
        Step::Ask { request: Request::Proof { address, slots, block }, pending } => {
            assert_eq!(address, [0x22; 20]);
            assert_eq!(slots, vec![[0x33; 32]]);
            assert!(matches!(block, BlockId::Number(78)));
            let proof = AccountProof {
                storage_hash: [0; 32],
                account_proof: vec![vec![1]],
                storage_proof: vec![vec![vec![4], vec![5]], vec![vec![6]]],
            };
            assert_eq!(
                stored(resume(pending, Reply::Proof(proof))),
                vec![node(&[1]), node(&[4]), node(&[5])]
            );
        }
        other => panic!("{:?}", other),
    }
}

fn attributes_json() -> &'static str {
    "{\"timestamp\":\"0x64\",\"prevRandao\":\"0x0000000000000000000000000000000000000000000000000000000000000001\",\"suggestedFeeRecipient\":\"0x4200000000000000000000000000000000000011\",\"noTxPool\":true,\"gasLimit\":\"0x1c9c380\"}"
}

#[test]
fn witness_hints_carry_parsed_attributes() {
    let mut data = vec![0x44; 32];
    data.extend(attributes_json().as_bytes());
    match fetch(HintType::L2PayloadWitness, data).unwrap() {
        Step::Ask {
            request: Request::ExecutePayload { parent_block_hash, attributes },
            pending: Pending::Witness,
        } => {
            assert_eq!(parent_block_hash, [0x44; 32]);
            assert_eq!(attributes.payload_attributes.timestamp, 100);
            assert_eq!(attributes.no_tx_pool, Some(true));
            assert_eq!(attributes.gas_limit, Some(30_000_000));
        }
        other => panic!("{:?}", other),
    }
    let mut data = vec![0x44; 32];
    data.extend(b"{}");
    assert!(matches!(
        fetch(HintType::L2PayloadWitness, data),
        Err(HintError::PayloadAttributes(_))
    ));
    let parsed = serde_json::from_slice(attributes_json().as_bytes());
    match payload_request([5; 32], parsed) {
        Ok(Step::Ask { request: Request::ExecutePayload { parent_block_hash, .. }, .. }) => {
            assert_eq!(parent_block_hash, [5; 32])
        }
        other => panic!("{:?}", other),
    }
}

#[test]
fn witnesses_are_stored_in_order() {
    let witness = ExecutionWitness {
        state: vec![vec![1], vec![2]],
        codes: vec![vec![3]],
        keys: vec![vec![4], vec![]],
    };
    assert_eq!(
        stored(resume(Pending::Witness, Reply::Witness(witness))),
        vec![node(&[1]), node(&[2]), node(&[3]), node(&[4]), node(&[])]
    );
}

#[test]
fn witnesses_can_be_missing_or_switched_off() {
    let hint = Hint { ty: HintType::L2PayloadWitness, data: vec![1] };
    assert!(matches!(
        SingleChainHintHandler::fetch_hint(&hint, &cfg(false)),
        Ok(Step::Skip { reason: SkipReason::WitnessDisabled })
    ));
    assert!(matches!(
        resume(Pending::Witness, failed(-32601, "method not found")),
        Ok(Step::Skip { reason: SkipReason::WitnessUnavailable { method_not_found: true } })
    ));
    assert!(matches!(
        resume(Pending::Witness, failed(-32000, "busy")),
        Ok(Step::Skip { reason: SkipReason::WitnessUnavailable { method_not_found: false } })
    ));
}

#[test]
fn digests_are_keccak256() {
    let empty = stored(resume(
        Pending::AccountProof,
        Reply::Proof(AccountProof {
            storage_hash: [0; 32],
            account_proof: vec![vec![]],
            storage_proof: vec![],
        }),
    ));
    // keccak256 of nothing: c5d24601...5d85a470
    assert_eq!(empty[0].0[..4], [0x02, 0xd2, 0x46, 0x01]);
    assert_eq!(empty[0].0[28..], [0x5d, 0x85, 0xa4, 0x70]);
}

#[test]
fn keys_carry_their_type() {
    let digest = [0xee; 32];
    for (ty, tag) in [
        (PreimageKeyType::Keccak256, 2u8),
        (PreimageKeyType::Sha256, 4),
        (PreimageKeyType::Blob, 5),
        (PreimageKeyType::Precompile, 6),
    ] {
        assert_eq!(PreimageKey::new(digest, ty).to_b256(), store_key(tag, digest));
    }
    assert_eq!(PreimageKey::new_keccak256(digest).to_b256(), store_key(2, digest));
}

#[test]
fn every_stored_node_is_its_keys_preimage() {
    let mut store: BTreeMap<B256, Vec<u8>> = BTreeMap::new();
    let witness = ExecutionWitness {
        state: vec![vec![1, 2, 3], vec![1, 2, 3]],
        codes: vec![vec![0xfe]],
        keys: vec![],
    };
    for (key, value) in stored(resume(Pending::Witness, Reply::Witness(witness))) {
        store.insert(key, value);
    }
    assert_eq!(store.len(), 2);
    for (key, value) in &store {
        assert_eq!(*key, store_key(2, keccak(value)));
    }
}

#[test]
fn big_endian_integers_read_back() {
    for n in [0u64, 1, 255, 256, 0x0102030405060708, u64::MAX] {
        let bytes = write_be_u64(n, 8);
        assert_eq!(bytes, n.to_be_bytes().to_vec());
        assert_eq!(read_be_u64(&bytes, 0), n);
    }
}
