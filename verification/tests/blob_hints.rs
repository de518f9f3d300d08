use hint_host::blob::{
    blob_writes, BlobWithCommitmentAndProof, RootsOfUnity, BYTES_PER_BLOB,
    FIELD_ELEMENTS_PER_BLOB,
};
use hint_host::bytes::B256;
use hint_host::error::HintError;
use hint_host::handler::SingleChainHintHandler;
use hint_host::hint::{l1_blob, parse_blob_hint};
use hint_host::step::{Pending, Reply, Request, Step};

const TEST_HASH: B256 = [0x42u8; 32];
const TEST_TIMESTAMP: u64 = 1234567890;

// Legacy format: hash (32 bytes) + index (8 bytes) + timestamp (8 bytes) = 48 bytes
const LEGACY_HINT: [u8; 48] = [
    0x42, 0x42, 0x42, 0x42, 0x42, 0x42, 0x42, 0x42, 0x42, 0x42, 0x42, 0x42, 0x42, 0x42, 0x42,
    0x42, 0x42, 0x42, 0x42, 0x42, 0x42, 0x42, 0x42, 0x42, 0x42, 0x42, 0x42, 0x42, 0x42, 0x42,
    0x42, 0x42, // Hash (32 bytes):
    0x00, 0x00, 0x00, 0x00, 0x00, 0x00, 0xFA, 0xCA, // Index (8 bytes, ignored)
    0x00, 0x00, 0x00, 0x00, 0x49, 0x96, 0x02, 0xD2, // Timestamp (8 bytes): 1234567890
];

// New format: hash (32 bytes) + timestamp (8 bytes) = 40 bytes
const NEW_HINT: [u8; 40] = [
    0x42, 0x42, 0x42, 0x42, 0x42, 0x42, 0x42, 0x42, 0x42, 0x42, 0x42, 0x42, 0x42, 0x42, 0x42,
    0x42, 0x42, 0x42, 0x42, 0x42, 0x42, 0x42, 0x42, 0x42, 0x42, 0x42, 0x42, 0x42, 0x42, 0x42,
    0x42, 0x42, // Hash (32 bytes)
    0x00, 0x00, 0x00, 0x00, 0x49, 0x96, 0x02, 0xD2, // Timestamp (8 bytes): 1234567890
];

#[test]
fn test_parse_blob_hint_formats() {
    let (legacy_hash, legacy_timestamp) = parse_blob_hint(&LEGACY_HINT).unwrap();
    let (new_hash, new_timestamp) = parse_blob_hint(&NEW_HINT).unwrap();

    assert_eq!(legacy_hash, TEST_HASH);
    assert_eq!(legacy_timestamp, TEST_TIMESTAMP);
    assert_eq!(new_hash, TEST_HASH);
    assert_eq!(new_timestamp, TEST_TIMESTAMP);
}

#[test]
fn test_parse_blob_hint_invalid_length() {
    let hint_data = vec![0u8; 35];
    let result = parse_blob_hint(&hint_data);

    assert!(result.is_err());
    let err_msg = result.unwrap_err().message().unwrap();
    assert!(err_msg.contains("Invalid blob hint length"));
    assert!(err_msg.contains("expected 40 or 48 bytes"));
    assert!(err_msg.contains("got 35"));
}

#[test]
fn the_legacy_index_has_no_effect() {
    let mut other = LEGACY_HINT;
    for i in 32..40 {
        other[i] = 0xff;
    }
    assert_eq!(parse_blob_hint(&other).unwrap(), parse_blob_hint(&LEGACY_HINT).unwrap());
}

#[test]
fn extreme_timestamps_are_read() {
    let mut data = vec![7u8; 40];
    for i in 32..40 {
        data[i] = 0xff;
    }
    assert_eq!(parse_blob_hint(&data).unwrap(), ([7u8; 32], u64::MAX));
    for i in 32..40 {
        data[i] = 0;
    }
    data[32] = 1;
    assert_eq!(parse_blob_hint(&data).unwrap().1, 1u64 << 56);
}

#[test]
fn a_blob_hint_asks_for_its_blob() {
    for data in [&NEW_HINT[..], &LEGACY_HINT[..]] {
        match l1_blob(data).unwrap() {
            Step::Ask {
                request: Request::Blobs { hash, timestamp },
                pending: Pending::Blob { hash: kept },
            } => {
                assert_eq!(hash, TEST_HASH);
                assert_eq!(timestamp, TEST_TIMESTAMP);
                assert_eq!(kept, TEST_HASH);
            }
            other => panic!("{:?}", other),
        }
    }
    assert!(matches!(l1_blob(&[0u8; 32]), Err(HintError::InvalidBlobHintLength { len: 32 })));
}

fn roots() -> RootsOfUnity {
    let mut limbs = Vec::new();
    for i in 0..4096u64 {
        limbs.push([i, 0x0102030405060708, 2, 0xa0a1a2a3a4a5a6a7]);
    }
    RootsOfUnity::new(limbs).unwrap()
}

fn blob() -> BlobWithCommitmentAndProof {
    let mut bytes = Vec::new();
    for i in 0..BYTES_PER_BLOB {
        bytes.push((i / 32 % 251) as u8);
    }
    BlobWithCommitmentAndProof::new(bytes, [9u8; 48], [5u8; 48]).unwrap()
}

fn root_bytes(i: u64) -> Vec<u8> {
    let mut bytes = vec![0xa0, 0xa1, 0xa2, 0xa3, 0xa4, 0xa5, 0xa6, 0xa7, 0, 0, 0, 0, 0, 0, 0, 2];
    bytes.extend([1, 2, 3, 4, 5, 6, 7, 8]);
    bytes.extend(i.to_be_bytes());
    bytes
}

fn store_key(tag: u8, digest: [u8; 32]) -> [u8; 32] {
    let mut key = digest;
    key[0] = tag;
    key
}

#[test]
fn a_blob_is_laid_out_slot_by_slot() {
    assert_eq!(FIELD_ELEMENTS_PER_BLOB, alloy_eips::eip4844::FIELD_ELEMENTS_PER_BLOB);
    assert_eq!(BYTES_PER_BLOB, alloy_eips::eip4844::BYTES_PER_BLOB);

    let writes = blob_writes(TEST_HASH, &blob(), &roots());
    assert_eq!(writes.len(), 1 + 2 * 4096 + 2);

    assert_eq!(writes[0].key, store_key(4, TEST_HASH));
    assert_eq!(writes[0].value, vec![5u8; 48]);

    for i in [0usize, 1, 255, 256, 4095] {
        let mut key = vec![5u8; 48];
        key.extend(root_bytes(i as u64));
        let digest = alloy_primitives::keccak256(&key).0;
        assert_eq!(writes[2 * i + 1].key, store_key(2, digest));
        assert_eq!(writes[2 * i + 1].value, key);
        assert_eq!(writes[2 * i + 2].key, store_key(5, digest));
        assert_eq!(writes[2 * i + 2].value, vec![(i % 251) as u8; 32]);
    }

    // The proof's key keeps the front of the last root.
    let mut key = vec![5u8; 48];
    key.extend(&root_bytes(4095)[..24]);
    key.extend(4096u64.to_be_bytes());
    let digest = alloy_primitives::keccak256(&key).0;
    assert_eq!(writes[8193].key, store_key(2, digest));
    assert_eq!(writes[8193].value, key);
    assert_eq!(writes[8194].key, store_key(5, digest));
    assert_eq!(writes[8194].value, vec![9u8; 48]);
}

#[test]
fn a_blob_hint_stores_exactly_one_blob() {
    let pending = || Pending::Blob { hash: TEST_HASH };
    let table = roots();
    match SingleChainHintHandler::resume(pending(), Reply::Blobs(vec![blob()]), &table) {
        Ok(Step::Store { writes }) => assert_eq!(writes.len(), 8195),
        other => panic!("{:?}", other),
    }
    assert!(matches!(
        SingleChainHintHandler::resume(pending(), Reply::Blobs(vec![]), &table),
        Err(HintError::BlobCount { got: 0 })
    ));
    assert!(matches!(
        SingleChainHintHandler::resume(pending(), Reply::Blobs(vec![blob(), blob()]), &table),
        Err(HintError::BlobCount { got: 2 })
    ));
    match SingleChainHintHandler::resume(
        pending(),
        Reply::BlobsFailed { text: "gone".into() },
        &table,
    ) {
        Err(HintError::BlobFetch { text }) => assert_eq!(text, "gone"),
        other => panic!("{:?}", other),
    }
}

#[test]
fn sizes_of_blobs_and_tables_are_checked() {
    assert!(BlobWithCommitmentAndProof::new(vec![0; BYTES_PER_BLOB - 1], [0; 48], [0; 48]).is_none());
    assert!(BlobWithCommitmentAndProof::new(vec![0; BYTES_PER_BLOB + 1], [0; 48], [0; 48]).is_none());
    assert!(RootsOfUnity::new(vec![[0; 4]; 4095]).is_none());
    assert!(RootsOfUnity::new(vec![[0; 4]; 4097]).is_none());
}
