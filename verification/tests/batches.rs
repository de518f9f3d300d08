use hint_host::batcher::{
    batch_line, has_l2_block_number, timestamp_to_l2_block, Batch, PipelineEvent, ScanAction,
    ScanRange,
};
use hint_host::decimal::decimal_text;

#[test]
fn timestamps_map_to_aligned_blocks() {
    assert_eq!(timestamp_to_l2_block(1000, 50, 1000, 2), Some(50));
    assert_eq!(timestamp_to_l2_block(1010, 50, 1000, 2), Some(55));
    assert_eq!(timestamp_to_l2_block(1011, 50, 1000, 2), None);
    assert_eq!(timestamp_to_l2_block(999, 50, 1000, 2), None);
    assert_eq!(timestamp_to_l2_block(1000, 50, 1000, 0), None);
    assert_eq!(timestamp_to_l2_block(u64::MAX, 0, 0, 1), Some(u64::MAX));
}

#[test]
fn the_block_after_n_block_times_is_found() {
    for n in [0u64, 1, 7, 1000] {
        assert_eq!(timestamp_to_l2_block(1_686_068_903 + 2 * n, 105_235_063, 1_686_068_903, 2), Some(105_235_063 + n));
    }
}

#[test]
fn numbers_that_do_not_fit_are_told() {
    assert!(!has_l2_block_number(u64::MAX, 1, 0, 1));
    assert!(has_l2_block_number(u64::MAX, 0, 0, 1));
    assert!(has_l2_block_number(5, u64::MAX, 6, 1));
    assert!(has_l2_block_number(7, u64::MAX, 0, 2));
    assert!(!has_l2_block_number(8, u64::MAX, 0, 2));
}

#[test]
fn batches_are_described() {
    let single = Batch::Single { timestamp: 1010, epoch_num: 9 };
    assert_eq!(
        batch_line(&single, 21_000_000, 50, 1000, 2),
        "L1 21000000: single batch → L2 block 55 (ts 1010, epoch 9)"
    );
    assert_eq!(
        batch_line(&single, 21_000_000, 50, 2000, 2),
        "L1 21000000: single batch, timestamp 1010 (L2 block unknown)"
    );
    let span = Batch::Span { starting_timestamp: 1000, final_timestamp: 1018, count: 10 };
    assert_eq!(
        batch_line(&span, 0, 50, 1000, 2),
        "L1 0: span batch → L2 blocks 50–59 (10 blocks, ts 1000–1018)"
    );
    let odd = Batch::Span { starting_timestamp: 1000, final_timestamp: 1019, count: 10 };
    assert_eq!(
        batch_line(&odd, 3, 50, 1000, 2),
        "L1 3: span batch, 10 blocks, ts 1000–1019 (L2 blocks unknown)"
    );
}

#[test]
fn a_scan_stops_at_its_last_block() {
    let range = ScanRange { l1_start: 10, l1_end: 12 };
    let batch = Batch::Single { timestamp: 1, epoch_num: 2 };
    assert!(matches!(
        range.on_event(PipelineEvent::Batch { batch, origin: Some(11) }),
        ScanAction::Show { l1_block: 11, .. }
    ));
    assert!(matches!(
        range.on_event(PipelineEvent::Batch { batch, origin: None }),
        ScanAction::Show { l1_block: 0, .. }
    ));
    assert!(matches!(range.on_event(PipelineEvent::Critical), ScanAction::Fail));
    assert!(matches!(
        range.on_event(PipelineEvent::Exhausted { origin: Some(11) }),
        ScanAction::Advance { current: 11 }
    ));
    assert!(matches!(
        range.on_event(PipelineEvent::Exhausted { origin: None }),
        ScanAction::Advance { current: 10 }
    ));
    assert!(matches!(
        range.on_event(PipelineEvent::Exhausted { origin: Some(12) }),
        ScanAction::Stop
    ));
    assert!(matches!(range.on_event(PipelineEvent::AdvanceFailed), ScanAction::Stop));
    let one_block = ScanRange { l1_start: 12, l1_end: 12 };
    assert!(matches!(
        one_block.on_event(PipelineEvent::Exhausted { origin: None }),
        ScanAction::Stop
    ));
}

#[test]
fn numbers_are_written_in_decimal() {
    for n in [0u64, 9, 10, 99, 100, 1234567890, u64::MAX] {
        assert_eq!(decimal_text(n), n.to_string());
    }
}
