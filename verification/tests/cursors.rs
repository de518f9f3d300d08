use hint_host::sync::{
    channel_start_number, new_oracle_pipeline_cursor, BlockInfo, BlockNumHash, CursorReply,
    CursorBuilder, CursorRequest, CursorStep, L2BlockInfo, ProviderFailure,
};

type Step = CursorStep<&'static str, u8, u16>;

fn next(builder: CursorBuilder<&'static str>, reply: CursorReply<u8, u16>) -> Step {
    builder.resume(reply)
}

fn block(number: u64) -> BlockInfo {
    BlockInfo { hash: [number as u8; 32], number, parent_hash: [0; 32], timestamp: number * 12 }
}

#[test]
fn the_start_is_one_timeout_back_but_not_before_genesis() {
    assert_eq!(channel_start_number(1000, 300, 100), 700);
    assert_eq!(channel_start_number(1000, 900, 100), 100);
    assert_eq!(channel_start_number(1000, 901, 100), 100);
    assert_eq!(channel_start_number(200, 300, 0), 0);
    assert_eq!(channel_start_number(200, u64::MAX, 7), 7);
    assert_eq!(channel_start_number(u64::MAX, 0, 0), u64::MAX);
    assert_eq!(channel_start_number(50, 0, 100), 100);
}

#[test]
fn a_cursor_is_built_in_four_questions() {
    let safe_head = L2BlockInfo {
        block_info: block(42),
        l1_origin: BlockNumHash { number: 1000, hash: [1; 32] },
        seq_num: 3,
    };
    let step: Step = new_oracle_pipeline_cursor(100, 42, "header", [0xcc; 32]);
    let builder = match step {
        CursorStep::Ask { request: CursorRequest::L2BlockInfo { number: 42 }, builder } => builder,
        other => panic!("{:?}", other),
    };
    let builder = match next(builder, CursorReply::L2BlockInfo(safe_head)) {
        CursorStep::Ask { request: CursorRequest::L1BlockInfo { number: 1000 }, builder } => builder,
        other => panic!("{:?}", other),
    };
    let builder = match next(builder, CursorReply::L1BlockInfo(block(1000))) {
        CursorStep::Ask { request: CursorRequest::ChannelTimeout { timestamp }, builder } => {
            assert_eq!(timestamp, 42 * 12);
            builder
        }
        other => panic!("{:?}", other),
    };
    let builder = match next(builder, CursorReply::ChannelTimeout(300)) {
        CursorStep::Ask { request: CursorRequest::L1BlockInfo { number: 700 }, builder } => builder,
        other => panic!("{:?}", other),
    };
    match next(builder, CursorReply::L1BlockInfo(block(700))) {
        CursorStep::Done(seed) => {
            assert_eq!(seed.channel_timeout, 300);
            assert_eq!(seed.origin.number, 700);
            assert_eq!(seed.tip.l2_safe_head.block_info.number, 42);
            assert_eq!(seed.tip.l2_safe_head.seq_num, 3);
            assert_eq!(seed.tip.l2_safe_head_header, "header");
            assert_eq!(seed.tip.l2_safe_head_output_root, [0xcc; 32]);
        }
        other => panic!("{:?}", other),
    }
}

fn safe_head() -> L2BlockInfo {
    L2BlockInfo {
        block_info: block(42),
        l1_origin: BlockNumHash { number: 1000, hash: [1; 32] },
        seq_num: 3,
    }
}

fn waiting(replies: Vec<CursorReply<u8, u16>>) -> CursorBuilder<&'static str> {
    let mut step: Step = new_oracle_pipeline_cursor(100, 42, "header", [0xcc; 32]);
    for reply in replies {
        step = match step {
            CursorStep::Ask { builder, .. } => builder.resume(reply),
            other => panic!("{:?}", other),
        };
    }
    match step {
        CursorStep::Ask { builder, .. } => builder,
        other => panic!("{:?}", other),
    }
}

#[test]
fn a_failed_provider_ends_the_construction() {
    let head = || CursorReply::L2BlockInfo(safe_head());
    let origin = || CursorReply::L1BlockInfo(block(1000));
    let timeout = || CursorReply::ChannelTimeout(300);

    let l2_failed = CursorReply::Failed(ProviderFailure::L2(9u16));
    assert!(matches!(
        next(waiting(vec![]), l2_failed),
        CursorStep::Failed(ProviderFailure::L2(9))
    ));
    for before in [vec![head()], vec![head(), origin(), timeout()]] {
        let l1_failed = CursorReply::Failed(ProviderFailure::L1(7u8));
        assert!(matches!(
            next(waiting(before), l1_failed),
            CursorStep::Failed(ProviderFailure::L1(7))
        ));
    }
}

#[test]
fn provider_errors_are_converted() {
    let l1: ProviderFailure<u8, u16> = ProviderFailure::L1(7);
    let l2: ProviderFailure<u8, u16> = ProviderFailure::L2(900);
    assert_eq!(l1.into_error::<u32>(), 7);
    assert_eq!(l2.into_error::<u32>(), 900);
}
