//! Where derivation starts: the cursor of an oracle-backed pipeline.

use vstd::prelude::*;

use crate::bytes::B256;

verus! {

/// A block's place in its chain.
#[derive(Clone, Copy, Debug)]
pub struct BlockInfo {
    pub hash: B256,
    pub number: u64,
    pub parent_hash: B256,
    pub timestamp: u64,
}

/// A block's number and hash.
#[derive(Clone, Copy, Debug)]
pub struct BlockNumHash {
    pub number: u64,
    pub hash: B256,
}

/// An L2 block's place in its chain, and the L1 block it derives from.
#[derive(Clone, Copy, Debug)]
pub struct L2BlockInfo {
    pub block_info: BlockInfo,
    pub l1_origin: BlockNumHash,
    pub seq_num: u64,
}

/// The tip that a cursor starts from; `H` is the type of the safe head's header.
#[derive(Debug)]
pub struct TipCursor<H> {
    pub l2_safe_head: L2BlockInfo,
    pub l2_safe_head_header: H,
    pub l2_safe_head_output_root: B256,
}

/// What a pipeline cursor is made of: it is created with the channel timeout and the origin,
/// and then advanced to the same origin with the tip.
#[derive(Debug)]
pub struct CursorSeed<H> {
    pub channel_timeout: u64,
    pub origin: BlockInfo,
    pub tip: TipCursor<H>,
}

/// Something that only the providers and the rollup configuration can answer.
#[derive(Clone, Copy, Debug)]
pub enum CursorRequest {
    /// The L2 block of this number.
    L2BlockInfo { number: u64 },
    /// The channel timeout in force at this L2 timestamp.
    ChannelTimeout { timestamp: u64 },
    /// The L1 block of this number.
    L1BlockInfo { number: u64 },
}

/// The answer to a [`CursorRequest`]; `E1` and `E2` are the errors of the L1 and the L2
/// provider.
#[derive(Debug)]
pub enum CursorReply<E1, E2> {
    L2BlockInfo(L2BlockInfo),
    ChannelTimeout(u64),
    L1BlockInfo(BlockInfo),
    /// A provider failed.
    Failed(ProviderFailure<E1, E2>),
}

/// The error of one of the two providers.
#[derive(Debug)]
pub enum ProviderFailure<E1, E2> {
    L1(E1),
    L2(E2),
}

impl<E1, E2> ProviderFailure<E1, E2> {
    /// Whether `error` is what its type makes of the provider's error.
    pub open spec fn becomes<E: From<E1> + From<E2>>(self, error: E) -> bool {
        match self {
            ProviderFailure::L1(e) => call_ensures(<E as From<E1>>::from, (e,), error),
            ProviderFailure::L2(e) => call_ensures(<E as From<E2>>::from, (e,), error),
        }
    }

    /// The provider's error, converted to the error that the construction reports.
    pub fn into_error<E: From<E1> + From<E2>>(self) -> (error: E)
        ensures
            self.becomes(error),
    {
        match self {
            ProviderFailure::L1(e) => E::from(e),
            ProviderFailure::L2(e) => E::from(e),
        }
    }
}

/// How far the construction of a cursor has come.
#[derive(Clone, Copy, Debug)]
pub enum CursorStage {
    /// Waiting for the safe head.
    SafeHead,
    /// Waiting for the safe head's L1 origin.
    L1Origin { safe_head: L2BlockInfo },
    /// Waiting for the channel timeout at the safe head.
    Timeout { safe_head: L2BlockInfo, l1_origin: BlockInfo },
    /// Waiting for the L1 block to start from.
    Start { safe_head: L2BlockInfo, channel_timeout: u64 },
}

/// A cursor under construction.
#[derive(Debug)]
pub struct CursorBuilder<H> {
    /// The number of the L1 block that the rollup's genesis is anchored to.
    pub genesis_l1_number: u64,
    pub safe_header: H,
    pub agreed_l2_output_root: B256,
    pub stage: CursorStage,
}

/// What to do next to construct a cursor.
#[derive(Debug)]
pub enum CursorStep<H, E1, E2> {
    /// Get the reply to `request`, and go on from `builder` with it.
    Ask { request: CursorRequest, builder: CursorBuilder<H> },
    /// The cursor can be made.
    Done(CursorSeed<H>),
    /// The construction has failed: nothing is asked any more.
    Failed(ProviderFailure<E1, E2>),
}

/// The number of the L1 block that derivation starts from: `channel_timeout` blocks before the
/// safe head's L1 origin, but not before the rollup's genesis.
pub open spec fn channel_start(
    l1_origin_number: int,
    channel_timeout: int,
    genesis_l1_number: int,
) -> int {
    if l1_origin_number - channel_timeout < genesis_l1_number {
        genesis_l1_number
    } else {
        l1_origin_number - channel_timeout
    }
}

/// Walks back from the safe head's L1 origin by the channel timeout, so that the full channel
/// is captured, but not beyond the rollup's genesis.
pub fn channel_start_number(
    l1_origin_number: u64,
    channel_timeout: u64,
    genesis_l1_number: u64,
) -> (number: u64)
    ensures
        number == channel_start(
            l1_origin_number as int,
            channel_timeout as int,
            genesis_l1_number as int,
        ),
{
    let mut number: u64 = l1_origin_number.saturating_sub(channel_timeout);
    if number < genesis_l1_number {
        number = genesis_l1_number;
    }
    number
}

/// Starts the construction of a pipeline cursor by asking for the L2 block of the safe header.
pub fn new_oracle_pipeline_cursor<H, E1, E2>(
    genesis_l1_number: u64,
    safe_header_number: u64,
    safe_header: H,
    agreed_l2_output_root: B256,
) -> (step: CursorStep<H, E1, E2>)
    ensures
        step == (CursorStep::<H, E1, E2>::Ask {
            request: CursorRequest::L2BlockInfo { number: safe_header_number },
            builder: CursorBuilder {
                genesis_l1_number,
                safe_header,
                agreed_l2_output_root,
                stage: CursorStage::SafeHead,
            },
        }),
{
    CursorStep::Ask {
        request: CursorRequest::L2BlockInfo { number: safe_header_number },
        builder: CursorBuilder {
            genesis_l1_number,
            safe_header,
            agreed_l2_output_root,
            stage: CursorStage::SafeHead,
        },
    }
}

impl CursorStage {
    /// Whether `reply` is an answer to what this stage waits for: the block asked for or the
    /// failure of the provider asked, or the channel timeout.
    pub open spec fn answered_by<E1, E2>(self, reply: CursorReply<E1, E2>) -> bool {
        match self {
            CursorStage::SafeHead => match reply {
                CursorReply::L2BlockInfo(_) => true,
                CursorReply::Failed(failure) => failure is L2,
                _ => false,
            },
            CursorStage::L1Origin { .. } | CursorStage::Start { .. } => match reply {
                CursorReply::L1BlockInfo(_) => true,
                CursorReply::Failed(failure) => failure is L1,
                _ => false,
            },
            CursorStage::Timeout { .. } => reply is ChannelTimeout,
        }
    }
}

impl<H> CursorBuilder<H> {
    /// This builder at another stage, asking for what that stage waits for.
    pub open spec fn at_stage<E1, E2>(
        self,
        stage: CursorStage,
        request: CursorRequest,
    ) -> CursorStep<H, E1, E2> {
        CursorStep::Ask { request, builder: CursorBuilder { stage, ..self } }
    }

    /// The step that follows a reply: the safe head names its L1 origin, the origin and the
    /// channel timeout at the safe head name the block to start from, and that block is the
    /// cursor's origin. A failure ends the construction.
    pub open spec fn resume_spec<E1, E2>(self, reply: CursorReply<E1, E2>) -> CursorStep<
        H,
        E1,
        E2,
    >
        recommends
            self.stage.answered_by(reply),
    {
        match (self.stage, reply) {
            (CursorStage::SafeHead, CursorReply::L2BlockInfo(safe_head)) => self.at_stage(
                CursorStage::L1Origin { safe_head },
                CursorRequest::L1BlockInfo { number: safe_head.l1_origin.number },
            ),
            (
                CursorStage::L1Origin { safe_head },
                CursorReply::L1BlockInfo(l1_origin),
            ) => self.at_stage(
                CursorStage::Timeout { safe_head, l1_origin },
                CursorRequest::ChannelTimeout { timestamp: safe_head.block_info.timestamp },
            ),
            (
                CursorStage::Timeout { safe_head, l1_origin },
                CursorReply::ChannelTimeout(channel_timeout),
            ) => self.at_stage(
                CursorStage::Start { safe_head, channel_timeout },
                CursorRequest::L1BlockInfo {
                    number: channel_start(
                        l1_origin.number as int,
                        channel_timeout as int,
                        self.genesis_l1_number as int,
                    ) as u64,
                },
            ),
            (
                CursorStage::Start { safe_head, channel_timeout },
                CursorReply::L1BlockInfo(origin),
            ) => CursorStep::Done(
                CursorSeed {
                    channel_timeout,
                    origin,
                    tip: TipCursor {
                        l2_safe_head: safe_head,
                        l2_safe_head_header: self.safe_header,
                        l2_safe_head_output_root: self.agreed_l2_output_root,
                    },
                },
            ),
            (_, CursorReply::Failed(failure)) => CursorStep::Failed(failure),
            _ => arbitrary(),
        }
    }

    /// The step that follows a reply.
    pub fn resume<E1, E2>(self, reply: CursorReply<E1, E2>) -> (step: CursorStep<H, E1, E2>)
        requires
            self.stage.answered_by(reply),
        ensures
            step == self.resume_spec(reply),
    {
        match (self.stage, reply) {
            (CursorStage::SafeHead, CursorReply::L2BlockInfo(safe_head)) => CursorStep::Ask {
                request: CursorRequest::L1BlockInfo { number: safe_head.l1_origin.number },
                builder: CursorBuilder { stage: CursorStage::L1Origin { safe_head }, ..self },
            },
            (CursorStage::L1Origin { safe_head }, CursorReply::L1BlockInfo(l1_origin)) => {
                CursorStep::Ask {
                    request: CursorRequest::ChannelTimeout {
                        timestamp: safe_head.block_info.timestamp,
                    },
                    builder: CursorBuilder {
                        stage: CursorStage::Timeout { safe_head, l1_origin },
                        ..self
                    },
                }
            },
            (
                CursorStage::Timeout { safe_head, l1_origin },
                CursorReply::ChannelTimeout(channel_timeout),
            ) => {
                let number: u64 = channel_start_number(
                    l1_origin.number,
                    channel_timeout,
                    self.genesis_l1_number,
                );
                CursorStep::Ask {
                    request: CursorRequest::L1BlockInfo { number },
                    builder: CursorBuilder {
                        stage: CursorStage::Start { safe_head, channel_timeout },
                        ..self
                    },
                }
            },
            (
                CursorStage::Start { safe_head, channel_timeout },
                CursorReply::L1BlockInfo(origin),
            ) => CursorStep::Done(
                CursorSeed {
                    channel_timeout,
                    origin,
                    tip: TipCursor {
                        l2_safe_head: safe_head,
                        l2_safe_head_header: self.safe_header,
                        l2_safe_head_output_root: self.agreed_l2_output_root,
                    },
                },
            ),
            (_, CursorReply::Failed(failure)) => CursorStep::Failed(failure),
            _ => vstd::pervasive::unreached(),
        }
    }
}

/// Derivation starts no earlier than the rollup's genesis, exactly one channel timeout before
/// the safe head's L1 origin wherever genesis allows it, and never after an origin that is not
/// before genesis.
pub proof fn law_channel_start(l1_origin_number: int, channel_timeout: int, genesis_l1_number: int)
    requires
        0 <= channel_timeout,
    ensures
        channel_start(l1_origin_number, channel_timeout, genesis_l1_number) >= genesis_l1_number,
        l1_origin_number - channel_timeout >= genesis_l1_number ==> channel_start(
            l1_origin_number,
            channel_timeout,
            genesis_l1_number,
        ) == l1_origin_number - channel_timeout,
        l1_origin_number >= genesis_l1_number ==> channel_start(
            l1_origin_number,
            channel_timeout,
            genesis_l1_number,
        ) <= l1_origin_number,
{
}

/// The requests that are made from `step` on, if they get these replies in turn.
pub open spec fn requests_made<H, E1, E2>(
    step: CursorStep<H, E1, E2>,
    replies: Seq<CursorReply<E1, E2>>,
) -> Seq<CursorRequest>
    decreases replies.len(),
{
    match step {
        CursorStep::Ask { request, builder } => if replies.len() == 0 {
            seq![request]
        } else {
            seq![request] + requests_made(
                builder.resume_spec(replies.first()),
                replies.drop_first(),
            )
        },
        _ => Seq::empty(),
    }
}

/// The step that is reached from `step`, if its requests get these replies in turn.
pub open spec fn step_reached<H, E1, E2>(
    step: CursorStep<H, E1, E2>,
    replies: Seq<CursorReply<E1, E2>>,
) -> CursorStep<H, E1, E2>
    decreases replies.len(),
{
    match step {
        CursorStep::Ask { builder, .. } => if replies.len() == 0 {
            step
        } else {
            step_reached(builder.resume_spec(replies.first()), replies.drop_first())
        },
        _ => step,
    }
}

/// The reply of the L1 provider.
pub open spec fn l1_reply<E1, E2>(block: Result<BlockInfo, E1>) -> CursorReply<E1, E2> {
    match block {
        Ok(block) => CursorReply::L1BlockInfo(block),
        Err(e) => CursorReply::Failed(ProviderFailure::L1(e)),
    }
}

/// The reply of the L2 provider.
pub open spec fn l2_reply<E1, E2>(block: Result<L2BlockInfo, E2>) -> CursorReply<E1, E2> {
    match block {
        Ok(block) => CursorReply::L2BlockInfo(block),
        Err(e) => CursorReply::Failed(ProviderFailure::L2(e)),
    }
}

/// Whatever the providers answer, the construction fails if and only if one of them does, with
/// the first failure, and asks nothing after it. If none fails, the cursor is made: its tip is
/// the safe head with the header and output root that were given, its origin is the block that
/// was asked for last, and it keeps the channel timeout.
pub proof fn law_cursor_run<H, E1, E2>(
    number: u64,
    builder: CursorBuilder<H>,
    safe_head: Result<L2BlockInfo, E2>,
    l1_origin: Result<BlockInfo, E1>,
    channel_timeout: u64,
    origin: Result<BlockInfo, E1>,
)
    requires
        builder.stage is SafeHead,
    ensures
        ({
            let step = CursorStep::<H, E1, E2>::Ask {
                request: CursorRequest::L2BlockInfo { number },
                builder,
            };
            let replies = seq![
                l2_reply(safe_head),
                l1_reply(l1_origin),
                CursorReply::ChannelTimeout(channel_timeout),
                l1_reply(origin),
            ];
            let requests = requests_made(step, replies);
            let end = step_reached(step, replies);
            let first = CursorRequest::L2BlockInfo { number };
            match safe_head {
                Err(e) => {
                    &&& requests == seq![first]
                    &&& end == CursorStep::<H, E1, E2>::Failed(ProviderFailure::L2(e))
                },
                Ok(head) => {
                    let second = CursorRequest::L1BlockInfo { number: head.l1_origin.number };
                    match l1_origin {
                        Err(e) => {
                            &&& requests == seq![first, second]
                            &&& end == CursorStep::<H, E1, E2>::Failed(ProviderFailure::L1(e))
                        },
                        Ok(l1_block) => {
                            let third = CursorRequest::ChannelTimeout {
                                timestamp: head.block_info.timestamp,
                            };
                            let fourth = CursorRequest::L1BlockInfo {
                                number: channel_start(
                                    l1_block.number as int,
                                    channel_timeout as int,
                                    builder.genesis_l1_number as int,
                                ) as u64,
                            };
                            &&& requests == seq![first, second, third, fourth]
                            &&& end == match origin {
                                Err(e) => CursorStep::<H, E1, E2>::Failed(
                                    ProviderFailure::L1(e),
                                ),
                                Ok(block) => CursorStep::Done(
                                    CursorSeed {
                                        channel_timeout,
                                        origin: block,
                                        tip: TipCursor {
                                            l2_safe_head: head,
                                            l2_safe_head_header: builder.safe_header,
                                            l2_safe_head_output_root:
                                                builder.agreed_l2_output_root,
                                        },
                                    },
                                ),
                            }
                        },
                    }
                },
            }
        }),
{
    reveal_with_fuel(requests_made, 6);
    reveal_with_fuel(step_reached, 6);
    let replies: Seq<CursorReply<E1, E2>> = seq![
        l2_reply(safe_head),
        l1_reply(l1_origin),
        CursorReply::ChannelTimeout(channel_timeout),
        l1_reply(origin),
    ];
    let rest = replies.drop_first();
    assert(rest.first() == l1_reply::<E1, E2>(l1_origin));
    assert(rest.drop_first().first() == CursorReply::<E1, E2>::ChannelTimeout(channel_timeout));
    assert(rest.drop_first().drop_first().first() == l1_reply::<E1, E2>(origin));
}

/// Where genesis cuts the walk back short, derivation starts at genesis itself.
pub proof fn law_channel_start_at_genesis(
    l1_origin_number: int,
    channel_timeout: int,
    genesis_l1_number: int,
)
    requires
        l1_origin_number - channel_timeout < genesis_l1_number,
    ensures
        channel_start(l1_origin_number, channel_timeout, genesis_l1_number) == genesis_l1_number,
{
}

/// Each reply leads to the next request, and nothing that was learnt or given is changed on the
/// way: the safe head names its origin, the timeout is asked for at the safe head's timestamp,
/// the block to start from is the origin's number less the timeout, or genesis if that is
/// later, and the cursor is made of the safe head, the timeout and that block.
pub proof fn law_cursor_steps<H, E1, E2>(
    builder: CursorBuilder<H>,
    safe_head: L2BlockInfo,
    l1_origin: BlockInfo,
    channel_timeout: u64,
    start_number: u64,
    origin: BlockInfo,
)
    requires
        start_number >= builder.genesis_l1_number,
        start_number >= l1_origin.number - channel_timeout,
        start_number == builder.genesis_l1_number || start_number == l1_origin.number
            - channel_timeout,
    ensures
        builder.stage == CursorStage::SafeHead ==> builder.resume_spec(
            CursorReply::<E1, E2>::L2BlockInfo(safe_head),
        ) == (CursorStep::<H, E1, E2>::Ask {
            request: CursorRequest::L1BlockInfo { number: safe_head.l1_origin.number },
            builder: CursorBuilder {
                genesis_l1_number: builder.genesis_l1_number,
                safe_header: builder.safe_header,
                agreed_l2_output_root: builder.agreed_l2_output_root,
                stage: CursorStage::L1Origin { safe_head },
            },
        }),
        builder.stage == (CursorStage::L1Origin { safe_head }) ==> builder.resume_spec(
            CursorReply::<E1, E2>::L1BlockInfo(l1_origin),
        ) == (CursorStep::<H, E1, E2>::Ask {
            request: CursorRequest::ChannelTimeout { timestamp: safe_head.block_info.timestamp },
            builder: CursorBuilder {
                genesis_l1_number: builder.genesis_l1_number,
                safe_header: builder.safe_header,
                agreed_l2_output_root: builder.agreed_l2_output_root,
                stage: CursorStage::Timeout { safe_head, l1_origin },
            },
        }),
        builder.stage == (CursorStage::Timeout { safe_head, l1_origin }) ==> builder.resume_spec(
            CursorReply::<E1, E2>::ChannelTimeout(channel_timeout),
        ) == (CursorStep::<H, E1, E2>::Ask {
            request: CursorRequest::L1BlockInfo { number: start_number },
            builder: CursorBuilder {
                genesis_l1_number: builder.genesis_l1_number,
                safe_header: builder.safe_header,
                agreed_l2_output_root: builder.agreed_l2_output_root,
                stage: CursorStage::Start { safe_head, channel_timeout },
            },
        }),
        builder.stage == (CursorStage::Start { safe_head, channel_timeout })
            ==> builder.resume_spec(CursorReply::<E1, E2>::L1BlockInfo(origin)) == CursorStep::<
            H,
            E1,
            E2,
        >::Done(
            CursorSeed {
                channel_timeout,
                origin,
                tip: TipCursor {
                    l2_safe_head: safe_head,
                    l2_safe_head_header: builder.safe_header,
                    l2_safe_head_output_root: builder.agreed_l2_output_root,
                },
            },
        ),
{
}

/// A provider's failure ends the construction at every stage, as the failure it is.
pub proof fn law_cursor_fails_with_its_provider<H, E1, E2>(
    builder: CursorBuilder<H>,
    failure: ProviderFailure<E1, E2>,
)
    ensures
        builder.resume_spec(CursorReply::<E1, E2>::Failed(failure)) == CursorStep::<
            H,
            E1,
            E2,
        >::Failed(failure),
{
}

/// A stage can be resumed with the answer to its own question, and with the failure of the
/// provider that was asked, but with no other reply.
pub proof fn law_replies_of_a_stage<E1, E2>(
    reply: CursorReply<E1, E2>,
    safe_head: L2BlockInfo,
    l1_origin: BlockInfo,
    channel_timeout: u64,
)
    ensures
        CursorStage::SafeHead.answered_by(reply) <==> (reply is L2BlockInfo
            || reply matches CursorReply::Failed(ProviderFailure::L2(_))),
        (CursorStage::L1Origin { safe_head }).answered_by(reply) <==> (reply is L1BlockInfo
            || reply matches CursorReply::Failed(ProviderFailure::L1(_))),
        (CursorStage::Timeout { safe_head, l1_origin }).answered_by(reply)
            <==> reply is ChannelTimeout,
        (CursorStage::Start { safe_head, channel_timeout }).answered_by(reply) <==> (
        reply is L1BlockInfo || reply matches CursorReply::Failed(ProviderFailure::L1(_))),
{
}

/// The error of either provider becomes what the reported error's own conversion from it gives.
pub proof fn law_failure_is_converted<E1, E2, E: From<E1> + From<E2>>(e1: E1, e2: E2, error: E)
    ensures
        ProviderFailure::<E1, E2>::L1(e1).becomes(error) <==> call_ensures(
            <E as From<E1>>::from,
            (e1,),
            error,
        ),
        ProviderFailure::<E1, E2>::L2(e2).becomes(error) <==> call_ensures(
            <E as From<E2>>::from,
            (e2,),
            error,
        ),
{
}

} // verus!
