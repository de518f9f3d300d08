//! Which L2 blocks the batches found on L1 cover, and how a range of L1 blocks is scanned.

use vstd::arithmetic::div_mod::{
    lemma_div_multiples_vanish, lemma_div_pos_is_pos, lemma_fundamental_div_mod,
    lemma_mod_multiples_basic, lemma_mod_multiples_vanish, lemma_small_mod,
};
use vstd::prelude::*;

use crate::decimal::{decimal, decimal_text};

verus! {

/// The number of the L2 block with this timestamp; none if the timestamp predates genesis or
/// is not aligned to a block boundary.
pub open spec fn l2_block_at(
    timestamp: nat,
    genesis_l2_num: nat,
    genesis_l2_ts: nat,
    block_time: nat,
) -> Option<nat> {
    let delta = timestamp - genesis_l2_ts;
    if delta < 0 || block_time == 0 || delta % (block_time as int) != 0 {
        None
    } else {
        Some((genesis_l2_num + delta / (block_time as int)) as nat)
    }
}

/// Whether the number of the block with this timestamp, if there is one, fits 64 bits.
pub open spec fn l2_block_fits(
    timestamp: u64,
    genesis_l2_num: u64,
    genesis_l2_ts: u64,
    block_time: u64,
) -> bool {
    match l2_block_at(
        timestamp as nat,
        genesis_l2_num as nat,
        genesis_l2_ts as nat,
        block_time as nat,
    ) {
        Some(number) => number <= u64::MAX,
        None => true,
    }
}

/// Whether [`timestamp_to_l2_block`] can be asked about this timestamp.
pub fn has_l2_block_number(
    timestamp: u64,
    genesis_l2_num: u64,
    genesis_l2_ts: u64,
    block_time: u64,
) -> (fits: bool)
    ensures
        fits == l2_block_fits(timestamp, genesis_l2_num, genesis_l2_ts, block_time),
{
    if timestamp < genesis_l2_ts || block_time == 0 {
        return true;
    }
    let delta: u64 = timestamp - genesis_l2_ts;
    delta % block_time != 0 || delta / block_time <= u64::MAX - genesis_l2_num
}

/// Compute the L2 block number for a given L2 timestamp.
///
/// Returns `None` if the timestamp predates genesis or is not aligned to a block boundary.
pub fn timestamp_to_l2_block(
    timestamp: u64,
    genesis_l2_num: u64,
    genesis_l2_ts: u64,
    block_time: u64,
) -> (number: Option<u64>)
    requires
        l2_block_fits(timestamp, genesis_l2_num, genesis_l2_ts, block_time),
    ensures
        match number {
            Some(n) => l2_block_at(
                timestamp as nat,
                genesis_l2_num as nat,
                genesis_l2_ts as nat,
                block_time as nat,
            ) == Some(n as nat),
            None => l2_block_at(
                timestamp as nat,
                genesis_l2_num as nat,
                genesis_l2_ts as nat,
                block_time as nat,
            ) is None,
        },
{
    if timestamp < genesis_l2_ts {
        return None;
    }
    let delta: u64 = timestamp - genesis_l2_ts;
    if block_time == 0 || delta % block_time != 0 {
        return None;
    }
    Some(genesis_l2_num + delta / block_time)
}

/// The block that lies `count` block times after genesis is found under its timestamp.
pub proof fn law_l2_block_at_its_timestamp(
    count: nat,
    genesis_l2_num: nat,
    genesis_l2_ts: nat,
    block_time: nat,
)
    requires
        block_time > 0,
    ensures
        l2_block_at(
            genesis_l2_ts + count * block_time,
            genesis_l2_num,
            genesis_l2_ts,
            block_time,
        ) == Some(genesis_l2_num + count),
{
    lemma_mod_multiples_basic(count as int, block_time as int);
    lemma_div_multiples_vanish(count as int, block_time as int);
    assert(block_time * count == count * block_time) by (nonlinear_arith);
}

/// A timestamp that has a block lies a whole number of block times after genesis, as many as
/// the block's number is above that of the genesis block.
pub proof fn law_l2_block_determines_timestamp(
    timestamp: nat,
    genesis_l2_num: nat,
    genesis_l2_ts: nat,
    block_time: nat,
)
    ensures
        l2_block_at(timestamp, genesis_l2_num, genesis_l2_ts, block_time) matches Some(number)
            ==> number >= genesis_l2_num && timestamp == genesis_l2_ts + (number - genesis_l2_num)
            * block_time,
{
    let delta = timestamp - genesis_l2_ts;
    if delta >= 0 && block_time > 0 {
        lemma_fundamental_div_mod(delta, block_time as int);
        let count = delta / (block_time as int);
        assert(count >= 0) by {
            lemma_div_pos_is_pos(delta, block_time as int);
        }
        assert(block_time * count == count * block_time) by (nonlinear_arith);
    }
}

/// What is shown of a batch.
#[derive(Clone, Copy, Debug)]
pub enum Batch {
    /// A batch of one L2 block.
    Single { timestamp: u64, epoch_num: u64 },
    /// A batch of `count` L2 blocks.
    Span { starting_timestamp: u64, final_timestamp: u64, count: u64 },
}

/// Whether the block numbers that a batch is shown with fit 64 bits.
pub open spec fn batch_fits(
    batch: Batch,
    genesis_l2_num: u64,
    genesis_l2_ts: u64,
    block_time: u64,
) -> bool {
    match batch {
        Batch::Single { timestamp, .. } => {
            l2_block_fits(timestamp, genesis_l2_num, genesis_l2_ts, block_time)
        },
        Batch::Span { starting_timestamp, final_timestamp, .. } => {
            &&& l2_block_fits(starting_timestamp, genesis_l2_num, genesis_l2_ts, block_time)
            &&& l2_block_fits(final_timestamp, genesis_l2_num, genesis_l2_ts, block_time)
        },
    }
}

/// The line that describes the L2 coverage of a batch found at L1 block `l1_block`.
pub open spec fn batch_line_spec(
    batch: Batch,
    l1_block: nat,
    genesis_l2_num: nat,
    genesis_l2_ts: nat,
    block_time: nat,
) -> Seq<char> {
    let at = |timestamp: u64|
        l2_block_at(timestamp as nat, genesis_l2_num, genesis_l2_ts, block_time);
    let l1 = "L1 "@ + decimal(l1_block);
    match batch {
        Batch::Single { timestamp, epoch_num } => match at(timestamp) {
            Some(num) => l1 + ": single batch → L2 block "@ + decimal(num) + " (ts "@ + decimal(
                timestamp as nat,
            ) + ", epoch "@ + decimal(epoch_num as nat) + ")"@,
            None => l1 + ": single batch, timestamp "@ + decimal(timestamp as nat)
                + " (L2 block unknown)"@,
        },
        Batch::Span { starting_timestamp, final_timestamp, count } => {
            let blocks = decimal(count as nat) + " blocks, ts "@ + decimal(
                starting_timestamp as nat,
            ) + "–"@ + decimal(final_timestamp as nat);
            match (at(starting_timestamp), at(final_timestamp)) {
                (Some(s), Some(e)) => l1 + ": span batch → L2 blocks "@ + decimal(s) + "–"@
                    + decimal(e) + " ("@ + blocks + ")"@,
                _ => l1 + ": span batch, "@ + blocks + " (L2 blocks unknown)"@,
            }
        },
    }
}

fn push_number(line: &mut String, number: u64)
    ensures
        final(line)@ == old(line)@ + decimal(number as nat),
{
    line.append(decimal_text(number).as_str());
}

/// A human-readable summary of the L2 coverage of a decoded batch.
pub fn batch_line(
    batch: &Batch,
    l1_block: u64,
    genesis_l2_num: u64,
    genesis_l2_ts: u64,
    block_time: u64,
) -> (line: String)
    requires
        batch_fits(*batch, genesis_l2_num, genesis_l2_ts, block_time),
    ensures
        line@ == batch_line_spec(
            *batch,
            l1_block as nat,
            genesis_l2_num as nat,
            genesis_l2_ts as nat,
            block_time as nat,
        ),
{
    let mut line = "L1 ".to_owned();
    push_number(&mut line, l1_block);
    match *batch {
        Batch::Single { timestamp, epoch_num } => {
            match timestamp_to_l2_block(timestamp, genesis_l2_num, genesis_l2_ts, block_time) {
                Some(num) => {
                    line.append(": single batch → L2 block ");
                    push_number(&mut line, num);
                    line.append(" (ts ");
                    push_number(&mut line, timestamp);
                    line.append(", epoch ");
                    push_number(&mut line, epoch_num);
                    line.append(")");
                },
                None => {
                    line.append(": single batch, timestamp ");
                    push_number(&mut line, timestamp);
                    line.append(" (L2 block unknown)");
                },
            }
        },
        Batch::Span { starting_timestamp, final_timestamp, count } => {
            let mut blocks = decimal_text(count);
            blocks.append(" blocks, ts ");
            push_number(&mut blocks, starting_timestamp);
            blocks.append("–");
            push_number(&mut blocks, final_timestamp);
            let start_l2 = timestamp_to_l2_block(
                starting_timestamp,
                genesis_l2_num,
                genesis_l2_ts,
                block_time,
            );
            let end_l2 = timestamp_to_l2_block(
                final_timestamp,
                genesis_l2_num,
                genesis_l2_ts,
                block_time,
            );
            match (start_l2, end_l2) {
                (Some(s), Some(e)) => {
                    line.append(": span batch → L2 blocks ");
                    push_number(&mut line, s);
                    line.append("–");
                    push_number(&mut line, e);
                    line.append(" (");
                    line.append(blocks.as_str());
                    line.append(")");
                },
                _ => {
                    line.append(": span batch, ");
                    line.append(blocks.as_str());
                    line.append(" (L2 blocks unknown)");
                },
            }
        },
    }
    line
}

/// The range of L1 blocks to scan, both ends included.
#[derive(Clone, Copy, Debug)]
pub struct ScanRange {
    pub l1_start: u64,
    pub l1_end: u64,
}

/// What came of asking the derivation pipeline for the next batch, or of moving it on; `origin`
/// is the number of the L1 block it stands at, if it stands at one.
#[derive(Clone, Copy, Debug)]
pub enum PipelineEvent {
    /// A batch.
    Batch { batch: Batch, origin: Option<u64> },
    /// An error that nothing can be done about.
    Critical,
    /// No more data at the current L1 block.
    Exhausted { origin: Option<u64> },
    /// The pipeline could not be moved on to the next L1 block.
    AdvanceFailed,
}

/// What to do next in a scan.
#[derive(Clone, Copy, Debug)]
pub enum ScanAction {
    /// Show the batch as found at this L1 block, and ask for the next one.
    Show { batch: Batch, l1_block: u64 },
    /// Move the pipeline on from this L1 block, and ask for the next batch.
    Advance { current: u64 },
    /// End the scan with an error.
    Fail,
    /// End the scan.
    Stop,
}

impl ScanRange {
    /// The action that an event calls for.
    pub open spec fn action(self, event: PipelineEvent) -> ScanAction {
        match event {
            PipelineEvent::Batch { batch, origin } => ScanAction::Show {
                batch,
                l1_block: match origin {
                    Some(number) => number,
                    None => 0,
                },
            },
            PipelineEvent::Critical => ScanAction::Fail,
            PipelineEvent::Exhausted { origin } => {
                let current = match origin {
                    Some(number) => number,
                    None => self.l1_start,
                };
                if current < self.l1_end {
                    ScanAction::Advance { current }
                } else {
                    ScanAction::Stop
                }
            },
            PipelineEvent::AdvanceFailed => ScanAction::Stop,
        }
    }

    /// The action that an event calls for.
    pub fn on_event(&self, event: PipelineEvent) -> (action: ScanAction)
        ensures
            action == self.action(event),
    {
        match event {
            PipelineEvent::Batch { batch, origin: Some(l1_block) } => ScanAction::Show {
                batch,
                l1_block,
            },
            PipelineEvent::Batch { batch, origin: None } => ScanAction::Show {
                batch,
                l1_block: 0,
            },
            PipelineEvent::Critical => ScanAction::Fail,
            PipelineEvent::Exhausted { origin } => {
                let current: u64 = match origin {
                    Some(number) => number,
                    None => self.l1_start,
                };
                if current >= self.l1_end {
                    ScanAction::Stop
                } else {
                    ScanAction::Advance { current }
                }
            },
            PipelineEvent::AdvanceFailed => ScanAction::Stop,
        }
    }
}

/// A scan moves on only from a block before the end of its range, so that it never reaches a
/// block after the end, and it stops where the data of the last block is exhausted. A pipeline
/// that stands at no block counts as standing at the start.
pub proof fn law_scan_stays_in_range(range: ScanRange, event: PipelineEvent)
    ensures
        range.action(event) matches ScanAction::Advance { current } ==> current < range.l1_end,
        event matches PipelineEvent::Exhausted { origin: Some(number) } ==> (range.action(
            event,
        ) == ScanAction::Stop <==> number >= range.l1_end),
        event matches PipelineEvent::Exhausted { origin: None } ==> (range.action(event)
            == ScanAction::Stop <==> range.l1_start >= range.l1_end),
{
}

/// A timestamp before genesis, or between two block boundaries, has no block, and no timestamp
/// has one where blocks take no time.
pub proof fn law_no_l2_block_off_the_boundaries(
    timestamp: nat,
    genesis_l2_num: nat,
    genesis_l2_ts: nat,
    block_time: nat,
    rest: nat,
    count: nat,
)
    ensures
        timestamp < genesis_l2_ts ==> l2_block_at(
            timestamp,
            genesis_l2_num,
            genesis_l2_ts,
            block_time,
        ) is None,
        l2_block_at(timestamp, genesis_l2_num, genesis_l2_ts, 0) is None,
        0 < rest < block_time ==> l2_block_at(
            genesis_l2_ts + count * block_time + rest,
            genesis_l2_num,
            genesis_l2_ts,
            block_time,
        ) is None,
{
    if 0 < rest < block_time {
        assert(block_time * count == count * block_time) by (nonlinear_arith);
        lemma_mod_multiples_vanish(count as int, rest as int, block_time as int);
        lemma_small_mod(rest, block_time);
    }
}

/// Where a block lies `count` block times after genesis, its number fits exactly if it is below
/// 2^64; where there is no block, nothing has to fit.
pub proof fn law_l2_block_fits(
    timestamp: u64,
    genesis_l2_num: u64,
    genesis_l2_ts: u64,
    block_time: u64,
    count: nat,
)
    ensures
        block_time > 0 && timestamp == genesis_l2_ts + count * block_time ==> (l2_block_fits(
            timestamp,
            genesis_l2_num,
            genesis_l2_ts,
            block_time,
        ) <==> genesis_l2_num + count < 0x1_0000_0000_0000_0000),
        timestamp < genesis_l2_ts || block_time == 0 || (timestamp - genesis_l2_ts) % (
        block_time as int) != 0 ==> l2_block_fits(
            timestamp,
            genesis_l2_num,
            genesis_l2_ts,
            block_time,
        ),
{
    if block_time > 0 && timestamp == genesis_l2_ts + count * block_time {
        law_l2_block_at_its_timestamp(
            count,
            genesis_l2_num as nat,
            genesis_l2_ts as nat,
            block_time as nat,
        );
    }
}

/// A batch can be shown if the numbers of its one block, or of its first and last one, fit.
pub proof fn law_batch_fits(
    timestamp: u64,
    epoch_num: u64,
    final_timestamp: u64,
    count: u64,
    genesis_l2_num: u64,
    genesis_l2_ts: u64,
    block_time: u64,
)
    ensures
        batch_fits(
            Batch::Single { timestamp, epoch_num },
            genesis_l2_num,
            genesis_l2_ts,
            block_time,
        ) <==> l2_block_fits(timestamp, genesis_l2_num, genesis_l2_ts, block_time),
        batch_fits(
            Batch::Span { starting_timestamp: timestamp, final_timestamp, count },
            genesis_l2_num,
            genesis_l2_ts,
            block_time,
        ) <==> (l2_block_fits(timestamp, genesis_l2_num, genesis_l2_ts, block_time)
            && l2_block_fits(final_timestamp, genesis_l2_num, genesis_l2_ts, block_time)),
{
}

/// The line of a batch of one block that lies `a` block times after genesis names the block
/// `a` above the genesis block, the timestamp and the epoch.
pub proof fn law_single_batch_line(
    timestamp: u64,
    epoch_num: u64,
    l1_block: nat,
    genesis_l2_num: nat,
    genesis_l2_ts: nat,
    block_time: nat,
    a: nat,
)
    requires
        block_time > 0,
        timestamp == genesis_l2_ts + a * block_time,
    ensures
        batch_line_spec(
            Batch::Single { timestamp, epoch_num },
            l1_block,
            genesis_l2_num,
            genesis_l2_ts,
            block_time,
        ) == "L1 "@ + decimal(l1_block) + ": single batch → L2 block "@ + decimal(
            genesis_l2_num + a,
        ) + " (ts "@ + decimal(timestamp as nat) + ", epoch "@ + decimal(epoch_num as nat)
            + ")"@,
{
    law_l2_block_at_its_timestamp(a, genesis_l2_num, genesis_l2_ts, block_time);
}

/// The line of a span batch whose first block lies `a` and whose last block `b` block times
/// after genesis names the blocks `a` and `b` above the genesis block, the number of blocks and
/// the two timestamps.
pub proof fn law_span_batch_line(
    starting_timestamp: u64,
    final_timestamp: u64,
    count: u64,
    l1_block: nat,
    genesis_l2_num: nat,
    genesis_l2_ts: nat,
    block_time: nat,
    a: nat,
    b: nat,
)
    requires
        block_time > 0,
        starting_timestamp == genesis_l2_ts + a * block_time,
        final_timestamp == genesis_l2_ts + b * block_time,
    ensures
        batch_line_spec(
            Batch::Span { starting_timestamp, final_timestamp, count },
            l1_block,
            genesis_l2_num,
            genesis_l2_ts,
            block_time,
        ) == "L1 "@ + decimal(l1_block) + ": span batch → L2 blocks "@ + decimal(
            genesis_l2_num + a,
        ) + "–"@ + decimal(genesis_l2_num + b) + " ("@ + decimal(count as nat)
            + " blocks, ts "@ + decimal(starting_timestamp as nat) + "–"@ + decimal(
            final_timestamp as nat,
        ) + ")"@,
{
    law_l2_block_at_its_timestamp(a, genesis_l2_num, genesis_l2_ts, block_time);
    law_l2_block_at_its_timestamp(b, genesis_l2_num, genesis_l2_ts, block_time);
    let line = batch_line_spec(
        Batch::Span { starting_timestamp, final_timestamp, count },
        l1_block,
        genesis_l2_num,
        genesis_l2_ts,
        block_time,
    );
    assert(line =~= "L1 "@ + decimal(l1_block) + ": span batch → L2 blocks "@ + decimal(
        genesis_l2_num + a,
    ) + "–"@ + decimal(genesis_l2_num + b) + " ("@ + decimal(count as nat) + " blocks, ts "@
        + decimal(starting_timestamp as nat) + "–"@ + decimal(final_timestamp as nat) + ")"@);
}

/// The line of a batch with a timestamp that has no block gives the timestamps alone, and says
/// that the block is unknown; a span batch needs both of its timestamps to have one.
pub proof fn law_unknown_batch_lines(
    timestamp: u64,
    other_timestamp: u64,
    epoch_num: u64,
    count: u64,
    l1_block: nat,
    genesis_l2_num: nat,
    genesis_l2_ts: nat,
    block_time: nat,
)
    requires
        timestamp < genesis_l2_ts || block_time == 0 || (timestamp - genesis_l2_ts) % (
        block_time as int) != 0,
    ensures
        batch_line_spec(
            Batch::Single { timestamp, epoch_num },
            l1_block,
            genesis_l2_num,
            genesis_l2_ts,
            block_time,
        ) == "L1 "@ + decimal(l1_block) + ": single batch, timestamp "@ + decimal(
            timestamp as nat,
        ) + " (L2 block unknown)"@,
        batch_line_spec(
            Batch::Span {
                starting_timestamp: timestamp,
                final_timestamp: other_timestamp,
                count,
            },
            l1_block,
            genesis_l2_num,
            genesis_l2_ts,
            block_time,
        ) == "L1 "@ + decimal(l1_block) + ": span batch, "@ + decimal(count as nat)
            + " blocks, ts "@ + decimal(timestamp as nat) + "–"@ + decimal(
            other_timestamp as nat,
        ) + " (L2 blocks unknown)"@,
        batch_line_spec(
            Batch::Span {
                starting_timestamp: other_timestamp,
                final_timestamp: timestamp,
                count,
            },
            l1_block,
            genesis_l2_num,
            genesis_l2_ts,
            block_time,
        ) == "L1 "@ + decimal(l1_block) + ": span batch, "@ + decimal(count as nat)
            + " blocks, ts "@ + decimal(other_timestamp as nat) + "–"@ + decimal(
            timestamp as nat,
        ) + " (L2 blocks unknown)"@,
{
    assert(l2_block_at(timestamp as nat, genesis_l2_num, genesis_l2_ts, block_time) is None);
}

/// A scan shows each batch it is handed, as found at the block where the pipeline stands, or at
/// block 0 if it stands at none. It moves on from a block before the end of its range where the
/// data is exhausted, fails where the pipeline does, and stops in all other cases.
pub proof fn law_scan_actions(range: ScanRange, batch: Batch, number: u64)
    ensures
        range.action(PipelineEvent::Batch { batch, origin: Some(number) }) == (ScanAction::Show {
            batch,
            l1_block: number,
        }),
        range.action(PipelineEvent::Batch { batch, origin: None }) == (ScanAction::Show {
            batch,
            l1_block: 0,
        }),
        range.action(PipelineEvent::Critical) == ScanAction::Fail,
        range.action(PipelineEvent::AdvanceFailed) == ScanAction::Stop,
        number < range.l1_end ==> range.action(PipelineEvent::Exhausted { origin: Some(number) })
            == (ScanAction::Advance { current: number }),
        number >= range.l1_end ==> range.action(
            PipelineEvent::Exhausted { origin: Some(number) },
        ) == ScanAction::Stop,
        range.l1_start < range.l1_end ==> range.action(PipelineEvent::Exhausted { origin: None })
            == (ScanAction::Advance { current: range.l1_start }),
        range.l1_start >= range.l1_end ==> range.action(
            PipelineEvent::Exhausted { origin: None },
        ) == ScanAction::Stop,
{
}

} // verus!
