use vstd::prelude::*;

use crate::channel::DeliveryChannel;
use crate::data::DataBlock;
use crate::error::ErrorCode;
use crate::progress::ProgressValues;
use crate::state::ExecuteStateWrapper;

verus! {

/// One pull from the interpreter's batch stream: a batch, or an error
/// raised mid-stream. Exhaustion is the end of the sequence itself.
#[derive(Debug)]
pub enum StreamItem {
    Block(DataBlock),
    Error(ErrorCode),
}

/// What one iteration of the producer loop resolved to, after the
/// stream poll and, for a batch, the race between the channel send and
/// the abort signal.
#[derive(Debug)]
pub enum ProducerEvent {
    /// The stream yielded a batch and the channel accepted it first.
    BlockDelivered,
    /// The stream yielded a batch but the abort signal won the race;
    /// the batch in hand is dropped, since the consumer no longer
    /// wants results.
    AbortReceived,
    /// The stream yielded an error; it is captured, not retried.
    StreamError(ErrorCode),
    /// The stream is exhausted: clean end.
    StreamFinished,
}

pub open spec fn item_rows(it: StreamItem) -> int {
    match it {
        StreamItem::Block(b) => b.num_rows as int,
        StreamItem::Error(_) => 0,
    }
}

pub open spec fn item_bytes(it: StreamItem) -> int {
    match it {
        StreamItem::Block(b) => b.num_bytes as int,
        StreamItem::Error(_) => 0,
    }
}

/// Rows of work the pipeline completes while producing the first `n`
/// stream items.
pub open spec fn sum_rows(items: Seq<StreamItem>, n: int) -> int
    decreases n,
{
    if n <= 0 {
        0
    } else {
        sum_rows(items, n - 1) + item_rows(items[n - 1])
    }
}

/// Bytes of work the pipeline completes while producing the first `n`
/// stream items.
pub open spec fn sum_bytes(items: Seq<StreamItem>, n: int) -> int
    decreases n,
{
    if n <= 0 {
        0
    } else {
        sum_bytes(items, n - 1) + item_bytes(items[n - 1])
    }
}

/// The first `n` items are all batches.
pub open spec fn all_blocks(items: Seq<StreamItem>, n: int) -> bool {
    forall|j: int| 0 <= j < n ==> items[j] is Block
}

/// How many batches the stream yields before its first error (or its
/// end): the longest all-batch prefix.
pub open spec fn blocks_prefix_len(items: Seq<StreamItem>) -> nat
    decreases items.len(),
{
    if items.len() == 0 {
        0
    } else if items[0] is Block {
        1 + blocks_prefix_len(items.drop_first())
    } else {
        0
    }
}

/// The first `n` batches of the stream, in production order.
pub open spec fn delivered_blocks(items: Seq<StreamItem>, n: int) -> Seq<DataBlock> {
    Seq::new(n as nat, |j: int| items[j]->Block_0)
}

/// Whether an abort signal received while sending the batch at
/// position `abort_at` actually wins: it must arrive before the stream
/// errors or ends on its own.
pub open spec fn abort_effective(items: Seq<StreamItem>, abort_at: Option<usize>) -> bool {
    match abort_at {
        Some(a) => (a as int) < blocks_prefix_len(items),
        None => false,
    }
}

pub open spec fn abort_index(abort_at: Option<usize>) -> int {
    match abort_at {
        Some(a) => a as int,
        None => -1,
    }
}

/// How many stream items the producer polls before it stops: on an
/// effective abort, the batch in hand counts as polled though it is
/// dropped; on a stream error, the error itself was polled.
pub open spec fn polled_len(items: Seq<StreamItem>, abort_at: Option<usize>) -> int {
    if abort_effective(items, abort_at) {
        abort_index(abort_at) + 1
    } else if blocks_prefix_len(items) < items.len() {
        blocks_prefix_len(items) as int + 1
    } else {
        blocks_prefix_len(items) as int
    }
}

/// How many batches reach the consumer.
pub open spec fn delivered_len(items: Seq<StreamItem>, abort_at: Option<usize>) -> int {
    if abort_effective(items, abort_at) {
        abort_index(abort_at)
    } else {
        blocks_prefix_len(items) as int
    }
}

/// The terminal outcome the run records: the abort error if the signal
/// wins, the stream's own first error otherwise, `Ok` on clean
/// exhaustion.
pub open spec fn final_reason(items: Seq<StreamItem>, abort_at: Option<usize>) -> Result<
    (),
    ErrorCode,
> {
    if abort_effective(items, abort_at) {
        Err(ErrorCode::AbortedQuery)
    } else if blocks_prefix_len(items) < items.len() {
        Err(items[blocks_prefix_len(items) as int]->Error_0)
    } else {
        Ok(())
    }
}

/// An all-batch prefix never exceeds the batch prefix length.
pub proof fn lemma_blocks_prefix_len_lower(items: Seq<StreamItem>, k: int)
    requires
        0 <= k <= items.len(),
        all_blocks(items, k),
    ensures
        blocks_prefix_len(items) >= k,
    decreases items.len(),
{
    if k > 0 {
        assert(items[0] is Block);
        let rest = items.drop_first();
        assert forall|j: int| 0 <= j < k - 1 implies rest[j] is Block by {
            assert(rest[j] == items[j + 1]);
        }
        lemma_blocks_prefix_len_lower(rest, k - 1);
    }
}

/// If the first `k` items are batches and the item at `k` (if any) is
/// not, then `k` is exactly the batch prefix length.
pub proof fn lemma_blocks_prefix_len_is(items: Seq<StreamItem>, k: int)
    requires
        0 <= k <= items.len(),
        all_blocks(items, k),
        k < items.len() ==> !(items[k] is Block),
    ensures
        blocks_prefix_len(items) == k,
    decreases items.len(),
{
    if items.len() == 0 {
    } else if k == 0 {
    } else {
        assert(items[0] is Block);
        let rest = items.drop_first();
        assert forall|j: int| 0 <= j < k - 1 implies rest[j] is Block by {
            assert(rest[j] == items[j + 1]);
        }
        assert(k - 1 < rest.len() ==> rest[k - 1] == items[k]);
        lemma_blocks_prefix_len_is(rest, k - 1);
    }
}

/// Partial sums of work are non-negative and monotone in the prefix
/// length.
pub proof fn lemma_sums_bounds(items: Seq<StreamItem>, n1: int, n2: int)
    requires
        n1 <= n2,
    ensures
        sum_rows(items, n1) <= sum_rows(items, n2),
        sum_bytes(items, n1) <= sum_bytes(items, n2),
        0 <= sum_rows(items, n2) - sum_rows(items, n1),
        n1 >= 0 ==> 0 <= sum_rows(items, n1) && 0 <= sum_bytes(items, n1),
    decreases (if n2 >= n1 { n2 - n1 } else { 0 }) + (if n2 >= 0 { n2 } else { 0 }),
{
    if n2 > n1 {
        lemma_sums_bounds(items, n1, n2 - 1);
        assert(item_rows(items[n2 - 1]) >= 0);
        assert(item_bytes(items[n2 - 1]) >= 0);
    } else if n1 > 0 {
        lemma_sums_bounds(items, n1 - 1, n1 - 1);
        assert(sum_rows(items, n1) == sum_rows(items, n1 - 1) + item_rows(items[n1 - 1]));
    }
}

/// The decision each loop iteration ends in, applied to the lifecycle:
/// a delivered batch continues the loop and touches nothing; every
/// other event is terminal and performs the guarded one-way stop — an
/// observed abort with force-kill, a stream error and exhaustion
/// without. Returns (done, force-kill owed).
pub fn producer_step(state: &mut ExecuteStateWrapper, event: ProducerEvent) -> (r: (bool, bool))
    ensures
        event is BlockDelivered ==> *final(state) == *old(state) && r == (false, false),
        event is AbortReceived ==> r.0 && (*final(state), r.1) == old(state).stop_spec(
            Err(ErrorCode::AbortedQuery),
            true,
        ),
        event matches ProducerEvent::StreamError(e) ==> r.0 && ((*final(state), r.1) == old(
            state,
        ).stop_spec(Err(e), false)),
        event is StreamFinished ==> r.0 && (*final(state), r.1) == old(state).stop_spec(
            Ok(()),
            false,
        ),
{
    match event {
        ProducerEvent::BlockDelivered => (false, false),
        ProducerEvent::AbortReceived => {
            let killed = state.stop(Err(ErrorCode::AbortedQuery), true);
            (true, killed)
        },
        ProducerEvent::StreamError(e) => {
            let killed = state.stop(Err(e), false);
            (true, killed)
        },
        ProducerEvent::StreamFinished => {
            let killed = state.stop(Ok(()), false);
            (true, killed)
        },
    }
}

/// The producer task, as one sequential run over the stream the
/// interpreter produces. `items` is the stream's content; `abort_at`
/// is the scheduler's resolution of the send/abort race: the abort
/// signal, if any, is received while batch `abort_at` is in hand.
///
/// The contract pins down every outcome: the consumer receives exactly
/// the produced batches up to the terminal point, in production order;
/// the recorded reason is the abort error, the stream's first error,
/// or `Ok` on clean exhaustion; force-kill is owed exactly when the
/// abort wins; and the frozen snapshot counts exactly the work the
/// pipeline completed before the stop.
pub fn run_producer(
    state: &mut ExecuteStateWrapper,
    items: &Vec<StreamItem>,
    abort_at: Option<usize>,
    tx: &mut DeliveryChannel,
) -> (killed: bool)
    requires
        old(state).is_running(),
        old(state).live_progress().read_rows + sum_rows(items@, items@.len() as int) <= u64::MAX,
        old(state).live_progress().read_bytes + sum_bytes(items@, items@.len() as int)
            <= u64::MAX,
    ensures
        final(state).is_stopped(),
        final(state).stopped_reason() == final_reason(items@, abort_at),
        killed == abort_effective(items@, abort_at),
        final(tx).queue@ == old(tx).queue@ + delivered_blocks(
            items@,
            delivered_len(items@, abort_at),
        ),
        final(state).stopped_progress() == Some(
            ProgressValues {
                read_rows: (old(state).live_progress().read_rows + sum_rows(
                    items@,
                    polled_len(items@, abort_at),
                )) as u64,
                read_bytes: (old(state).live_progress().read_bytes + sum_bytes(
                    items@,
                    polled_len(items@, abort_at),
                )) as u64,
            },
        ),
{
    let n = items.len();
    proof {
        assert(old(tx).queue@ + delivered_blocks(items@, 0) =~= old(tx).queue@);
    }
    let mut i: usize = 0;
    while i < n
        invariant
            n == items@.len(),
            i <= n,
            all_blocks(items@, i as int),
            state.is_running(),
            state.running_session() == old(state).running_session(),
            state.running_query() == old(state).running_query(),
            state.live_progress().read_rows == old(state).live_progress().read_rows + sum_rows(
                items@,
                i as int,
            ),
            state.live_progress().read_bytes == old(state).live_progress().read_bytes + sum_bytes(
                items@,
                i as int,
            ),
            old(state).live_progress().read_rows + sum_rows(items@, n as int) <= u64::MAX,
            old(state).live_progress().read_bytes + sum_bytes(items@, n as int) <= u64::MAX,
            tx.queue@ == old(tx).queue@ + delivered_blocks(items@, i as int),
            abort_at matches Some(a) ==> i <= a,
        decreases n - i,
    {
        proof {
            lemma_sums_bounds(items@, i as int + 1, n as int);
            lemma_sums_bounds(items@, i as int, i as int + 1);
        }
        match &items[i] {
            StreamItem::Block(b) => {
                let blk = *b;
                state.record_progress(blk.num_rows, blk.num_bytes);
                let aborted_now = match abort_at {
                    Some(a) => a == i,
                    None => false,
                };
                if aborted_now {
                    let r = producer_step(state, ProducerEvent::AbortReceived);
                    proof {
                        lemma_blocks_prefix_len_lower(items@, i as int + 1);
                        assert(abort_effective(items@, abort_at));
                        assert(polled_len(items@, abort_at) == i as int + 1);
                        assert(delivered_len(items@, abort_at) == i as int);
                    }
                    return r.1;
                } else {
                    tx.send(blk);
                    proof {
                        assert(delivered_blocks(items@, i as int + 1) =~= delivered_blocks(
                            items@,
                            i as int,
                        ).push(blk));
                        assert(old(tx).queue@ + delivered_blocks(items@, i as int + 1) =~= (old(
                            tx,
                        ).queue@ + delivered_blocks(items@, i as int)).push(blk));
                    }
                }
            },
            StreamItem::Error(e) => {
                let e2 = e.clone();
                let r = producer_step(state, ProducerEvent::StreamError(e2));
                proof {
                    lemma_blocks_prefix_len_is(items@, i as int);
                    assert(!abort_effective(items@, abort_at));
                    assert(polled_len(items@, abort_at) == i as int + 1);
                    assert(sum_rows(items@, i as int + 1) == sum_rows(items@, i as int));
                    assert(sum_bytes(items@, i as int + 1) == sum_bytes(items@, i as int));
                    assert(delivered_len(items@, abort_at) == i as int);
                }
                return r.1;
            },
        }
        i = i + 1;
    }
    let r = producer_step(state, ProducerEvent::StreamFinished);
    proof {
        lemma_blocks_prefix_len_is(items@, n as int);
        assert(!abort_effective(items@, abort_at));
        assert(polled_len(items@, abort_at) == n as int);
        assert(delivered_len(items@, abort_at) == n as int);
    }
    r.1
}

} // verus!
