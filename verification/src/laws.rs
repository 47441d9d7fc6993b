use vstd::prelude::*;

use crate::error::ErrorCode;
use crate::producer::abort_effective;
use crate::producer::abort_index;
use crate::producer::blocks_prefix_len;
use crate::producer::delivered_blocks;
use crate::producer::delivered_len;
use crate::producer::final_reason;
use crate::producer::StreamItem;
use crate::state::ExecuteStateName;
use crate::state::ExecuteStateWrapper;

verus! {

/// Law: the lifecycle transitions Running to Stopped exactly once and
/// never back. The first stop of a running execution yields a stopped
/// state recording its reason; a stop request against a stopped state
/// is a silent no-op that never invokes force-kill, so whichever of the
/// racing completion sources stops first wins and every later one is
/// dropped.
pub proof fn lemma_transition_one_way(
    w: ExecuteStateWrapper,
    r1: Result<(), ErrorCode>,
    k1: bool,
    r2: Result<(), ErrorCode>,
    k2: bool,
)
    ensures
        w.is_running() ==> w.stop_spec(r1, k1).0.is_stopped() && w.stop_spec(r1, k1).0
            .stopped_reason() == r1,
        w.is_stopped() ==> w.stop_spec(r1, k1) == (w, false),
        w.stop_spec(r1, k1).0.stop_spec(r2, k2) == (w.stop_spec(r1, k1).0, false),
{
}

/// Law: status is a pure projection of the state, so repeated polls of
/// a stopped execution observe one unchanging payload: `Succeeded`
/// exactly when the recorded outcome is `Ok`, and `Failed` carrying the
/// recorded error verbatim otherwise.
pub proof fn lemma_status_of_stopped(w: ExecuteStateWrapper, reason: Result<(), ErrorCode>, kill: bool)
    requires
        w.is_running(),
    ensures
        reason is Ok ==> w.stop_spec(reason, kill).0.extract_spec() == (
            ExecuteStateName::Succeeded,
            None::<ErrorCode>,
        ),
        reason matches Err(e) ==> w.stop_spec(reason, kill).0.extract_spec() == (
            ExecuteStateName::Failed,
            Some(e),
        ),
{
}

/// Law: an abort that arrives only after the execution already stopped
/// has no effect: the state, the recorded outcome, the frozen snapshot
/// and the observable status all stay what they were, and force-kill is
/// not invoked.
pub proof fn lemma_late_abort_no_effect(w: ExecuteStateWrapper)
    requires
        w.is_stopped(),
    ensures
        w.stop_spec(Err(ErrorCode::AbortedQuery), true) == (w, false),
        w.stop_spec(Err(ErrorCode::AbortedQuery), true).0.extract_spec() == w.extract_spec(),
        w.stop_spec(Err(ErrorCode::AbortedQuery), true).0.get_progress_spec()
            == w.get_progress_spec(),
{
}

/// Law: the snapshot of a running execution never decreases as the
/// pipeline records completed work, and the moment the execution stops
/// its snapshot freezes at the last live value and no later stop
/// request moves it.
pub proof fn lemma_progress_monotone_and_frozen(
    w: ExecuteStateWrapper,
    rows: u64,
    bytes: u64,
    r1: Result<(), ErrorCode>,
    k1: bool,
    r2: Result<(), ErrorCode>,
    k2: bool,
)
    requires
        w.is_running(),
        w.live_progress().read_rows + rows <= u64::MAX,
        w.live_progress().read_bytes + bytes <= u64::MAX,
    ensures
        w.record_spec(rows, bytes).is_running(),
        w.live_progress().le(w.record_spec(rows, bytes).live_progress()),
        w.get_progress_spec() == Some(w.live_progress()),
        w.stop_spec(r1, k1).0.get_progress_spec() == Some(w.live_progress()),
        w.stop_spec(r1, k1).0.stop_spec(r2, k2).0.get_progress_spec() == Some(w.live_progress()),
{
}

/// Law: the consumer observes exactly a prefix of the batches the
/// interpreter produced, in production order, with no gaps and no
/// duplicates; the prefix is strict exactly when an abort cut the
/// stream short, and otherwise it is every batch produced before the
/// stream's first error or clean end.
pub proof fn lemma_delivery_is_ordered_prefix(items: Seq<StreamItem>, abort_at: Option<usize>)
    ensures
        0 <= delivered_len(items, abort_at) <= blocks_prefix_len(items),
        delivered_blocks(items, delivered_len(items, abort_at)) == delivered_blocks(
            items,
            blocks_prefix_len(items) as int,
        ).take(delivered_len(items, abort_at)),
        forall|j: int| 0 <= j < delivered_len(items, abort_at) ==> delivered_blocks(
            items,
            delivered_len(items, abort_at),
        )[j] == items[j]->Block_0,
        abort_effective(items, abort_at) ==> delivered_len(items, abort_at) < blocks_prefix_len(
            items,
        ),
{
    assert(delivered_blocks(items, delivered_len(items, abort_at)) =~= delivered_blocks(
        items,
        blocks_prefix_len(items) as int,
    ).take(delivered_len(items, abort_at)));
}

/// Law: when the abort signal wins the race, the recorded outcome is
/// the distinguished abort error — so a poller can tell a cancellation
/// from a fault — and the batch in hand at that moment is dropped, not
/// delivered.
pub proof fn lemma_abort_outcome(items: Seq<StreamItem>, abort_at: Option<usize>)
    requires
        abort_effective(items, abort_at),
    ensures
        final_reason(items, abort_at) == Err::<(), ErrorCode>(ErrorCode::AbortedQuery),
        delivered_len(items, abort_at) == abort_index(abort_at),
{
}

} // verus!
