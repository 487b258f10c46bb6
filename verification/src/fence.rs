//! Fences: which submissions the GPU has finished.

use core::sync::atomic;
use std::sync::Arc;
use vstd::prelude::*;

verus! {

/// A point on the timeline of a queue.
pub type FenceValue = u64;

/// How far a committed command buffer has come.
#[derive(Clone, Copy, Debug, PartialEq, Eq, Structural)]
pub enum CommandBufferStatus {
    NotEnqueued,
    Enqueued,
    Committed,
    Scheduled,
    Completed,
    Error,
}

/// A fence over command buffers of type `C` that may also signal an event of type `E`.
#[derive(Debug)]
pub struct Fence<C, E> {
    /// The value that the completion handlers of the command buffers write.
    pub completed_value: Arc<atomic::AtomicU64>,
    /// The pending fence values have to be ascending.
    pub pending_command_buffers: Vec<(FenceValue, C)>,
    pub shared_event: Option<E>,
}

/// The fence values of pending command buffers.
pub open spec fn pending_values<C>(pending: Seq<(FenceValue, C)>) -> Seq<FenceValue> {
    pending.map_values(|entry: (FenceValue, C)| entry.0)
}

/// No value is less than one before it.
pub open spec fn ascending(values: Seq<FenceValue>) -> bool {
    forall|i: int, j: int| 0 <= i < j < values.len() ==> values[i] <= values[j]
}

/// Each value is greater than those before it.
pub open spec fn strictly_ascending(values: Seq<FenceValue>) -> bool {
    forall|i: int, j: int| 0 <= i < j < values.len() ==> values[i] < values[j]
}

/// Whether the command buffer at place `i` has completed.
pub open spec fn has_completed(statuses: Seq<CommandBufferStatus>, i: int) -> bool {
    0 <= i < statuses.len() && statuses[i] is Completed
}

/// The value that the GPU has reached, as far as can be told from the values and statuses of the
/// pending command buffers and from the value that the completion handlers have written: that of
/// the last pending command buffer that has completed or, if there is none, `completed`.
pub open spec fn latest_value(
    completed: FenceValue,
    values: Seq<FenceValue>,
    statuses: Seq<CommandBufferStatus>,
) -> FenceValue
    decreases values.len(),
{
    if values.len() == 0 {
        completed
    } else if statuses[values.len() - 1] == CommandBufferStatus::Completed {
        values.last()
    } else {
        latest_value(completed, values.drop_last(), statuses)
    }
}

/// What is left of pending command buffers once those up to `latest` are forgotten.
pub open spec fn still_pending<C>(pending: Seq<(FenceValue, C)>, latest: FenceValue) -> Seq<
    (FenceValue, C),
> {
    pending.filter(|entry: (FenceValue, C)| entry.0 > latest)
}

impl<C, E> Fence<C, E> {
    /// What is left of the pending command buffers once those are forgotten that the GPU is done
    /// with.
    pub open spec fn left_pending(
        self,
        completed: FenceValue,
        statuses: Seq<CommandBufferStatus>,
    ) -> Seq<(FenceValue, C)> {
        let pending = self.pending_command_buffers@;
        still_pending(pending, latest_value(completed, pending_values(pending), statuses))
    }

    /// The latest value that the GPU has reached, where `completed` is what the completion
    /// handlers have written and `statuses` tells the state of each pending command buffer.
    pub fn get_latest(&self, completed: FenceValue, statuses: &[CommandBufferStatus]) -> (latest:
        FenceValue)
        requires
            statuses@.len() == self.pending_command_buffers@.len(),
        ensures
            latest == latest_value(
                completed,
                pending_values(self.pending_command_buffers@),
                statuses@,
            ),
            (forall|i: int|
                0 <= i < statuses@.len() ==> !((#[trigger] statuses@[i]) is Completed)) ==> latest
                == completed,
            forall|j: int|
                0 <= j < statuses@.len() && (#[trigger] statuses@[j]) is Completed && (forall|i: int|
                    j < i < statuses@.len() ==> !((#[trigger] statuses@[i]) is Completed))
                    ==> latest == self.pending_command_buffers@[j].0,
    {
        let mut max_value: FenceValue = completed;
        let ghost values = pending_values(self.pending_command_buffers@);
        assert(values.take(0) =~= Seq::empty());
        for i in 0..self.pending_command_buffers.len()
            invariant
                statuses@.len() == self.pending_command_buffers@.len(),
                values == pending_values(self.pending_command_buffers@),
                max_value == latest_value(completed, values.take(i as int), statuses@),
        {
            assert(values.take(i + 1).drop_last() =~= values.take(i as int));
            if statuses[i] == CommandBufferStatus::Completed {
                max_value = self.pending_command_buffers[i].0;
            }
        }
        assert(values.take(values.len() as int) =~= values);
        proof {
            lemma_latest_by_statuses(completed, values, statuses@);
        }
        max_value
    }

    /// Forgets the pending command buffers up to the latest value that the GPU has reached. The
    /// others stay, in their order.
    pub fn maintain(&mut self, completed: FenceValue, statuses: &[CommandBufferStatus])
        requires
            statuses@.len() == old(self).pending_command_buffers@.len(),
        ensures
            final(self).pending_command_buffers@ == old(self).left_pending(completed, statuses@),
            (forall|i: int|
                0 <= i < statuses@.len() ==> !((#[trigger] statuses@[i]) is Completed))
                ==> final(self).pending_command_buffers@ == old(self).pending_command_buffers@.filter(
                |entry: (FenceValue, C)| entry.0 > completed,
            ),
            forall|j: int|
                0 <= j < statuses@.len() && (#[trigger] statuses@[j]) is Completed && (forall|i: int|
                    j < i < statuses@.len() ==> !((#[trigger] statuses@[i]) is Completed))
                    ==> final(self).pending_command_buffers@ == old(self).pending_command_buffers@.filter(
                    |entry: (FenceValue, C)| entry.0 > old(self).pending_command_buffers@[j].0,
                ),
            final(self).completed_value == old(self).completed_value,
            final(self).shared_event == old(self).shared_event,
    {
        let latest = self.get_latest(completed, statuses);
        let mut before: Vec<(FenceValue, C)> = Vec::new();
        core::mem::swap(&mut before, &mut self.pending_command_buffers);
        let ghost pending = before@;
        let ghost keep = |entry: (FenceValue, C)| entry.0 > latest;
        let mut kept: Vec<(FenceValue, C)> = Vec::new();
        proof {
            reveal(Seq::filter);
            assert(pending.take(0) =~= Seq::empty());
        }
        for entry in it: before
            invariant
                it.seq() == pending,
                keep == (|entry: (FenceValue, C)| entry.0 > latest),
                kept@ == pending.take(it.index()).filter(keep),
        {
            proof {
                reveal(Seq::filter);
                assert(pending.take(it.index() + 1).drop_last() =~= pending.take(it.index()));
            }
            if entry.0 > latest {
                kept.push(entry);
            }
        }
        assert(pending.take(pending.len() as int) =~= pending);
        self.pending_command_buffers = kept;
    }

    /// Makes the fence wait for `command_buffer`, on whose completion it reaches `signal_value`,
    /// and forgets on this occasion what the GPU is done with.
    pub fn signal_on(
        &mut self,
        completed: FenceValue,
        statuses: &[CommandBufferStatus],
        signal_value: FenceValue,
        command_buffer: C,
    )
        requires
            statuses@.len() == old(self).pending_command_buffers@.len(),
        ensures
            final(self).pending_command_buffers@ == old(self).left_pending(completed, statuses@).push((signal_value, command_buffer)),
            (forall|i: int|
                0 <= i < statuses@.len() ==> !((#[trigger] statuses@[i]) is Completed))
                ==> final(self).pending_command_buffers@ == old(self).pending_command_buffers@.filter(
                |entry: (FenceValue, C)| entry.0 > completed,
            ).push((signal_value, command_buffer)),
            forall|j: int|
                0 <= j < statuses@.len() && (#[trigger] statuses@[j]) is Completed && (forall|i: int|
                    j < i < statuses@.len() ==> !((#[trigger] statuses@[i]) is Completed))
                    ==> final(self).pending_command_buffers@ == old(self).pending_command_buffers@.filter(
                    |entry: (FenceValue, C)| entry.0 > old(self).pending_command_buffers@[j].0,
                ).push((signal_value, command_buffer)),
            final(self).completed_value == old(self).completed_value,
            final(self).shared_event == old(self).shared_event,
    {
        self.maintain(completed, statuses);
        self.pending_command_buffers.push((signal_value, command_buffer));
    }

    /// The event that submissions signal along with the fence, if there is one.
    pub fn raw_shared_event(&self) -> (event: Option<&E>)
        ensures
            event == (match self.shared_event {
                Some(raw) => Some(&raw),
                None => None,
            }),
    {
        self.shared_event.as_ref()
    }
}

/// The latest value, told from the statuses alone: without a completed command buffer, and with a
/// last one.
proof fn lemma_latest_by_statuses(
    completed: FenceValue,
    values: Seq<FenceValue>,
    statuses: Seq<CommandBufferStatus>,
)
    requires
        statuses.len() == values.len(),
    ensures
        (forall|i: int| 0 <= i < statuses.len() ==> !((#[trigger] statuses[i]) is Completed))
            ==> latest_value(completed, values, statuses) == completed,
        forall|j: int|
            0 <= j < statuses.len() && (#[trigger] statuses[j]) is Completed && (forall|i: int|
                j < i < statuses.len() ==> !((#[trigger] statuses[i]) is Completed))
                ==> latest_value(completed, values, statuses) == values[j],
{
    law_latest_is_last_completed(completed, values, statuses);
    assert forall|j: int|
        0 <= j < statuses.len() && (#[trigger] statuses[j]) is Completed && (forall|i: int|
            j < i < statuses.len() ==> !((#[trigger] statuses[i]) is Completed)) implies latest_value(
        completed,
        values,
        statuses,
    ) == values[j] by {
        assert(has_completed(statuses, j));
        let k = choose|k: int|
            0 <= k < values.len() && #[trigger] has_completed(statuses, k) && values[k]
                == latest_value(completed, values, statuses) && forall|i: int|
                k < i < values.len() ==> !#[trigger] has_completed(statuses, i);
        assert(has_completed(statuses, k));
        assert(statuses[k] is Completed);
    }
}

/// Forgetting drops a first part of ascending pending values and keeps the rest.
proof fn lemma_still_pending_is_suffix<C>(pending: Seq<(FenceValue, C)>, latest: FenceValue) -> (k:
    int)
    requires
        ascending(pending_values(pending)),
    ensures
        0 <= k <= pending.len(),
        still_pending(pending, latest) == pending.skip(k),
        forall|i: int| 0 <= i < k ==> (#[trigger] pending[i]).0 <= latest,
        forall|i: int| k <= i < pending.len() ==> (#[trigger] pending[i]).0 > latest,
    decreases pending.len(),
{
    reveal(Seq::filter);
    let values = pending_values(pending);
    if pending.len() == 0 {
        assert(pending.skip(0) =~= pending);
        0
    } else {
        let front = pending.drop_last();
        assert(pending_values(front) =~= values.drop_last());
        let k = lemma_still_pending_is_suffix(front, latest);
        assert forall|i: int| 0 <= i < front.len() implies pending[i].0 <= pending.last().0 by {
            assert(values[i] <= values[values.len() - 1]);
        }
        assert(forall|i: int| 0 <= i < front.len() ==> front[i] == pending[i]);
        if pending.last().0 > latest {
            assert(pending.skip(k) =~= front.skip(k).push(pending.last()));
            k
        } else {
            assert(k == front.len()) by {
                if k < front.len() {
                    assert(front[k].0 > latest);
                }
            }
            assert(front.skip(k) =~= Seq::empty());
            assert(pending.skip(pending.len() as int) =~= Seq::empty());
            pending.len() as int
        }
    }
}

/// In whatever order the pending values are, the latest value is that of the last command buffer
/// that has completed; with no completed command buffer it is what the completion handlers have
/// written.
pub proof fn law_latest_is_last_completed(
    completed: FenceValue,
    values: Seq<FenceValue>,
    statuses: Seq<CommandBufferStatus>,
)
    requires
        values.len() <= statuses.len(),
    ensures
        ({
            let latest = latest_value(completed, values, statuses);
            ||| latest == completed && forall|i: int|
                0 <= i < values.len() ==> !#[trigger] has_completed(statuses, i)
            ||| exists|j: int|
                0 <= j < values.len() && #[trigger] has_completed(statuses, j) && values[j]
                    == latest && forall|i: int|
                    j < i < values.len() ==> !#[trigger] has_completed(statuses, i)
        }),
    decreases values.len(),
{
    if values.len() > 0 {
        let end = values.len() - 1;
        if statuses[end] == CommandBufferStatus::Completed {
            assert(has_completed(statuses, end));
        } else {
            law_latest_is_last_completed(completed, values.drop_last(), statuses);
        }
    }
}

/// With ascending pending values, the latest value is that of a completed command buffer and no
/// completed one is beyond it; with no completed command buffer it is what the completion
/// handlers have written.
pub proof fn law_latest_is_greatest_completed(
    completed: FenceValue,
    values: Seq<FenceValue>,
    statuses: Seq<CommandBufferStatus>,
)
    requires
        statuses.len() == values.len(),
        ascending(values),
    ensures
        ({
            let latest = latest_value(completed, values, statuses);
            &&& forall|i: int| #[trigger] has_completed(statuses, i) ==> values[i] <= latest
            &&& (exists|i: int| #[trigger] has_completed(statuses, i)) ==> exists|i: int| #[trigger]
                has_completed(statuses, i) && values[i] == latest
            &&& (forall|i: int| !#[trigger] has_completed(statuses, i)) ==> latest == completed
        }),
{
    law_latest_is_last_completed(completed, values, statuses);
}

/// With ascending pending values, [`Fence::maintain`] forgets the first command buffers and leaves
/// the rest as it is, and among those that it leaves none has completed.
pub proof fn law_maintain_forgets_completed<C>(
    completed: FenceValue,
    pending: Seq<(FenceValue, C)>,
    statuses: Seq<CommandBufferStatus>,
)
    requires
        statuses.len() == pending.len(),
        ascending(pending_values(pending)),
    ensures
        exists|k: int|
            0 <= k <= pending.len() && still_pending(
                pending,
                latest_value(completed, pending_values(pending), statuses),
            ) == #[trigger] pending.skip(k) && forall|i: int|
                k <= i < pending.len() ==> !#[trigger] has_completed(statuses, i),
{
    let values = pending_values(pending);
    let latest = latest_value(completed, values, statuses);
    law_latest_is_greatest_completed(completed, values, statuses);
    let k = lemma_still_pending_is_suffix(pending, latest);
    assert forall|i: int| k <= i < pending.len() implies !#[trigger] has_completed(
        statuses,
        i,
    ) by {
        assert(pending[i].0 == values[i]);
    }
    assert(still_pending(pending, latest) == pending.skip(k));
}

/// After [`Fence::maintain`] with no completed command buffer, a command buffer is still pending
/// exactly if its value is beyond what the completion handlers have written.
pub proof fn law_maintain_without_completed<C, E>(
    fence: Fence<C, E>,
    completed: FenceValue,
    statuses: Seq<CommandBufferStatus>,
    i: int,
)
    requires
        statuses.len() == fence.pending_command_buffers@.len(),
        forall|k: int| 0 <= k < statuses.len() ==> !((#[trigger] statuses[k]) is Completed),
        0 <= i < statuses.len(),
    ensures
        fence.left_pending(completed, statuses).contains(fence.pending_command_buffers@[i])
            <==> fence.pending_command_buffers@[i].0 > completed,
{
    let pending = fence.pending_command_buffers@;
    lemma_latest_by_statuses(completed, pending_values(pending), statuses);
    law_maintain_keeps_unreached(pending, completed, i);
}

/// After [`Fence::maintain`] where the command buffer at place `j` is the last one that has
/// completed, a command buffer is still pending exactly if its value is beyond that one's.
pub proof fn law_maintain_after_last_completed<C, E>(
    fence: Fence<C, E>,
    completed: FenceValue,
    statuses: Seq<CommandBufferStatus>,
    j: int,
    i: int,
)
    requires
        statuses.len() == fence.pending_command_buffers@.len(),
        0 <= j < statuses.len(),
        statuses[j] is Completed,
        forall|k: int| j < k < statuses.len() ==> !((#[trigger] statuses[k]) is Completed),
        0 <= i < statuses.len(),
    ensures
        fence.left_pending(completed, statuses).contains(fence.pending_command_buffers@[i])
            <==> fence.pending_command_buffers@[i].0 > fence.pending_command_buffers@[j].0,
{
    let pending = fence.pending_command_buffers@;
    lemma_latest_by_statuses(completed, pending_values(pending), statuses);
    law_maintain_keeps_unreached(pending, pending[j].0, i);
}

/// With ascending pending values, [`Fence::maintain`] leaves the last command buffers in their
/// order: of those that it leaves none has completed, and those that it forgets are the ones up to
/// a completed one or, if none has completed, up to the value of the completion handlers.
pub proof fn law_maintain_splits_at_completed<C, E>(
    fence: Fence<C, E>,
    completed: FenceValue,
    statuses: Seq<CommandBufferStatus>,
)
    requires
        statuses.len() == fence.pending_command_buffers@.len(),
        forall|i: int, j: int|
            0 <= i < j < statuses.len() ==> (#[trigger] fence.pending_command_buffers@[i]).0 <= (
            #[trigger] fence.pending_command_buffers@[j]).0,
    ensures
        ({
            let pending = fence.pending_command_buffers@;
            let left = fence.left_pending(completed, statuses);
            let k = pending.len() - left.len();
            &&& 0 <= k
            &&& left == pending.skip(k)
            &&& forall|i: int| k <= i < pending.len() ==> !((#[trigger] statuses[i]) is Completed)
            &&& forall|i: int, j: int|
                0 <= i < k && 0 <= j < k && (#[trigger] statuses[j]) is Completed && (forall|m: int|
                    j < m < statuses.len() ==> !((#[trigger] statuses[m]) is Completed)) ==> (
                #[trigger] pending[i]).0 <= pending[j].0
            &&& (forall|i: int| 0 <= i < pending.len() ==> !((#[trigger] statuses[i]) is Completed))
                ==> forall|i: int|
                0 <= i < pending.len() ==> (i < k <==> (#[trigger] pending[i]).0 <= completed)
        }),
{
    let pending = fence.pending_command_buffers@;
    let values = pending_values(pending);
    let latest = latest_value(completed, values, statuses);
    assert forall|i: int, j: int| 0 <= i < j < values.len() implies values[i] <= values[j] by {
        assert(pending[i].0 <= pending[j].0);
    }
    law_latest_is_greatest_completed(completed, values, statuses);
    lemma_latest_by_statuses(completed, values, statuses);
    let k = lemma_still_pending_is_suffix(pending, latest);
    assert(fence.left_pending(completed, statuses) == pending.skip(k));
    assert forall|i: int| k <= i < pending.len() implies !((
    #[trigger] statuses[i]) is Completed) by {
        assert(pending[i].0 == values[i]);
        if statuses[i] is Completed {
            assert(has_completed(statuses, i));
        }
    }
}

/// [`Fence::maintain`] forgets nothing beyond the latest value: whatever is pending beyond it
/// stays.
pub proof fn law_maintain_keeps_unreached<C>(
    pending: Seq<(FenceValue, C)>,
    latest: FenceValue,
    i: int,
)
    requires
        0 <= i < pending.len(),
    ensures
        still_pending(pending, latest).contains(pending[i]) <==> pending[i].0 > latest,
{
    broadcast use vstd::seq_lib::group_filter_ensures;

}

/// With ascending pending values, a second [`Fence::maintain`] on an unchanged device finds no
/// completed command buffer and goes by what the completion handlers have written. It forgets
/// nothing more, unless the handlers were ahead of the command buffers.
pub proof fn law_maintain_is_idempotent<C>(
    completed: FenceValue,
    pending: Seq<(FenceValue, C)>,
    statuses: Seq<CommandBufferStatus>,
)
    requires
        statuses.len() == pending.len(),
        ascending(pending_values(pending)),
    ensures
        ({
            let latest = latest_value(completed, pending_values(pending), statuses);
            let left = still_pending(pending, latest);
            let left_statuses = statuses.skip(statuses.len() - left.len());
            let again = latest_value(completed, pending_values(left), left_statuses);
            &&& again == completed
            &&& completed <= latest ==> still_pending(left, again) == left
        }),
{
    let values = pending_values(pending);
    let latest = latest_value(completed, values, statuses);
    let k = lemma_still_pending_is_suffix(pending, latest);
    let left = pending.skip(k);
    let left_values = pending_values(left);
    let left_statuses = statuses.skip(k);
    assert(left_values =~= values.skip(k));
    law_latest_is_greatest_completed(completed, values, statuses);
    assert forall|i: int| !#[trigger] has_completed(left_statuses, i) by {
        if has_completed(left_statuses, i) {
            assert(has_completed(statuses, k + i));
            assert(pending[k + i].0 == values[k + i]);
        }
    }
    law_latest_is_greatest_completed(completed, left_values, left_statuses);
    if completed <= latest {
        let m = lemma_still_pending_is_suffix(left, completed);
        if m > 0 {
            assert(left[0] == pending[k]);
        }
        assert(left.skip(0) =~= left);
    }
}

/// Pending values that ascend still do after [`Fence::maintain`], strictly if they did so before.
pub proof fn law_maintain_keeps_ascending<C>(pending: Seq<(FenceValue, C)>, latest: FenceValue)
    requires
        ascending(pending_values(pending)),
    ensures
        ascending(pending_values(still_pending(pending, latest))),
        strictly_ascending(pending_values(pending)) ==> strictly_ascending(
            pending_values(still_pending(pending, latest)),
        ),
{
    let k = lemma_still_pending_is_suffix(pending, latest);
    assert(pending_values(pending.skip(k)) =~= pending_values(pending).skip(k));
}

/// A submission with a value that is not below a pending one keeps the pending values ascending,
/// strictly so with a value beyond all pending ones.
pub proof fn law_signal_keeps_ascending<C>(
    pending: Seq<(FenceValue, C)>,
    latest: FenceValue,
    signal_value: FenceValue,
    command_buffer: C,
)
    requires
        ascending(pending_values(pending)),
        forall|i: int| 0 <= i < pending.len() ==> pending_values(pending)[i] <= signal_value,
    ensures
        ({
            let signalled = still_pending(pending, latest).push((signal_value, command_buffer));
            &&& ascending(pending_values(signalled))
            &&& strictly_ascending(pending_values(pending).push(signal_value))
                ==> strictly_ascending(pending_values(signalled))
        }),
{
    let k = lemma_still_pending_is_suffix(pending, latest);
    let values = pending_values(pending);
    let signalled = pending.skip(k).push((signal_value, command_buffer));
    assert(pending_values(signalled) =~= values.push(signal_value).skip(k));
}

} // verus!
