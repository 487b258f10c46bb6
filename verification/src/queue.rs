//! The order of what a queue does with submissions and presentations.

use crate::fence::{CommandBufferStatus, Fence, FenceValue};
use crate::resource::SurfaceTexture;
use vstd::prelude::*;

verus! {

/// The label of a command buffer that signals a fence.
pub const SIGNAL_LABEL: &'static str = "(wgpu internal) Signal";

/// The label of a command buffer that presents a drawable.
pub const PRESENT_LABEL: &'static str = "(wgpu internal) Present";

/// A queue behind the handle `raw`, whose timestamps count in steps of `timestamp_period`.
pub struct Queue<R, P> {
    pub raw: R,
    pub timestamp_period: P,
}

/// A step of a submission. The command buffer that signals the fence is the signal buffer.
#[derive(Clone, Copy, Debug, PartialEq, Eq, Structural)]
pub enum SubmitAction {
    /// Take the submitted command buffer at this place as the signal buffer.
    TakeCommandBuffer(usize),
    /// Make a new command buffer, with unretained references, the signal buffer.
    CreateCommandBuffer,
    /// Give the signal buffer the label [`SIGNAL_LABEL`].
    SetSignalLabel,
    /// When the signal buffer completes, write this value as the completed value of the fence.
    StoreOnCompletion(FenceValue),
    /// Let the signal buffer signal the shared event of the fence with this value.
    EncodeSignalEvent(FenceValue),
    /// Commit the submitted command buffer at this place.
    Commit(usize),
    /// Commit the signal buffer that was created.
    CommitCreated,
}

/// A step of a presentation.
#[derive(Clone, Copy, Debug, PartialEq, Eq, Structural)]
pub enum PresentAction {
    /// Make a new command buffer.
    CreateCommandBuffer,
    /// Give the command buffer the label [`PRESENT_LABEL`].
    SetPresentLabel,
    /// Let the command buffer present the drawable.
    EncodePresent,
    /// Commit the command buffer.
    Commit,
    /// Wait until the command buffer is scheduled.
    WaitUntilScheduled,
    /// Present the drawable, as a part of the current transaction.
    PresentDrawable,
}

/// What a submission does before the fence waits for it: it chooses the signal buffer, the last of
/// the command buffers or, if there are none, a new one, and makes it ready to signal.
pub open spec fn prepare_actions(command_buffers: nat, signal_value: FenceValue) -> Seq<
    SubmitAction,
> {
    let signal_buffer = if command_buffers > 0 {
        SubmitAction::TakeCommandBuffer((command_buffers - 1) as usize)
    } else {
        SubmitAction::CreateCommandBuffer
    };
    seq![
        signal_buffer,
        SubmitAction::SetSignalLabel,
        SubmitAction::StoreOnCompletion(signal_value),
    ]
}

/// How a submission signals the shared event of the fence.
pub open spec fn event_actions(has_event: bool, signal_value: FenceValue) -> Seq<SubmitAction> {
    if has_event {
        seq![SubmitAction::EncodeSignalEvent(signal_value)]
    } else {
        Seq::empty()
    }
}

/// The commits of a submission: the command buffers in their order or, if there are none, the
/// signal buffer that was made in their place.
pub open spec fn commit_actions(command_buffers: nat) -> Seq<SubmitAction> {
    if command_buffers > 0 {
        Seq::new(command_buffers, |i: int| SubmitAction::Commit(i as usize))
    } else {
        seq![SubmitAction::CommitCreated]
    }
}

/// What a submission does once the fence waits for it.
pub open spec fn finish_actions(
    command_buffers: nat,
    has_event: bool,
    signal_value: FenceValue,
) -> Seq<SubmitAction> {
    event_actions(has_event, signal_value) + commit_actions(command_buffers)
}

/// All that a submission does with command buffers, in order.
pub open spec fn submit_actions(
    command_buffers: nat,
    has_event: bool,
    signal_value: FenceValue,
) -> Seq<SubmitAction> {
    prepare_actions(command_buffers, signal_value) + finish_actions(
        command_buffers,
        has_event,
        signal_value,
    )
}

/// All that a presentation does, in order.
pub open spec fn present_actions(with_transaction: bool) -> Seq<PresentAction> {
    if with_transaction {
        seq![
            PresentAction::CreateCommandBuffer,
            PresentAction::SetPresentLabel,
            PresentAction::Commit,
            PresentAction::WaitUntilScheduled,
            PresentAction::PresentDrawable,
        ]
    } else {
        seq![
            PresentAction::CreateCommandBuffer,
            PresentAction::SetPresentLabel,
            PresentAction::EncodePresent,
            PresentAction::Commit,
        ]
    }
}

impl<R, P> Queue<R, P> {
    /// A queue that wraps `raw`.
    pub fn queue_from_raw(raw: R, timestamp_period: P) -> (queue: Self)
        ensures
            queue.raw == raw,
            queue.timestamp_period == timestamp_period,
    {
        Queue { raw, timestamp_period }
    }

    /// The native queue.
    pub fn as_raw(&self) -> (raw: &R)
        ensures
            *raw == self.raw,
    {
        &self.raw
    }

    /// The length of a timestamp step.
    pub fn get_timestamp_period(&self) -> (period: P) where P: Copy
        ensures
            period == self.timestamp_period,
    {
        self.timestamp_period
    }

    /// The first part of submitting so many command buffers and then letting a fence reach
    /// `signal_value`: what it takes to choose the signal buffer and to make it ready.
    pub fn prepare_submit(&self, command_buffers: usize, signal_value: FenceValue) -> (actions: Vec<
        SubmitAction,
    >)
        ensures
            actions@ == prepare_actions(command_buffers as nat, signal_value),
            actions@.len() == 3,
            command_buffers > 0 ==> actions@[0] == SubmitAction::TakeCommandBuffer(
                (command_buffers - 1) as usize,
            ),
            command_buffers == 0 ==> actions@[0] == SubmitAction::CreateCommandBuffer,
            actions@[1] == SubmitAction::SetSignalLabel,
            actions@[2] == SubmitAction::StoreOnCompletion(signal_value),
    {
        let mut actions: Vec<SubmitAction> = Vec::new();
        if command_buffers > 0 {
            actions.push(SubmitAction::TakeCommandBuffer(command_buffers - 1));
        } else {
            actions.push(SubmitAction::CreateCommandBuffer);
        }
        actions.push(SubmitAction::SetSignalLabel);
        actions.push(SubmitAction::StoreOnCompletion(signal_value));
        assert(actions@ =~= prepare_actions(command_buffers as nat, signal_value));
        actions
    }

    /// The second part of submitting so many command buffers, once `signal_buffer` is ready: lets
    /// `fence` wait for it with `signal_value`, and gives what is left to do. As for
    /// [`Fence::maintain`], `completed` is what the completion handlers have written and `statuses`
    /// tells the state of each pending command buffer.
    pub fn submit<C, E>(
        &self,
        command_buffers: usize,
        fence: &mut Fence<C, E>,
        completed: FenceValue,
        statuses: &[CommandBufferStatus],
        signal_value: FenceValue,
        signal_buffer: C,
    ) -> (actions: Vec<SubmitAction>)
        requires
            statuses@.len() == old(fence).pending_command_buffers@.len(),
        ensures
            actions@ == finish_actions(
                command_buffers as nat,
                old(fence).shared_event is Some,
                signal_value,
            ),
            actions@.len() == (if old(fence).shared_event is Some {
                1int
            } else {
                0int
            }) + (if command_buffers > 0 {
                command_buffers as int
            } else {
                1int
            }),
            old(fence).shared_event is Some ==> actions@[0] == SubmitAction::EncodeSignalEvent(
                signal_value,
            ),
            old(fence).shared_event is Some ==> forall|i: int|
                1 <= i <= command_buffers ==> #[trigger] actions@[i] == SubmitAction::Commit(
                    (i - 1) as usize,
                ),
            old(fence).shared_event is None ==> forall|i: int|
                0 <= i < command_buffers ==> #[trigger] actions@[i] == SubmitAction::Commit(
                    i as usize,
                ),
            command_buffers == 0 ==> actions@.last() == SubmitAction::CommitCreated,
            final(fence).pending_command_buffers@ == old(fence).left_pending(completed, statuses@).push((signal_value, signal_buffer)),
            (forall|i: int|
                0 <= i < statuses@.len() ==> !((#[trigger] statuses@[i]) is Completed))
                ==> final(fence).pending_command_buffers@ == old(fence).pending_command_buffers@.filter(
                |entry: (FenceValue, C)| entry.0 > completed,
            ).push((signal_value, signal_buffer)),
            forall|j: int|
                0 <= j < statuses@.len() && (#[trigger] statuses@[j]) is Completed && (forall|i: int|
                    j < i < statuses@.len() ==> !((#[trigger] statuses@[i]) is Completed))
                    ==> final(fence).pending_command_buffers@ == old(fence).pending_command_buffers@.filter(
                    |entry: (FenceValue, C)| entry.0 > old(fence).pending_command_buffers@[j].0,
                ).push((signal_value, signal_buffer)),
            final(fence).completed_value == old(fence).completed_value,
            final(fence).shared_event == old(fence).shared_event,
    {
        fence.signal_on(completed, statuses, signal_value, signal_buffer);
        let mut actions: Vec<SubmitAction> = Vec::new();
        if fence.raw_shared_event().is_some() {
            actions.push(SubmitAction::EncodeSignalEvent(signal_value));
        }
        let ghost event = actions@;
        assert(event =~= event_actions(fence.shared_event is Some, signal_value));
        for i in 0..command_buffers
            invariant
                actions@ == event + Seq::new(i as nat, |i: int| SubmitAction::Commit(i as usize)),
        {
            actions.push(SubmitAction::Commit(i));
        }
        if command_buffers == 0 {
            actions.push(SubmitAction::CommitCreated);
        }
        assert(actions@ =~= event + commit_actions(command_buffers as nat));
        actions
    }

    /// What it takes to present `texture`.
    pub fn present<T, F, K, D>(&self, texture: &SurfaceTexture<T, F, K, D>) -> (actions: Vec<
        PresentAction,
    >)
        ensures
            actions@ == present_actions(texture.present_with_transaction),
            actions@[0] == PresentAction::CreateCommandBuffer,
            actions@[1] == PresentAction::SetPresentLabel,
            !texture.present_with_transaction ==> actions@.len() == 4 && actions@[2]
                == PresentAction::EncodePresent && actions@[3] == PresentAction::Commit,
            texture.present_with_transaction ==> actions@.len() == 5 && actions@[2]
                == PresentAction::Commit && actions@[3] == PresentAction::WaitUntilScheduled
                && actions@[4] == PresentAction::PresentDrawable,
    {
        let mut actions: Vec<PresentAction> = Vec::new();
        actions.push(PresentAction::CreateCommandBuffer);
        actions.push(PresentAction::SetPresentLabel);
        if !texture.present_with_transaction {
            actions.push(PresentAction::EncodePresent);
        }
        actions.push(PresentAction::Commit);
        if texture.present_with_transaction {
            actions.push(PresentAction::WaitUntilScheduled);
            actions.push(PresentAction::PresentDrawable);
        }
        assert(actions@ =~= present_actions(texture.present_with_transaction));
        actions
    }
}

/// Whether the action commits a command buffer.
pub open spec fn is_commit(action: SubmitAction) -> bool {
    action is Commit || action is CommitCreated
}

/// A submission readies the signal buffer, up to the shared event, before it commits any command
/// buffer: the first part of its actions commits nothing, the second part does nothing else.
pub proof fn law_signal_is_prepared_before_commits(
    command_buffers: nat,
    has_event: bool,
    signal_value: FenceValue,
    i: int,
)
    requires
        0 <= i < submit_actions(command_buffers, has_event, signal_value).len(),
    ensures
        is_commit(submit_actions(command_buffers, has_event, signal_value)[i]) <==> i
            >= prepare_actions(command_buffers, signal_value).len() + event_actions(
            has_event,
            signal_value,
        ).len(),
{
}

/// Before the fence waits for it, a submission does three things: it takes the last command buffer
/// or, if there is none, makes one, labels it, and lets it write the value of the submission.
pub proof fn law_last_command_buffer_is_made_ready(command_buffers: usize, signal_value: FenceValue)
    ensures
        ({
            let actions = prepare_actions(command_buffers as nat, signal_value);
            &&& actions.len() == 3
            &&& command_buffers == 0 ==> actions[0] == SubmitAction::CreateCommandBuffer
            &&& command_buffers > 0 ==> actions[0] == SubmitAction::TakeCommandBuffer(
                (command_buffers - 1) as usize,
            )
            &&& actions[1] == SubmitAction::SetSignalLabel
            &&& actions[2] == SubmitAction::StoreOnCompletion(signal_value)
        }),
{
}

/// A submission commits each command buffer once and in order. Without command buffers it commits
/// one that it has made itself.
pub proof fn law_commits_once_in_order(
    command_buffers: nat,
    has_event: bool,
    signal_value: FenceValue,
)
    ensures
        submit_actions(command_buffers, has_event, signal_value).filter(
            |action: SubmitAction| is_commit(action),
        ) == commit_actions(command_buffers),
{
    let prepare = prepare_actions(command_buffers, signal_value);
    let event = event_actions(has_event, signal_value);
    let commits = commit_actions(command_buffers);
    let pred = |action: SubmitAction| is_commit(action);
    assert forall|i: int| 0 <= i < prepare.len() implies !pred(#[trigger] prepare[i]) by {}
    assert forall|i: int| 0 <= i < event.len() implies !pred(#[trigger] event[i]) by {}
    assert forall|i: int| 0 <= i < commits.len() implies pred(#[trigger] commits[i]) by {}
    lemma_filter_last_part(prepare, event, commits, pred);
    assert(submit_actions(command_buffers, has_event, signal_value) == prepare + (event + commits));
}

/// Filtering by what holds of none of the first items and of all of the others leaves the others.
proof fn lemma_filter_last_part<A>(
    first: Seq<A>,
    second: Seq<A>,
    last: Seq<A>,
    pred: spec_fn(A) -> bool,
)
    requires
        forall|i: int| 0 <= i < first.len() ==> !pred(#[trigger] first[i]),
        forall|i: int| 0 <= i < second.len() ==> !pred(#[trigger] second[i]),
        forall|i: int| 0 <= i < last.len() ==> pred(#[trigger] last[i]),
    ensures
        (first + (second + last)).filter(pred) == last,
{
    Seq::filter_distributes_over_add(first, second + last, pred);
    Seq::filter_distributes_over_add(second, last, pred);
    first.lemma_all_neg_filter_empty(pred);
    second.lemma_all_neg_filter_empty(pred);
    lemma_filter_all(last, pred);
    assert(first.filter(pred) + (second.filter(pred) + last) =~= last);
}

/// The commits among the actions of a submission of one or more command buffers are as many as
/// these, and the commit at place `i` is that of the command buffer at place `i`.
pub proof fn law_commits_number_the_command_buffers(
    command_buffers: usize,
    has_event: bool,
    signal_value: FenceValue,
    i: int,
)
    requires
        0 <= i < command_buffers,
    ensures
        ({
            let commits = submit_actions(command_buffers as nat, has_event, signal_value).filter(
                |action: SubmitAction| action is Commit || action is CommitCreated,
            );
            &&& commits.len() == command_buffers
            &&& commits[i] == SubmitAction::Commit(i as usize)
        }),
{
    let prepare = prepare_actions(command_buffers as nat, signal_value);
    let event = event_actions(has_event, signal_value);
    let commits = commit_actions(command_buffers as nat);
    let pred = |action: SubmitAction| action is Commit || action is CommitCreated;
    assert forall|i: int| 0 <= i < prepare.len() implies !pred(#[trigger] prepare[i]) by {}
    assert forall|i: int| 0 <= i < event.len() implies !pred(#[trigger] event[i]) by {}
    assert forall|i: int| 0 <= i < commits.len() implies pred(#[trigger] commits[i]) by {}
    lemma_filter_last_part(prepare, event, commits, pred);
    assert(submit_actions(command_buffers as nat, has_event, signal_value) == prepare + (event + commits));
}

/// A submission without command buffers has one commit, that of the command buffer that it has
/// made.
pub proof fn law_empty_submission_commits_created(has_event: bool, signal_value: FenceValue)
    ensures
        submit_actions(0, has_event, signal_value).filter(
            |action: SubmitAction| action is Commit || action is CommitCreated,
        ) == seq![SubmitAction::CommitCreated],
{
    let prepare = prepare_actions(0, signal_value);
    let event = event_actions(has_event, signal_value);
    let commits = commit_actions(0);
    let pred = |action: SubmitAction| action is Commit || action is CommitCreated;
    assert forall|i: int| 0 <= i < prepare.len() implies !pred(#[trigger] prepare[i]) by {}
    assert forall|i: int| 0 <= i < event.len() implies !pred(#[trigger] event[i]) by {}
    assert forall|i: int| 0 <= i < commits.len() implies pred(#[trigger] commits[i]) by {}
    lemma_filter_last_part(prepare, event, commits, pred);
    assert(submit_actions(0, has_event, signal_value) == prepare + (event + commits));
}

/// What is left to do of a submission once the fence waits for it, place by place: first the
/// signal of the shared event, if there is one, then the commits at the last places, as many as
/// there are command buffers.
pub proof fn law_submission_ends_with_commits(
    command_buffers: usize,
    has_event: bool,
    signal_value: FenceValue,
)
    ensures
        ({
            let actions = finish_actions(command_buffers as nat, has_event, signal_value);
            let first = if has_event { 1int } else { 0int };
            &&& has_event ==> actions[0] == SubmitAction::EncodeSignalEvent(signal_value)
            &&& command_buffers > 0 ==> actions.len() == first + command_buffers
            &&& command_buffers == 0 ==> actions.len() == first + 1 && actions[first]
                == SubmitAction::CommitCreated
            &&& forall|i: int|
                first <= i < first + command_buffers ==> #[trigger] actions[i]
                    == SubmitAction::Commit((i - first) as usize)
        }),
{
}

/// A submission of one command buffer more does the same with the others before it commits that
/// one: two such submissions commit the same up to there.
pub proof fn law_one_more_command_buffer_commits_last(
    command_buffers: usize,
    has_event: bool,
    signal_value: FenceValue,
)
    requires
        0 < command_buffers < usize::MAX,
    ensures
        finish_actions(command_buffers as nat + 1, has_event, signal_value) == finish_actions(
            command_buffers as nat,
            has_event,
            signal_value,
        ).push(SubmitAction::Commit(command_buffers)),
{
}

/// Filtering by what holds of every item changes nothing.
proof fn lemma_filter_all<A>(s: Seq<A>, pred: spec_fn(A) -> bool)
    requires
        forall|i: int| 0 <= i < s.len() ==> pred(#[trigger] s[i]),
    ensures
        s.filter(pred) == s,
    decreases s.len(),
{
    reveal(Seq::filter);
    if s.len() > 0 {
        let front = s.drop_last();
        assert forall|i: int| 0 <= i < front.len() implies pred(#[trigger] front[i]) by {
            assert(pred(s[i]));
        }
        lemma_filter_all(front, pred);
        assert(front.push(s.last()) =~= s);
    }
}

/// The command buffer that signals the fence is the last one that a submission commits.
pub proof fn law_signal_buffer_commits_last(
    command_buffers: usize,
    has_event: bool,
    signal_value: FenceValue,
)
    ensures
        ({
            let actions = submit_actions(command_buffers as nat, has_event, signal_value);
            match actions.first() {
                SubmitAction::TakeCommandBuffer(i) => command_buffers > 0 && actions.last()
                    == SubmitAction::Commit(i),
                SubmitAction::CreateCommandBuffer => command_buffers == 0 && actions.last()
                    == SubmitAction::CommitCreated,
                _ => false,
            }
        }),
{
}

/// The completion handler and the shared event get the value of the submission and no other, and
/// the shared event is signalled exactly if the fence has one.
pub proof fn law_submission_uses_one_value(
    command_buffers: nat,
    has_event: bool,
    signal_value: FenceValue,
)
    ensures
        ({
            let actions = submit_actions(command_buffers, has_event, signal_value);
            &&& forall|value: FenceValue| #[trigger]
                actions.contains(SubmitAction::StoreOnCompletion(value)) <==> value == signal_value
            &&& forall|value: FenceValue| #[trigger]
                actions.contains(SubmitAction::EncodeSignalEvent(value)) <==> has_event && value
                    == signal_value
        }),
{
    let actions = submit_actions(command_buffers, has_event, signal_value);
    assert(actions[2] == SubmitAction::StoreOnCompletion(signal_value));
    if has_event {
        assert(actions[3] == SubmitAction::EncodeSignalEvent(signal_value));
    }
}

/// A presentation shows the drawable in exactly one of two ways: encoded in the command buffer
/// before the commit or, as a part of a transaction, itself once the committed command buffer is
/// scheduled.
pub proof fn law_drawable_is_presented_once(with_transaction: bool)
    ensures
        ({
            let actions = present_actions(with_transaction);
            let commit = if with_transaction { 2int } else { 3int };
            &&& actions[commit] == PresentAction::Commit
            &&& forall|i: int|
                0 <= i < actions.len() && (#[trigger] actions[i]) is EncodePresent
                    <==> !with_transaction && i == commit - 1
            &&& forall|i: int|
                0 <= i < actions.len() && (#[trigger] actions[i]) is WaitUntilScheduled
                    <==> with_transaction && i == commit + 1
            &&& forall|i: int|
                0 <= i < actions.len() && (#[trigger] actions[i]) is PresentDrawable
                    <==> with_transaction && i == commit + 2
        }),
{
}

} // verus!
