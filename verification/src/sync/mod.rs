//! The futures that track work submitted to the GPU.
//!
//! Each future is a state machine: the library decides what to submit or
//! query next and how each outcome changes the future; the application layer
//! performs the submissions and queries on the device.
pub mod command_buffer_future;
pub mod present_future;
pub mod swapchain_future;

use vstd::prelude::*;

verus! {

/// The status of a fence, as `vkGetFenceStatus` reports it.
#[derive(Clone, Copy, Debug, PartialEq, Eq, Structural)]
pub enum FenceStatus {
    Signaled,
    /// Unsignaled, or the query answered `VK_NOT_READY`.
    NotReady,
    /// The query failed with this `VkResult`.
    Failed(i32),
}

/// What a fence status says of completion: signaled is done, not ready is
/// not yet, a failed query is passed on.
pub open spec fn fence_outcome(status: FenceStatus) -> Result<bool, i32> {
    match status {
        FenceStatus::Signaled => Ok(true),
        FenceStatus::NotReady => Ok(false),
        FenceStatus::Failed(code) => Err(code),
    }
}

/// A `VkSubmitInfo` with one command buffer.
#[derive(Clone, Debug, PartialEq, Eq)]
pub struct SubmitInfo {
    pub wait_semaphores: Vec<u64>,
    /// `VkPipelineStageFlags` to wait at, one per wait semaphore.
    pub wait_dst_stage_mask: Vec<u32>,
    pub command_buffers: Vec<u64>,
    pub signal_semaphores: Vec<u64>,
}

/// A `VkPresentInfoKHR` for one swapchain.
#[derive(Clone, Debug, PartialEq, Eq)]
pub struct PresentInfo {
    pub wait_semaphores: Vec<u64>,
    pub swapchains: Vec<u64>,
    pub image_indices: Vec<u32>,
}

/// What the application does next while polling a future.
#[derive(Clone, Copy, Debug, PartialEq, Eq, Structural)]
pub enum PollAction {
    /// Submit the work (flush), then report how it went.
    Flush,
    /// Check for completion, then report the outcome.
    CheckCompletion,
    /// The future is ready: with its result when `ok`, with the error met
    /// otherwise.
    Ready { ok: bool },
    /// Not ready yet: keep the waker and return pending.
    Pending,
}

/// What happened at the last step of a poll.
#[derive(Clone, Copy, Debug, PartialEq, Eq, Structural)]
pub enum PollEvent {
    /// The poll begins.
    Start,
    /// The flush succeeded or failed.
    Flushed { ok: bool },
    /// The completion check answered.
    Checked(CheckOutcome),
}

/// What a completion check answered: complete, not yet, or an error (which
/// the application keeps).
#[derive(Clone, Copy, Debug, PartialEq, Eq, Structural)]
pub enum CheckOutcome {
    Complete,
    NotYet,
    Failed,
}


/// What a future's `poll_step` asks next: a flush at the start of a poll
/// unless the work was submitted, a completion check after a successful
/// flush, the result once the check says complete (or anything failed), and
/// pending while the work runs.
pub open spec fn poll_action(submitted: bool, event: PollEvent) -> PollAction {
    match event {
        PollEvent::Start => if !submitted {
            PollAction::Flush
        } else {
            PollAction::CheckCompletion
        },
        PollEvent::Flushed { ok } => if ok {
            PollAction::CheckCompletion
        } else {
            PollAction::Ready { ok: false }
        },
        PollEvent::Checked(CheckOutcome::Complete) => PollAction::Ready { ok: true },
        PollEvent::Checked(CheckOutcome::NotYet) => PollAction::Pending,
        PollEvent::Checked(CheckOutcome::Failed) => PollAction::Ready { ok: false },
    }
}

/// What a completion check answers without querying the fence: the
/// completion flag, unless the work is submitted and not yet complete.
pub open spec fn known_completion_spec(submitted: bool, completed: bool) -> Option<bool> {
    if !submitted || completed {
        Some(completed)
    } else {
        None
    }
}

/// Work is submitted at most once: no step of a poll of a submitted future
/// asks for a flush.
pub proof fn law_submitted_work_is_not_flushed_again(event: PollEvent)
    ensures
        poll_action(true, event) != PollAction::Flush,
{
}

/// A future whose work was submitted and has completed is ready at once:
/// the poll asks for no flush, the completion check needs no fence query and
/// answers complete, and the poll then reports success.
pub proof fn law_completed_work_polls_ready()
    ensures
        poll_action(true, PollEvent::Start) == PollAction::CheckCompletion,
        known_completion_spec(true, true) == Some(true),
        poll_action(true, PollEvent::Checked(CheckOutcome::Complete)) == (PollAction::Ready { ok: true }),
{
}

/// The submitted and completed flags of a command buffer or swapchain future
/// after one poll step on `event`: a successful flush submits, and the future
/// completes once the step makes it ready.
pub open spec fn poll_effect(state: (bool, bool), event: PollEvent) -> (bool, bool) {
    (
        state.0 || event == (PollEvent::Flushed { ok: true }),
        state.1 || poll_action(state.0, event) is Ready,
    )
}

/// The flags after poll steps on `events`, in order, from `state`.
pub open spec fn poll_run(state: (bool, bool), events: Seq<PollEvent>) -> (bool, bool)
    decreases events.len(),
{
    if events.len() == 0 {
        state
    } else {
        poll_effect(poll_run(state, events.drop_last()), events.last())
    }
}

/// What the `k`-th of the poll steps on `events` asks for.
pub open spec fn poll_run_action(state: (bool, bool), events: Seq<PollEvent>, k: int) -> PollAction {
    poll_action(poll_run(state, events.take(k)).0, events[k])
}

/// Over any series of poll steps, a future that is submitted or completed
/// stays so.
pub proof fn law_poll_flags_persist(state: (bool, bool), events: Seq<PollEvent>, k: int)
    requires
        0 <= k <= events.len(),
    ensures
        poll_run(state, events.take(k)).0 ==> poll_run(state, events).0,
        poll_run(state, events.take(k)).1 ==> poll_run(state, events).1,
    decreases events.len(),
{
    if k < events.len() {
        assert(events.drop_last().take(k) =~= events.take(k));
        law_poll_flags_persist(state, events.drop_last(), k);
    } else {
        assert(events.take(k) =~= events);
    }
}

/// Over any series of poll steps, the work is flushed at most once: after a
/// successful flush, no later step asks for another.
pub proof fn law_poll_flushes_once(state: (bool, bool), events: Seq<PollEvent>, i: int, j: int)
    requires
        0 <= i < j < events.len(),
        events[i] == (PollEvent::Flushed { ok: true }),
    ensures
        poll_run_action(state, events, j) != PollAction::Flush,
{
    let prefix = events.take(j);
    assert(prefix.take(i + 1).drop_last() =~= prefix.take(i));
    assert(prefix.take(i + 1).last() == events[i]);
    assert(poll_run(state, prefix.take(i + 1)).0);
    law_poll_flags_persist(state, prefix, i + 1);
    law_submitted_work_is_not_flushed_again(events[j]);
}

/// Over any series of poll steps, a step that makes the future ready leaves
/// it completed for good.
pub proof fn law_poll_ready_completes(state: (bool, bool), events: Seq<PollEvent>, k: int)
    requires
        0 <= k < events.len(),
        poll_run_action(state, events, k) is Ready,
    ensures
        poll_run(state, events).1,
{
    assert(events.take(k + 1).drop_last() =~= events.take(k));
    assert(events.take(k + 1).last() == events[k]);
    assert(poll_run(state, events.take(k + 1)).1);
    law_poll_flags_persist(state, events, k + 1);
}

} // verus!
