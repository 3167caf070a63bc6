//! The future of presenting a swapchain image.
use vstd::prelude::*;
use crate::sync::{known_completion_spec, poll_action, CheckOutcome, fence_outcome, FenceStatus, PollAction, PollEvent, PresentInfo};

verus! {

/// The state of a presentation.
pub struct PresentFuture {
    swapchain: u64,
    wait_semaphores: Vec<u64>,
    submitted: bool,
    completed: bool,
    suboptimal: bool,
    image_index: u32,
}

impl PresentFuture {
    pub closed spec fn spec_swapchain(&self) -> u64 {
        self.swapchain
    }

    pub closed spec fn spec_wait_semaphores(&self) -> Seq<u64> {
        self.wait_semaphores@
    }

    pub closed spec fn spec_submitted(&self) -> bool {
        self.submitted
    }

    pub closed spec fn spec_completed(&self) -> bool {
        self.completed
    }

    pub closed spec fn spec_suboptimal(&self) -> bool {
        self.suboptimal
    }

    pub closed spec fn spec_image_index(&self) -> u32 {
        self.image_index
    }

    /// A presentation to `swapchain`, not yet made.
    pub fn new(swapchain: u64) -> (r: Self)
        ensures
            r.spec_swapchain() == swapchain,
            r.spec_wait_semaphores() == Seq::<u64>::empty(),
            !r.spec_submitted(),
            !r.spec_completed(),
            !r.spec_suboptimal(),
            r.spec_image_index() == u32::MAX,
    {
        PresentFuture {
            swapchain,
            wait_semaphores: Vec::new(),
            submitted: false,
            completed: false,
            suboptimal: false,
            image_index: u32::MAX,
        }
    }

    /// A presentation signals nothing.
    pub fn get_signal_semaphores(&self) -> (r: Vec<u64>)
        ensures
            r@ == Seq::<u64>::empty(),
    {
        Vec::new()
    }

    /// Makes the presentation wait on `semaphores` (and on nothing else).
    pub fn set_wait_semaphores(&mut self, semaphores: Vec<u64>)
        ensures
            final(self).spec_wait_semaphores() == semaphores@,
            final(self).spec_swapchain() == old(self).spec_swapchain(),
            final(self).spec_submitted() == old(self).spec_submitted(),
            final(self).spec_completed() == old(self).spec_completed(),
            final(self).spec_suboptimal() == old(self).spec_suboptimal(),
            final(self).spec_image_index() == old(self).spec_image_index(),
    {
        self.wait_semaphores = semaphores;
    }

    pub fn submitted(&self) -> (r: bool)
        ensures
            r == self.spec_submitted(),
    {
        self.submitted
    }

    pub fn suboptimal(&self) -> (r: bool)
        ensures
            r == self.spec_suboptimal(),
    {
        self.suboptimal
    }

    pub fn image_index(&self) -> (r: u32)
        ensures
            r == self.spec_image_index(),
    {
        self.image_index
    }

    /// Starts `present(image_index)`: records the image index, and gives the
    /// presentation to make, unless it was made already.
    pub fn begin_present(&mut self, image_index: u32) -> (r: Option<PresentInfo>)
        ensures
            final(self).spec_image_index() == image_index,
            old(self).spec_submitted() ==> r is None,
            !old(self).spec_submitted() ==> (r matches Some(info) && {
                &&& info.wait_semaphores@ == old(self).spec_wait_semaphores()
                &&& info.swapchains@ == seq![old(self).spec_swapchain()]
                &&& info.image_indices@ == seq![image_index]
            }),
            final(self).spec_swapchain() == old(self).spec_swapchain(),
            final(self).spec_wait_semaphores() == old(self).spec_wait_semaphores(),
            final(self).spec_submitted() == old(self).spec_submitted(),
            final(self).spec_completed() == old(self).spec_completed(),
            final(self).spec_suboptimal() == old(self).spec_suboptimal(),
    {
        self.image_index = image_index;
        if self.submitted {
            return None;
        }
        let info = PresentInfo {
            wait_semaphores: self.wait_semaphores.clone(),
            swapchains: vec![self.swapchain],
            image_indices: vec![image_index],
        };
        assert(info.swapchains@ =~= seq![self.swapchain]);
        assert(info.image_indices@ =~= seq![image_index]);
        Some(info)
    }

    /// Records a presentation made, and whether it was suboptimal.
    pub fn finish_present(&mut self, suboptimal: bool)
        ensures
            !old(self).spec_submitted() ==> (final(self).spec_submitted(), final(self).spec_suboptimal())
                == present_effect((old(self).spec_submitted(), old(self).spec_suboptimal()), Some(suboptimal)),
            final(self).spec_submitted(),
            final(self).spec_suboptimal() == suboptimal,
            final(self).spec_completed() == old(self).spec_completed(),
            final(self).spec_image_index() == old(self).spec_image_index(),
            final(self).spec_swapchain() == old(self).spec_swapchain(),
            final(self).spec_wait_semaphores() == old(self).spec_wait_semaphores(),
    {
        self.suboptimal = suboptimal;
        self.submitted = true;
    }

    /// The answer of `check_completion` that needs no fence query.
    pub fn known_completion(&self) -> (r: Option<bool>)
        ensures
            r == known_completion_spec(self.spec_submitted(), self.spec_completed()),
    {
        if !self.submitted || self.completed {
            Some(self.completed)
        } else {
            None
        }
    }

    /// Records the status of the fence: a signaled fence completes the
    /// presentation.
    pub fn on_fence_status(&mut self, status: FenceStatus) -> (r: Result<bool, i32>)
        ensures
            r == fence_outcome(status),
            final(self).spec_completed() == (old(self).spec_completed() || status == FenceStatus::Signaled),
            final(self).spec_submitted() == old(self).spec_submitted(),
            final(self).spec_suboptimal() == old(self).spec_suboptimal(),
            final(self).spec_image_index() == old(self).spec_image_index(),
            final(self).spec_swapchain() == old(self).spec_swapchain(),
            final(self).spec_wait_semaphores() == old(self).spec_wait_semaphores(),
    {
        match status {
            FenceStatus::Signaled => {
                self.completed = true;
                Ok(true)
            },
            FenceStatus::NotReady => Ok(false),
            FenceStatus::Failed(code) => Err(code),
        }
    }

    /// One step of `poll`: present first unless presented, then check for
    /// completion. A failed presentation makes the future ready and complete;
    /// a failed check makes it ready only.
    pub fn poll_step(&mut self, event: PollEvent) -> (r: PollAction)
        ensures
            r == poll_action(old(self).spec_submitted(), event),
            final(self).spec_completed() == present_poll_effect(old(self).spec_completed(), event),
            final(self).spec_submitted() == old(self).spec_submitted(),
            final(self).spec_suboptimal() == old(self).spec_suboptimal(),
            final(self).spec_image_index() == old(self).spec_image_index(),
            final(self).spec_swapchain() == old(self).spec_swapchain(),
            final(self).spec_wait_semaphores() == old(self).spec_wait_semaphores(),
    {
        match event {
            PollEvent::Start => {
                if !self.submitted {
                    PollAction::Flush
                } else {
                    PollAction::CheckCompletion
                }
            },
            PollEvent::Flushed { ok } => {
                if ok {
                    PollAction::CheckCompletion
                } else {
                    self.completed = true;
                    PollAction::Ready { ok: false }
                }
            },
            PollEvent::Checked(CheckOutcome::Complete) => PollAction::Ready { ok: true },
            PollEvent::Checked(CheckOutcome::NotYet) => PollAction::Pending,
            PollEvent::Checked(CheckOutcome::Failed) => PollAction::Ready { ok: false },
        }
    }
}


/// The submitted and suboptimal flags after one `present`, from `state`: a
/// submitted future presents nothing; otherwise `outcome` is `None` when the
/// presentation failed (nothing is recorded) and `Some(suboptimal)` when it
/// succeeded.
pub open spec fn present_effect(state: (bool, bool), outcome: Option<bool>) -> (bool, bool) {
    if state.0 {
        state
    } else {
        match outcome {
            None => state,
            Some(suboptimal) => (true, suboptimal),
        }
    }
}

/// The flags after a series of presentations with `outcomes`, in order.
pub open spec fn present_run(state: (bool, bool), outcomes: Seq<Option<bool>>) -> (bool, bool)
    decreases outcomes.len(),
{
    if outcomes.len() == 0 {
        state
    } else {
        present_effect(present_run(state, outcomes.drop_last()), outcomes.last())
    }
}

/// Over any series of calls of `present`, the image is presented at most
/// once: once a presentation has succeeded, later calls change nothing and
/// report the same suboptimal flag.
pub proof fn law_presentation_settles(state: (bool, bool), outcomes: Seq<Option<bool>>, k: int)
    requires
        0 <= k <= outcomes.len(),
        present_run(state, outcomes.take(k)).0,
    ensures
        present_run(state, outcomes) == present_run(state, outcomes.take(k)),
    decreases outcomes.len(),
{
    if k < outcomes.len() {
        assert(outcomes.drop_last().take(k) =~= outcomes.take(k));
        law_presentation_settles(state, outcomes.drop_last(), k);
    } else {
        assert(outcomes.take(k) =~= outcomes);
    }
}

/// The completed flag of a present future after one poll step on `event`:
/// only a failed presentation completes it (a failed check does not).
pub open spec fn present_poll_effect(completed: bool, event: PollEvent) -> bool {
    completed || event == (PollEvent::Flushed { ok: false })
}

} // verus!
