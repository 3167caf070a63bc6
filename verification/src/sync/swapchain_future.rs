//! The future of acquiring the next swapchain image.
use vstd::prelude::*;
use crate::sync::{poll_effect, known_completion_spec, poll_action, CheckOutcome, fence_outcome, FenceStatus, PollAction, PollEvent};
use crate::vkraw::RESULT_SUBOPTIMAL_KHR;

verus! {

/// A `vkAcquireNextImageKHR` call: which swapchain, how long to wait, and
/// what to signal.
#[derive(Clone, Copy, Debug, PartialEq, Eq, Structural)]
pub struct AcquireInfo {
    pub swapchain: u64,
    pub timeout: u64,
    pub semaphore: u64,
    pub fence: u64,
}

/// What `vkAcquireNextImageKHR` answered.
#[derive(Clone, Copy, Debug, PartialEq, Eq, Structural)]
pub enum AcquireOutcome {
    Acquired { image_index: u32, suboptimal: bool },
    /// The call failed with this `VkResult`.
    Failed(i32),
}

/// The state of an image acquisition.
pub struct SwapchainFuture {
    swapchain: u64,
    signal_semaphore: u64,
    fence: u64,
    submitted: bool,
    completed: bool,
    suboptimal: bool,
    image_index: u32,
}

impl SwapchainFuture {
    pub closed spec fn spec_swapchain(&self) -> u64 {
        self.swapchain
    }

    pub closed spec fn spec_signal_semaphore(&self) -> u64 {
        self.signal_semaphore
    }

    pub closed spec fn spec_fence(&self) -> u64 {
        self.fence
    }

    pub closed spec fn spec_submitted(&self) -> bool {
        self.submitted
    }

    pub closed spec fn spec_completed(&self) -> bool {
        self.completed
    }

    pub closed spec fn spec_suboptimal(&self) -> bool {
        self.suboptimal
    }

    pub closed spec fn spec_image_index(&self) -> u32 {
        self.image_index
    }

    /// An acquisition from `swapchain` that will signal `signal_semaphore`
    /// and `fence`, not yet made.
    pub fn new(swapchain: u64, signal_semaphore: u64, fence: u64) -> (r: Self)
        ensures
            r.spec_swapchain() == swapchain,
            r.spec_signal_semaphore() == signal_semaphore,
            r.spec_fence() == fence,
            !r.spec_submitted(),
            !r.spec_completed(),
            !r.spec_suboptimal(),
            r.spec_image_index() == u32::MAX,
    {
        SwapchainFuture {
            swapchain,
            signal_semaphore,
            fence,
            submitted: false,
            completed: false,
            suboptimal: false,
            image_index: u32::MAX,
        }
    }

    /// The acquisition signals its semaphore.
    pub fn get_signal_semaphores(&self) -> (r: Vec<u64>)
        ensures
            r@ == seq![self.spec_signal_semaphore()],
    {
        let r = vec![self.signal_semaphore];
        assert(r@ =~= seq![self.signal_semaphore]);
        r
    }

    /// The acquisition waits on nothing: `semaphores` are ignored.
    pub fn set_wait_semaphores(&mut self, semaphores: Vec<u64>)
        ensures
            *final(self) == *old(self),
    {
    }

    pub fn submitted(&self) -> (r: bool)
        ensures
            r == self.spec_submitted(),
    {
        self.submitted
    }

    /// The image index and suboptimal flag acquired so far.
    pub fn acquired(&self) -> (r: (u32, bool))
        ensures
            r == (self.spec_image_index(), self.spec_suboptimal()),
    {
        (self.image_index, self.suboptimal)
    }

    /// The call that `flush` makes (waiting without limit), or `None` when the
    /// image was acquired already.
    pub fn flush_plan(&self) -> (r: Option<AcquireInfo>)
        ensures
            self.spec_submitted() ==> r is None,
            !self.spec_submitted() ==> r == Some(
                AcquireInfo {
                    swapchain: self.spec_swapchain(),
                    timeout: u64::MAX,
                    semaphore: self.spec_signal_semaphore(),
                    fence: self.spec_fence(),
                },
            ),
    {
        if self.submitted {
            return None;
        }
        Some(
            AcquireInfo {
                swapchain: self.swapchain,
                timeout: u64::MAX,
                semaphore: self.signal_semaphore,
                fence: self.fence,
            },
        )
    }

    /// Records what the acquisition answered. An image is acquired; a
    /// suboptimal swapchain reported as an error keeps the previous image
    /// index and is suboptimal; any other error is passed on and changes
    /// nothing.
    pub fn on_acquired(&mut self, outcome: AcquireOutcome) -> (r: Result<(u32, bool), i32>)
        ensures
            !old(self).spec_submitted() ==> (
                final(self).spec_submitted(),
                final(self).spec_image_index(),
                final(self).spec_suboptimal(),
            ) == acquire_effect(
                (old(self).spec_submitted(), old(self).spec_image_index(), old(self).spec_suboptimal()),
                outcome,
            ),
            match outcome {
                AcquireOutcome::Acquired { image_index, suboptimal } => {
                    &&& r == Ok::<(u32, bool), i32>((image_index, suboptimal))
                    &&& final(self).spec_submitted()
                    &&& final(self).spec_image_index() == image_index
                    &&& final(self).spec_suboptimal() == suboptimal
                },
                AcquireOutcome::Failed(code) => if code == RESULT_SUBOPTIMAL_KHR {
                    &&& r == Ok::<(u32, bool), i32>((old(self).spec_image_index(), true))
                    &&& final(self).spec_submitted()
                    &&& final(self).spec_image_index() == old(self).spec_image_index()
                    &&& final(self).spec_suboptimal()
                } else {
                    &&& r == Err::<(u32, bool), i32>(code)
                    &&& final(self).spec_submitted() == old(self).spec_submitted()
                    &&& final(self).spec_image_index() == old(self).spec_image_index()
                    &&& final(self).spec_suboptimal() == old(self).spec_suboptimal()
                },
            },
            final(self).spec_completed() == old(self).spec_completed(),
            final(self).spec_swapchain() == old(self).spec_swapchain(),
            final(self).spec_signal_semaphore() == old(self).spec_signal_semaphore(),
            final(self).spec_fence() == old(self).spec_fence(),
    {
        let (image_index, suboptimal) = match outcome {
            AcquireOutcome::Acquired { image_index, suboptimal } => (image_index, suboptimal),
            AcquireOutcome::Failed(code) => {
                if code == RESULT_SUBOPTIMAL_KHR {
                    (self.image_index, true)
                } else {
                    return Err(code);
                }
            },
        };
        self.image_index = image_index;
        self.suboptimal = suboptimal;
        self.submitted = true;
        Ok((image_index, suboptimal))
    }

    /// The answer of `check_completion` that needs no fence query.
    pub fn known_completion(&self) -> (r: Option<bool>)
        ensures
            r == known_completion_spec(self.spec_submitted(), self.spec_completed()),
    {
        if !self.submitted || self.completed {
            Some(self.completed)
        } else {
            None
        }
    }

    /// Records the status of the fence: a signaled fence completes the
    /// acquisition.
    pub fn on_fence_status(&mut self, status: FenceStatus) -> (r: Result<bool, i32>)
        ensures
            r == fence_outcome(status),
            final(self).spec_completed() == (old(self).spec_completed() || status == FenceStatus::Signaled),
            final(self).spec_submitted() == old(self).spec_submitted(),
            final(self).spec_suboptimal() == old(self).spec_suboptimal(),
            final(self).spec_image_index() == old(self).spec_image_index(),
            final(self).spec_swapchain() == old(self).spec_swapchain(),
            final(self).spec_signal_semaphore() == old(self).spec_signal_semaphore(),
            final(self).spec_fence() == old(self).spec_fence(),
    {
        match status {
            FenceStatus::Signaled => {
                self.completed = true;
                Ok(true)
            },
            FenceStatus::NotReady => Ok(false),
            FenceStatus::Failed(code) => Err(code),
        }
    }

    /// One step of `poll`: acquire first unless acquired, then check for
    /// completion; a failed acquisition or check, or completion, makes the
    /// future ready and complete.
    pub fn poll_step(&mut self, event: PollEvent) -> (r: PollAction)
        ensures
            r == poll_action(old(self).spec_submitted(), event),
            final(self).spec_submitted() == (old(self).spec_submitted() || event == (PollEvent::Flushed { ok: true })),
            (final(self).spec_submitted(), final(self).spec_completed()) == poll_effect(
                (old(self).spec_submitted(), old(self).spec_completed()),
                event,
            ),
            final(self).spec_completed() == (old(self).spec_completed() || r is Ready),
            final(self).spec_suboptimal() == old(self).spec_suboptimal(),
            final(self).spec_image_index() == old(self).spec_image_index(),
            final(self).spec_swapchain() == old(self).spec_swapchain(),
            final(self).spec_signal_semaphore() == old(self).spec_signal_semaphore(),
            final(self).spec_fence() == old(self).spec_fence(),
    {
        match event {
            PollEvent::Start => {
                if !self.submitted {
                    PollAction::Flush
                } else {
                    PollAction::CheckCompletion
                }
            },
            PollEvent::Flushed { ok } => {
                if ok {
                    self.submitted = true;
                    PollAction::CheckCompletion
                } else {
                    self.completed = true;
                    PollAction::Ready { ok: false }
                }
            },
            PollEvent::Checked(CheckOutcome::Complete) => {
                self.completed = true;
                PollAction::Ready { ok: true }
            },
            PollEvent::Checked(CheckOutcome::NotYet) => PollAction::Pending,
            PollEvent::Checked(CheckOutcome::Failed) => {
                self.completed = true;
                PollAction::Ready { ok: false }
            },
        }
    }
}


/// The submitted flag, image index and suboptimal flag after one `flush`,
/// from `state`: a submitted future acquires nothing; otherwise the outcome
/// is recorded as `on_acquired` records it.
pub open spec fn acquire_effect(state: (bool, u32, bool), outcome: AcquireOutcome) -> (bool, u32, bool) {
    if state.0 {
        state
    } else {
        match outcome {
            AcquireOutcome::Acquired { image_index, suboptimal } => (true, image_index, suboptimal),
            AcquireOutcome::Failed(code) => if code == RESULT_SUBOPTIMAL_KHR {
                (true, state.1, true)
            } else {
                state
            },
        }
    }
}

/// The state after a series of flushes with `outcomes`, in order.
pub open spec fn acquire_run(state: (bool, u32, bool), outcomes: Seq<AcquireOutcome>) -> (bool, u32, bool)
    decreases outcomes.len(),
{
    if outcomes.len() == 0 {
        state
    } else {
        acquire_effect(acquire_run(state, outcomes.drop_last()), outcomes.last())
    }
}

/// Over any series of flushes, an image is acquired at most once: once a
/// flush has acquired one (or been told the swapchain is suboptimal), later
/// flushes change nothing and report the same image index and flag.
pub proof fn law_acquisition_settles(state: (bool, u32, bool), outcomes: Seq<AcquireOutcome>, k: int)
    requires
        0 <= k <= outcomes.len(),
        acquire_run(state, outcomes.take(k)).0,
    ensures
        acquire_run(state, outcomes) == acquire_run(state, outcomes.take(k)),
    decreases outcomes.len(),
{
    if k < outcomes.len() {
        assert(outcomes.drop_last().take(k) =~= outcomes.take(k));
        law_acquisition_settles(state, outcomes.drop_last(), k);
    } else {
        assert(outcomes.take(k) =~= outcomes);
    }
}

} // verus!
