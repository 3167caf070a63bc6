//! The future of a submitted command buffer, optionally followed by a
//! presentation.
use vstd::prelude::*;
use crate::sync::{poll_effect, known_completion_spec, poll_action, CheckOutcome, fence_outcome, FenceStatus, PollAction, PollEvent, PresentInfo, SubmitInfo};
use crate::vkraw::PIPELINE_STAGE_TOP_OF_PIPE;

verus! {

/// The state of a command buffer's submission.
pub struct CommandBufferFuture {
    command_buffer: u64,
    wait_semaphores: Vec<u64>,
    signal_semaphores: Vec<u64>,
    suboptimal: bool,
    submitted: bool,
    completed: bool,
    image_index: u32,
    /// The swapchain to present to after the submission, if any.
    swapchain: Option<u64>,
}

impl CommandBufferFuture {
    pub closed spec fn spec_command_buffer(&self) -> u64 {
        self.command_buffer
    }

    pub closed spec fn spec_wait_semaphores(&self) -> Seq<u64> {
        self.wait_semaphores@
    }

    pub closed spec fn spec_signal_semaphores(&self) -> Seq<u64> {
        self.signal_semaphores@
    }

    pub closed spec fn spec_suboptimal(&self) -> bool {
        self.suboptimal
    }

    pub closed spec fn spec_submitted(&self) -> bool {
        self.submitted
    }

    pub closed spec fn spec_completed(&self) -> bool {
        self.completed
    }

    /// The submission is followed by a presentation.
    pub closed spec fn spec_present(&self) -> bool {
        self.swapchain is Some
    }

    pub closed spec fn spec_image_index(&self) -> u32 {
        self.image_index
    }

    pub closed spec fn spec_swapchain(&self) -> Option<u64> {
        self.swapchain
    }

    /// The submission as `flush` makes it: it waits on the wait semaphores at
    /// the top of the pipe and signals the signal semaphores.
    pub open spec fn submit_info_spec(&self, info: SubmitInfo) -> bool {
        &&& info.wait_semaphores@ == self.spec_wait_semaphores()
        &&& info.wait_dst_stage_mask@ == Seq::new(
            self.spec_wait_semaphores().len(),
            |i: int| PIPELINE_STAGE_TOP_OF_PIPE,
        )
        &&& info.command_buffers@ == seq![self.spec_command_buffer()]
        &&& info.signal_semaphores@ == self.spec_signal_semaphores()
    }

    /// The presentation that follows the submission: it waits on the signal
    /// semaphores.
    pub open spec fn present_info_spec(&self, info: PresentInfo) -> bool {
        &&& info.wait_semaphores@ == self.spec_signal_semaphores()
        &&& self.spec_swapchain() matches Some(sc) && info.swapchains@ == seq![sc]
        &&& info.image_indices@ == seq![self.spec_image_index()]
    }

    /// A future for `command_buffer`, that will signal `signal_semaphore`.
    pub fn new(command_buffer: u64, signal_semaphore: u64) -> (r: Self)
        ensures
            r.spec_command_buffer() == command_buffer,
            r.spec_wait_semaphores() == Seq::<u64>::empty(),
            r.spec_signal_semaphores() == seq![signal_semaphore],
            !r.spec_suboptimal(),
            !r.spec_submitted(),
            !r.spec_completed(),
            !r.spec_present(),
            r.spec_image_index() == u32::MAX,
            r.spec_swapchain() is None,
    {
        let signal_semaphores = vec![signal_semaphore];
        assert(signal_semaphores@ =~= seq![signal_semaphore]);
        CommandBufferFuture {
            command_buffer,
            wait_semaphores: Vec::new(),
            signal_semaphores,
            suboptimal: false,
            submitted: false,
            completed: false,
            image_index: u32::MAX,
            swapchain: None,
        }
    }

    /// Presents image `image_index` of `swapchain` once the command buffer has
    /// been submitted.
    pub fn then_present(self, swapchain: u64, image_index: u32) -> (r: Self)
        ensures
            r.spec_present(),
            r.spec_swapchain() == Some(swapchain),
            r.spec_image_index() == image_index,
            r.spec_command_buffer() == self.spec_command_buffer(),
            r.spec_wait_semaphores() == self.spec_wait_semaphores(),
            r.spec_signal_semaphores() == self.spec_signal_semaphores(),
            r.spec_suboptimal() == self.spec_suboptimal(),
            r.spec_submitted() == self.spec_submitted(),
            r.spec_completed() == self.spec_completed(),
    {
        CommandBufferFuture { swapchain: Some(swapchain), image_index, ..self }
    }

    pub fn get_signal_semaphores(&self) -> (r: Vec<u64>)
        ensures
            r@ == self.spec_signal_semaphores(),
    {
        self.signal_semaphores.clone()
    }

    /// Adds `semaphores` to those the submission waits on.
    pub fn set_wait_semaphores(&mut self, semaphores: Vec<u64>)
        ensures
            final(self).spec_wait_semaphores() == old(self).spec_wait_semaphores() + semaphores@,
            final(self).spec_signal_semaphores() == old(self).spec_signal_semaphores(),
            final(self).spec_command_buffer() == old(self).spec_command_buffer(),
            final(self).spec_suboptimal() == old(self).spec_suboptimal(),
            final(self).spec_submitted() == old(self).spec_submitted(),
            final(self).spec_completed() == old(self).spec_completed(),
            final(self).spec_present() == old(self).spec_present(),
            final(self).spec_image_index() == old(self).spec_image_index(),
            final(self).spec_swapchain() == old(self).spec_swapchain(),
    {
        let mut waits = self.wait_semaphores.clone();
        let ghost before = waits@;
        let mut i: usize = 0;
        while i < semaphores.len()
            invariant
                i <= semaphores@.len(),
                waits@ == before + semaphores@.take(i as int),
            decreases semaphores@.len() - i,
        {
            waits.push(semaphores[i]);
            proof {
                assert(waits@ =~= before + semaphores@.take(i + 1));
            }
            i = i + 1;
        }
        proof {
            assert(semaphores@.take(semaphores@.len() as int) =~= semaphores@);
        }
        self.wait_semaphores = waits;
    }

    pub fn submitted(&self) -> (r: bool)
        ensures
            r == self.spec_submitted(),
    {
        self.submitted
    }

    pub fn completed(&self) -> (r: bool)
        ensures
            r == self.spec_completed(),
    {
        self.completed
    }

    pub fn suboptimal(&self) -> (r: bool)
        ensures
            r == self.spec_suboptimal(),
    {
        self.suboptimal
    }

    pub fn command_buffer(&self) -> (r: u64)
        ensures
            r == self.spec_command_buffer(),
    {
        self.command_buffer
    }

    pub fn swapchain(&self) -> (r: Option<u64>)
        ensures
            r == self.spec_swapchain(),
    {
        self.swapchain
    }

    /// The presentation of the image, after the signal semaphores (the
    /// future must present to a swapchain).
    pub fn present_info(&self) -> (r: PresentInfo)
        requires
            self.spec_swapchain() is Some,
        ensures
            self.present_info_spec(r),
    {
        let swapchain = match self.swapchain {
            Some(sc) => sc,
            None => 0,
        };
        let r = PresentInfo {
            wait_semaphores: self.signal_semaphores.clone(),
            swapchains: vec![swapchain],
            image_indices: vec![self.image_index],
        };
        assert(r.swapchains@ =~= seq![swapchain]);
        assert(r.image_indices@ =~= seq![self.image_index]);
        r
    }

    /// The submission that `flush` makes, or `None` when the command buffer
    /// was submitted already.
    pub fn flush_plan(&self) -> (r: Option<SubmitInfo>)
        ensures
            self.spec_submitted() ==> r is None,
            !self.spec_submitted() ==> (r matches Some(info) && self.submit_info_spec(info)),
    {
        if self.submitted {
            return None;
        }
        let n = self.wait_semaphores.len();
        let mut stages: Vec<u32> = Vec::new();
        let mut i: usize = 0;
        while i < n
            invariant
                n == self.wait_semaphores@.len(),
                i <= n,
                stages@ == Seq::new(i as nat, |k: int| PIPELINE_STAGE_TOP_OF_PIPE),
            decreases n - i,
        {
            stages.push(PIPELINE_STAGE_TOP_OF_PIPE);
            proof {
                assert(stages@ =~= Seq::new((i + 1) as nat, |k: int| PIPELINE_STAGE_TOP_OF_PIPE));
            }
            i = i + 1;
        }
        let info = SubmitInfo {
            wait_semaphores: self.wait_semaphores.clone(),
            wait_dst_stage_mask: stages,
            command_buffers: vec![self.command_buffer],
            signal_semaphores: self.signal_semaphores.clone(),
        };
        assert(info.command_buffers@ =~= seq![self.command_buffer]);
        Some(info)
    }

    /// The presentation that follows a successful submission, when the future
    /// presents.
    pub fn present_after_submit(&self) -> (r: Option<PresentInfo>)
        ensures
            !self.spec_present() ==> r is None,
            self.spec_present() ==> (r matches Some(info) && self.present_info_spec(info)),
    {
        if self.swapchain.is_some() {
            Some(self.present_info())
        } else {
            None
        }
    }

    /// Records a successful flush: `presented` is what the presentation
    /// reported (suboptimal or not), when there was one.
    pub fn finish_flush(&mut self, presented: Option<bool>)
        ensures
            !old(self).spec_submitted() ==> (final(self).spec_submitted(), final(self).spec_suboptimal())
                == flush_effect((old(self).spec_submitted(), old(self).spec_suboptimal()), Some(presented)),
            final(self).spec_submitted(),
            final(self).spec_suboptimal() == match presented {
                Some(s) => s,
                None => false,
            },
            final(self).spec_completed() == old(self).spec_completed(),
            final(self).spec_wait_semaphores() == old(self).spec_wait_semaphores(),
            final(self).spec_signal_semaphores() == old(self).spec_signal_semaphores(),
            final(self).spec_present() == old(self).spec_present(),
            final(self).spec_image_index() == old(self).spec_image_index(),
            final(self).spec_swapchain() == old(self).spec_swapchain(),
            final(self).spec_command_buffer() == old(self).spec_command_buffer(),
    {
        self.suboptimal = match presented {
            Some(s) => s,
            None => false,
        };
        self.submitted = true;
    }

    /// The answer of `check_completion` that needs no fence query: the
    /// completion flag, unless the work is submitted and not yet complete.
    pub fn known_completion(&self) -> (r: Option<bool>)
        ensures
            r == known_completion_spec(self.spec_submitted(), self.spec_completed()),
    {
        if !self.submitted || self.completed {
            Some(self.completed)
        } else {
            None
        }
    }

    /// Records the status of the fence: a signaled fence completes the work.
    pub fn on_fence_status(&mut self, status: FenceStatus) -> (r: Result<bool, i32>)
        ensures
            r == fence_outcome(status),
            final(self).spec_completed() == (old(self).spec_completed() || status == FenceStatus::Signaled),
            final(self).spec_submitted() == old(self).spec_submitted(),
            final(self).spec_suboptimal() == old(self).spec_suboptimal(),
            final(self).spec_wait_semaphores() == old(self).spec_wait_semaphores(),
            final(self).spec_signal_semaphores() == old(self).spec_signal_semaphores(),
            final(self).spec_present() == old(self).spec_present(),
            final(self).spec_image_index() == old(self).spec_image_index(),
            final(self).spec_swapchain() == old(self).spec_swapchain(),
            final(self).spec_command_buffer() == old(self).spec_command_buffer(),
    {
        match status {
            FenceStatus::Signaled => {
                self.completed = true;
                Ok(true)
            },
            FenceStatus::NotReady => Ok(false),
            FenceStatus::Failed(code) => Err(code),
        }
    }

    /// One step of `poll`: flush first unless submitted, then check for
    /// completion; a failed flush or check, or completion, makes the future
    /// ready and complete.
    pub fn poll_step(&mut self, event: PollEvent) -> (r: PollAction)
        ensures
            r == poll_action(old(self).spec_submitted(), event),
            final(self).spec_submitted() == (old(self).spec_submitted() || event == (PollEvent::Flushed { ok: true })),
            (final(self).spec_submitted(), final(self).spec_completed()) == poll_effect(
                (old(self).spec_submitted(), old(self).spec_completed()),
                event,
            ),
            final(self).spec_completed() == (old(self).spec_completed() || r is Ready),
            final(self).spec_suboptimal() == old(self).spec_suboptimal(),
            final(self).spec_wait_semaphores() == old(self).spec_wait_semaphores(),
            final(self).spec_signal_semaphores() == old(self).spec_signal_semaphores(),
            final(self).spec_present() == old(self).spec_present(),
            final(self).spec_image_index() == old(self).spec_image_index(),
            final(self).spec_swapchain() == old(self).spec_swapchain(),
            final(self).spec_command_buffer() == old(self).spec_command_buffer(),
    {
        match event {
            PollEvent::Start => {
                if !self.submitted {
                    PollAction::Flush
                } else {
                    PollAction::CheckCompletion
                }
            },
            PollEvent::Flushed { ok } => {
                if ok {
                    self.submitted = true;
                    PollAction::CheckCompletion
                } else {
                    self.completed = true;
                    PollAction::Ready { ok: false }
                }
            },
            PollEvent::Checked(CheckOutcome::Complete) => {
                self.completed = true;
                PollAction::Ready { ok: true }
            },
            PollEvent::Checked(CheckOutcome::NotYet) => PollAction::Pending,
            PollEvent::Checked(CheckOutcome::Failed) => {
                self.completed = true;
                PollAction::Ready { ok: false }
            },
        }
    }
}


/// The submitted and suboptimal flags after one `flush`, from `state`: a
/// submitted future flushes nothing; otherwise `outcome` is `None` when the
/// submission or the presentation failed (nothing is recorded), and
/// `Some(presented)` when it succeeded, `presented` being what the
/// presentation reported, if the future presents.
pub open spec fn flush_effect(state: (bool, bool), outcome: Option<Option<bool>>) -> (bool, bool) {
    if state.0 {
        state
    } else {
        match outcome {
            None => state,
            Some(presented) => (
                true,
                match presented {
                    Some(s) => s,
                    None => false,
                },
            ),
        }
    }
}

/// The flags after a series of flushes with `outcomes`, in order.
pub open spec fn flush_run(state: (bool, bool), outcomes: Seq<Option<Option<bool>>>) -> (bool, bool)
    decreases outcomes.len(),
{
    if outcomes.len() == 0 {
        state
    } else {
        flush_effect(flush_run(state, outcomes.drop_last()), outcomes.last())
    }
}

/// Over any series of flushes, the command buffer is submitted at most once:
/// once a flush has succeeded, later flushes change nothing, and the
/// suboptimal flag stays what that flush's presentation reported.
pub proof fn law_flush_settles(state: (bool, bool), outcomes: Seq<Option<Option<bool>>>, k: int)
    requires
        0 <= k <= outcomes.len(),
        flush_run(state, outcomes.take(k)).0,
    ensures
        flush_run(state, outcomes) == flush_run(state, outcomes.take(k)),
    decreases outcomes.len(),
{
    if k < outcomes.len() {
        assert(outcomes.drop_last().take(k) =~= outcomes.take(k));
        law_flush_settles(state, outcomes.drop_last(), k);
    } else {
        assert(outcomes.take(k) =~= outcomes);
    }
}

} // verus!
