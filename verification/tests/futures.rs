use crystal_vk::sync::command_buffer_future::CommandBufferFuture;
use crystal_vk::sync::present_future::PresentFuture;
use crystal_vk::sync::swapchain_future::{AcquireInfo, AcquireOutcome, SwapchainFuture};
use crystal_vk::sync::{CheckOutcome, FenceStatus, PollAction, PollEvent};
use crystal_vk::vkraw;

#[test]
fn command_buffer_future_submits_once() {
    let mut f = CommandBufferFuture::new(7, 70);
    f.set_wait_semaphores(vec![1, 2]);
    f.set_wait_semaphores(vec![3]);
    let info = f.flush_plan().unwrap();
    assert_eq!(info.wait_semaphores, vec![1, 2, 3]);
    assert_eq!(info.wait_dst_stage_mask, vec![vkraw::PIPELINE_STAGE_TOP_OF_PIPE; 3]);
    assert_eq!(info.command_buffers, vec![7]);
    assert_eq!(info.signal_semaphores, vec![70]);
    assert!(f.present_after_submit().is_none());
    f.finish_flush(None);
    assert!(f.submitted());
    assert!(!f.suboptimal());
    assert!(f.flush_plan().is_none());
}

#[test]
fn command_buffer_future_presents_after_signal() {
    let mut f = CommandBufferFuture::new(7, 70).then_present(900, 2);
    let p = f.present_after_submit().unwrap();
    assert_eq!(p.wait_semaphores, vec![70]);
    assert_eq!(p.swapchains, vec![900]);
    assert_eq!(p.image_indices, vec![2]);
    f.finish_flush(Some(true));
    assert!(f.suboptimal());
}

#[test]
fn command_buffer_future_poll_cycle() {
    let mut f = CommandBufferFuture::new(7, 70);
    assert_eq!(f.poll_step(PollEvent::Start), PollAction::Flush);
    f.finish_flush(None);
    assert_eq!(f.poll_step(PollEvent::Flushed { ok: true }), PollAction::CheckCompletion);
    assert_eq!(f.known_completion(), None);
    assert_eq!(f.on_fence_status(FenceStatus::NotReady), Ok(false));
    assert_eq!(f.poll_step(PollEvent::Checked(CheckOutcome::NotYet)), PollAction::Pending);
    assert_eq!(f.on_fence_status(FenceStatus::Failed(-4)), Err(-4));
    assert_eq!(f.on_fence_status(FenceStatus::Signaled), Ok(true));
    assert!(f.completed());
    assert_eq!(f.poll_step(PollEvent::Checked(CheckOutcome::Complete)), PollAction::Ready { ok: true });
    // law: a completed future is ready at once
    assert_eq!(f.poll_step(PollEvent::Start), PollAction::CheckCompletion);
    assert_eq!(f.known_completion(), Some(true));
}

#[test]
fn command_buffer_future_failed_flush_completes() {
    let mut f = CommandBufferFuture::new(7, 70);
    assert_eq!(f.poll_step(PollEvent::Flushed { ok: false }), PollAction::Ready { ok: false });
    assert!(f.completed());
    assert!(!f.submitted());
    assert_eq!(f.known_completion(), Some(true));
}

#[test]
fn present_future_replaces_waits_and_presents_once() {
    let mut f = PresentFuture::new(900);
    assert!(f.get_signal_semaphores().is_empty());
    f.set_wait_semaphores(vec![1]);
    f.set_wait_semaphores(vec![2, 3]);
    let p = f.begin_present(4).unwrap();
    assert_eq!(p.wait_semaphores, vec![2, 3]);
    assert_eq!(p.image_indices, vec![4]);
    f.finish_present(true);
    assert!(f.begin_present(5).is_none());
    assert_eq!(f.image_index(), 5);
    assert!(f.suboptimal());
}

#[test]
fn present_future_failed_check_is_ready_but_not_complete() {
    let mut f = PresentFuture::new(900);
    assert_eq!(f.poll_step(PollEvent::Checked(CheckOutcome::Failed)), PollAction::Ready { ok: false });
    assert_eq!(f.known_completion(), Some(false));
    assert_eq!(f.poll_step(PollEvent::Flushed { ok: false }), PollAction::Ready { ok: false });
    assert_eq!(f.known_completion(), Some(true));
}

#[test]
fn swapchain_future_acquires_once() {
    let mut f = SwapchainFuture::new(900, 71, 72);
    assert_eq!(f.get_signal_semaphores(), vec![71]);
    assert_eq!(
        f.flush_plan(),
        Some(AcquireInfo { swapchain: 900, timeout: u64::MAX, semaphore: 71, fence: 72 })
    );
    assert_eq!(f.on_acquired(AcquireOutcome::Acquired { image_index: 1, suboptimal: false }), Ok((1, false)));
    assert_eq!(f.flush_plan(), None);
    assert_eq!(f.acquired(), (1, false));
}

#[test]
fn swapchain_future_suboptimal_error_keeps_index() {
    let mut f = SwapchainFuture::new(900, 71, 72);
    assert_eq!(f.on_acquired(AcquireOutcome::Failed(vkraw::RESULT_SUBOPTIMAL_KHR)), Ok((u32::MAX, true)));
    assert!(f.submitted());
    let mut g = SwapchainFuture::new(900, 71, 72);
    assert_eq!(g.on_acquired(AcquireOutcome::Failed(-1000001004)), Err(-1000001004));
    assert!(!g.submitted());
}

#[test]
fn swapchain_future_ignores_wait_semaphores() {
    let mut f = SwapchainFuture::new(900, 71, 72);
    f.set_wait_semaphores(vec![1, 2]);
    assert_eq!(f.flush_plan().unwrap().semaphore, 71);
}

#[test]
fn polls_after_a_successful_flush_never_flush_again() {
    let mut f = SwapchainFuture::new(900, 71, 72);
    let events = [
        PollEvent::Start,
        PollEvent::Flushed { ok: true },
        PollEvent::Checked(CheckOutcome::NotYet),
        PollEvent::Start,
        PollEvent::Checked(CheckOutcome::NotYet),
        PollEvent::Start,
    ];
    let actions: Vec<PollAction> = events.iter().map(|e| f.poll_step(*e)).collect();
    assert_eq!(actions[0], PollAction::Flush);
    assert!(actions[1..].iter().all(|a| *a != PollAction::Flush));
    assert!(f.submitted());
}

#[test]
fn acquisition_settles_after_first_success() {
    let mut f = SwapchainFuture::new(900, 71, 72);
    assert_eq!(f.on_acquired(AcquireOutcome::Failed(-4)), Err(-4));
    assert!(f.flush_plan().is_some());
    assert_eq!(f.on_acquired(AcquireOutcome::Acquired { image_index: 2, suboptimal: true }), Ok((2, true)));
    assert_eq!(f.flush_plan(), None);
    assert_eq!(f.acquired(), (2, true));
}

#[test]
fn present_future_presents_once_after_a_failure() {
    let mut f = PresentFuture::new(900);
    assert!(f.begin_present(1).is_some());
    // the presentation failed: nothing is recorded and it is tried again
    assert!(f.begin_present(1).is_some());
    f.finish_present(false);
    assert!(f.begin_present(1).is_none());
    assert!(f.submitted());
    assert!(!f.suboptimal());
}
