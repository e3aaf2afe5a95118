//! Frame-loop and teardown tests: slot cycling, fence arming, abandoned
//! ticks, and reverse-order destruction.

use zinnia::frame::{AcquireOutcome, FrameLoop, SubmitPlan, MAX_FRAMES_IN_FLIGHT};
use zinnia::teardown::{teardown_order, ResourceKind, TeardownSequencer, RESOURCE_STAGES};

#[test]
fn default_loop_has_fixed_slot_count() {
    let frame_loop = FrameLoop::default();
    assert_eq!(frame_loop.slot_count(), MAX_FRAMES_IN_FLIGHT);
    assert_eq!(frame_loop.current_slot(), 0);
}

#[test]
fn successful_tick_uses_image_index_and_current_slot() {
    let mut frame_loop = FrameLoop::new(2);
    let plan = frame_loop
        .tick(AcquireOutcome::Acquired(2), 3)
        .expect("a successful acquire must produce a submission");
    assert_eq!(
        plan,
        SubmitPlan {
            command_buffer_index: 2,
            wait_semaphore_slot: 0,
            signal_semaphore_slot: 0,
            fence_slot: 0,
        }
    );
    assert_eq!(frame_loop.current_slot(), 1);
}

#[test]
fn command_buffer_follows_image_index_not_slot() {
    // Three chain images, two slots: the indices drift apart, and the
    // submission must keep following the acquired image index.
    let mut frame_loop = FrameLoop::new(2);
    let images = [0u32, 1, 2, 0, 1, 2];
    for (tick, &image) in images.iter().enumerate() {
        let slot_before = frame_loop.current_slot();
        assert_eq!(slot_before, tick % 2);
        let plan = frame_loop
            .tick(AcquireOutcome::Acquired(image), 3)
            .expect("a successful acquire must produce a submission");
        assert_eq!(plan.command_buffer_index, image as usize);
        assert_eq!(plan.wait_semaphore_slot, slot_before);
        assert_eq!(plan.signal_semaphore_slot, slot_before);
        assert_eq!(plan.fence_slot, slot_before);
    }
}

#[test]
fn n_ticks_leave_index_at_n_mod_slot_count() {
    let slot_count: usize = 3;
    let ticks: usize = 7;
    let mut frame_loop = FrameLoop::new(slot_count);
    let mut fence_arms = vec![0u32; slot_count];
    for tick in 0..ticks {
        let plan = frame_loop
            .tick(AcquireOutcome::Acquired((tick % 2) as u32), 2)
            .expect("a successful acquire must produce a submission");
        fence_arms[plan.fence_slot] += 1;
    }
    assert_eq!(frame_loop.current_slot(), ticks % slot_count);
    // Seven ticks over three slots: two full cycles, then one extra tick that
    // has passed slot 0 only. Each slot's fence was armed once per cycle.
    assert_eq!(fence_arms, vec![3, 2, 2]);
}

#[test]
fn failed_acquire_abandons_tick_without_advancing() {
    let mut frame_loop = FrameLoop::new(2);
    frame_loop
        .tick(AcquireOutcome::Acquired(0), 1)
        .expect("a successful acquire must produce a submission");
    assert_eq!(frame_loop.current_slot(), 1);

    assert_eq!(frame_loop.tick(AcquireOutcome::Failed, 1), None);
    assert_eq!(frame_loop.current_slot(), 1);

    // The loop keeps running after the abandoned tick.
    let plan = frame_loop
        .tick(AcquireOutcome::Acquired(0), 1)
        .expect("a successful acquire must produce a submission");
    assert_eq!(plan.fence_slot, 1);
    assert_eq!(frame_loop.current_slot(), 0);
}

#[test]
fn teardown_order_reverses_creation_order() {
    let order = teardown_order();
    assert_eq!(order.len(), RESOURCE_STAGES);
    assert_eq!(
        order,
        vec![
            ResourceKind::SyncObjects,
            ResourceKind::CommandPool,
            ResourceKind::Framebuffers,
            ResourceKind::Pipeline,
            ResourceKind::RenderPass,
            ResourceKind::ImageViews,
            ResourceKind::PresentationChain,
            ResourceKind::ExecutionContext,
            ResourceKind::Surface,
            ResourceKind::Instance,
        ]
    );
    for (position, kind) in order.iter().enumerate() {
        assert_eq!(kind.rank(), RESOURCE_STAGES - 1 - position);
    }
}

#[test]
fn reverse_destruction_empties_the_ledger() {
    let mut ledger = TeardownSequencer::new(RESOURCE_STAGES);
    assert_eq!(ledger.count(), RESOURCE_STAGES);
    for rank in 0..RESOURCE_STAGES {
        assert!(ledger.is_alive(rank));
    }
    ledger.teardown_all();
    for rank in 0..RESOURCE_STAGES {
        assert!(!ledger.is_alive(rank));
    }
}

#[test]
fn staged_destruction_follows_teardown_order() {
    let mut ledger = TeardownSequencer::new(RESOURCE_STAGES);
    for kind in teardown_order() {
        assert!(ledger.is_alive(kind.rank()));
        ledger.destroy(kind.rank());
        assert!(!ledger.is_alive(kind.rank()));
        // Everything created before this resource is still alive.
        for earlier in 0..kind.rank() {
            assert!(ledger.is_alive(earlier));
        }
    }
}

#[test]
fn empty_ledger_teardown_is_a_no_op() {
    let mut ledger = TeardownSequencer::new(0);
    ledger.teardown_all();
    assert_eq!(ledger.count(), 0);
}
