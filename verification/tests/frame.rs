use zenith::deletion_queue::DeviceOp;
use zenith::framedata::CommandBufferLevel;
use zenith::framedata::FrameCreateInfo;
use zenith::framedata::FrameData;
use zenith::framedata::SlotError;
use zenith::framedata::SlotState;

fn slot() -> FrameData {
    FrameData::new(1, 2, 3, 4, 5)
}

#[test]
fn new_slot_is_idle_and_keeps_its_handles() {
    let frame = slot();
    assert_eq!(frame.swapchain_sem, 1);
    assert_eq!(frame.render_sem, 2);
    assert_eq!(frame.render_fence, 3);
    assert_eq!(frame.cmd_pool, 4);
    assert_eq!(frame.cmd_buf, 5);
    assert_eq!(frame.state, SlotState::Idle);
}

#[test]
fn slot_objects_are_created_signaled_and_resettable() {
    assert_eq!(
        FrameData::create_info(3),
        FrameCreateInfo {
            fence_flags: 1,
            command_pool_flags: 2,
            queue_family_index: 3,
            command_buffer_count: 1,
            command_buffer_level: CommandBufferLevel::Primary,
        }
    );
}

#[test]
fn slot_goes_round_its_cycle() {
    let mut frame = slot();
    assert_eq!(frame.begin_recording(), Ok(()));
    assert_eq!(frame.state, SlotState::Recording);
    assert_eq!(frame.submit(), Ok(()));
    assert_eq!(frame.state, SlotState::Submitted);
    assert_eq!(frame.retire(), Ok(()));
    assert_eq!(frame.state, SlotState::Idle);
    assert_eq!(frame, slot());
}

#[test]
fn submitted_slot_is_not_recorded_before_its_fence_was_waited_for() {
    let mut frame = slot();
    assert_eq!(frame.begin_recording(), Ok(()));
    assert_eq!(frame.submit(), Ok(()));
    assert_eq!(frame.begin_recording(), Err(SlotError::NotIdle));
    assert_eq!(frame.state, SlotState::Submitted);
}

#[test]
fn recording_slot_is_not_begun_again() {
    let mut frame = slot();
    assert_eq!(frame.begin_recording(), Ok(()));
    assert_eq!(frame.begin_recording(), Err(SlotError::NotIdle));
    assert_eq!(frame.state, SlotState::Recording);
}

#[test]
fn recording_slot_cannot_be_waited_for() {
    let mut frame = slot();
    assert_eq!(frame.begin_recording(), Ok(()));
    assert_eq!(frame.retire(), Err(SlotError::StillRecording));
    assert_eq!(frame.state, SlotState::Recording);
}

#[test]
fn idle_slot_stays_idle_when_waited_for() {
    let mut frame = slot();
    assert_eq!(frame.retire(), Ok(()));
    assert_eq!(frame.state, SlotState::Idle);
}

#[test]
fn only_a_recording_slot_is_submitted() {
    let mut frame = slot();
    assert_eq!(frame.submit(), Err(SlotError::NotRecording));
    assert_eq!(frame.state, SlotState::Idle);
    assert_eq!(frame.begin_recording(), Ok(()));
    assert_eq!(frame.submit(), Ok(()));
    assert_eq!(frame.submit(), Err(SlotError::NotRecording));
    assert_eq!(frame.state, SlotState::Submitted);
}

#[test]
fn slot_is_destroyed_pool_first() {
    assert_eq!(
        slot().destroy(),
        vec![
            DeviceOp::DestroyCommandPool { pool: 4 },
            DeviceOp::DestroyFence { fence: 3 },
            DeviceOp::DestroySemaphore { semaphore: 2 },
            DeviceOp::DestroySemaphore { semaphore: 1 },
        ]
    );
}
