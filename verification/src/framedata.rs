//! The per-frame synchronization objects and the state of their slot.
//!
//! A slot is idle, being recorded, or submitted. It is recorded only from
//! idle, submitted only from recording, and idle again only once its fence
//! was waited for.

use vstd::prelude::*;
use crate::deletion_queue::DeviceOp;

verus! {

/// Fence creation flag: the fence starts signaled.
pub const FENCE_CREATE_SIGNALED: u32 = 0x1;

/// Command pool creation flag: its command buffers can be reset one by one.
pub const COMMAND_POOL_CREATE_RESET_COMMAND_BUFFER: u32 = 0x2;

/// Where a slot is in its cycle.
#[derive(Clone, Copy, Debug, PartialEq, Eq, Structural)]
pub enum SlotState {
    /// The fence is signaled; no work of the slot is on the device.
    Idle,
    /// The fence was reset and the command buffer is being recorded.
    Recording,
    /// The work was submitted; the fence signals when the device is done.
    Submitted,
}

/// Why a slot refused a step.
#[derive(Clone, Copy, Debug, PartialEq, Eq, Structural)]
pub enum SlotError {
    /// The slot is being recorded: its fence was reset and nothing was
    /// submitted that would signal it.
    StillRecording,
    /// The slot's fence has not been waited for since its last submission.
    NotIdle,
    /// Nothing is being recorded in the slot.
    NotRecording,
}

/// Whether a command buffer is submitted by itself or called from another.
#[derive(Clone, Copy, Debug, PartialEq, Eq, Structural)]
pub enum CommandBufferLevel {
    Primary,
    Secondary,
}

/// How the objects of one slot are created.
#[derive(Clone, Copy, Debug, PartialEq, Eq, Structural)]
pub struct FrameCreateInfo {
    pub fence_flags: u32,
    pub command_pool_flags: u32,
    pub queue_family_index: u32,
    pub command_buffer_count: u32,
    pub command_buffer_level: CommandBufferLevel,
}

/// One frame slot: the semaphore signaled when the swapchain image is ready,
/// the one signaled when rendering is done, the fence that tells the host so,
/// and the command pool with its one primary command buffer.
#[derive(Clone, Copy, Debug, PartialEq, Eq)]
pub struct FrameData {
    pub swapchain_sem: u64,
    pub render_sem: u64,
    pub render_fence: u64,
    pub cmd_pool: u64,
    pub cmd_buf: u64,
    pub state: SlotState,
}

/// The calls that release the objects of `frame`: the command pool, which
/// takes its command buffer with it, the fence, and the two semaphores.
pub open spec fn frame_ops(frame: FrameData) -> Seq<DeviceOp> {
    seq![
        DeviceOp::DestroyCommandPool { pool: frame.cmd_pool },
        DeviceOp::DestroyFence { fence: frame.render_fence },
        DeviceOp::DestroySemaphore { semaphore: frame.render_sem },
        DeviceOp::DestroySemaphore { semaphore: frame.swapchain_sem },
    ]
}

impl FrameData {
    /// The slot with every handle of `self` and the state `state`.
    pub open spec fn with_state(self, state: SlotState) -> FrameData {
        FrameData { state, ..self }
    }

    /// How the objects of a slot for the queue family `queue_family_idx` are
    /// created: a signaled fence, so that the first wait returns at once, and
    /// a resettable pool with one primary command buffer.
    pub fn create_info(queue_family_idx: u32) -> (info: FrameCreateInfo)
        ensures
            info == (FrameCreateInfo {
                fence_flags: FENCE_CREATE_SIGNALED,
                command_pool_flags: COMMAND_POOL_CREATE_RESET_COMMAND_BUFFER,
                queue_family_index: queue_family_idx,
                command_buffer_count: 1,
                command_buffer_level: CommandBufferLevel::Primary,
            }),
    {
        FrameCreateInfo {
            fence_flags: FENCE_CREATE_SIGNALED,
            command_pool_flags: COMMAND_POOL_CREATE_RESET_COMMAND_BUFFER,
            queue_family_index: queue_family_idx,
            command_buffer_count: 1,
            command_buffer_level: CommandBufferLevel::Primary,
        }
    }

    /// A slot over freshly created objects. It is idle: its fence was created
    /// signaled.
    pub fn new(
        swapchain_sem: u64,
        render_sem: u64,
        render_fence: u64,
        cmd_pool: u64,
        cmd_buf: u64,
    ) -> (frame: FrameData)
        ensures
            frame.swapchain_sem == swapchain_sem,
            frame.render_sem == render_sem,
            frame.render_fence == render_fence,
            frame.cmd_pool == cmd_pool,
            frame.cmd_buf == cmd_buf,
            frame.state == SlotState::Idle,
    {
        FrameData {
            swapchain_sem,
            render_sem,
            render_fence,
            cmd_pool,
            cmd_buf,
            state: SlotState::Idle,
        }
    }

    /// Notes that the slot's fence is waited for. A submitted slot is idle
    /// after the wait, an idle one stays idle. A slot that is being recorded
    /// refuses: its fence would never signal.
    pub fn retire(&mut self) -> (outcome: Result<(), SlotError>)
        ensures
            old(self).state == SlotState::Recording ==> outcome == Err::<(), SlotError>(
                SlotError::StillRecording,
            ) && *final(self) == *old(self),
            old(self).state != SlotState::Recording ==> outcome == Ok::<(), SlotError>(())
                && *final(self) == old(self).with_state(SlotState::Idle),
    {
        match self.state {
            SlotState::Recording => Err(SlotError::StillRecording),
            _ => {
                self.state = SlotState::Idle;
                Ok(())
            },
        }
    }

    /// Notes that the fence is reset and the command buffer begun. Only an
    /// idle slot accepts.
    pub fn begin_recording(&mut self) -> (outcome: Result<(), SlotError>)
        ensures
            old(self).state == SlotState::Idle ==> outcome == Ok::<(), SlotError>(())
                && *final(self) == old(self).with_state(SlotState::Recording),
            old(self).state != SlotState::Idle ==> outcome == Err::<(), SlotError>(
                SlotError::NotIdle,
            ) && *final(self) == *old(self),
    {
        match self.state {
            SlotState::Idle => {
                self.state = SlotState::Recording;
                Ok(())
            },
            _ => Err(SlotError::NotIdle),
        }
    }

    /// Notes that the recorded work is submitted with the slot's fence. Only
    /// a slot that is being recorded accepts.
    pub fn submit(&mut self) -> (outcome: Result<(), SlotError>)
        ensures
            old(self).state == SlotState::Recording ==> outcome == Ok::<(), SlotError>(())
                && *final(self) == old(self).with_state(SlotState::Submitted),
            old(self).state != SlotState::Recording ==> outcome == Err::<(), SlotError>(
                SlotError::NotRecording,
            ) && *final(self) == *old(self),
    {
        match self.state {
            SlotState::Recording => {
                self.state = SlotState::Submitted;
                Ok(())
            },
            _ => Err(SlotError::NotRecording),
        }
    }

    /// The calls that release the slot's objects, in the order they are
    /// made.
    pub fn destroy(&self) -> (ops: Vec<DeviceOp>)
        ensures
            ops@ == frame_ops(*self),
    {
        let mut ops: Vec<DeviceOp> = Vec::new();
        ops.push(DeviceOp::DestroyCommandPool { pool: self.cmd_pool });
        ops.push(DeviceOp::DestroyFence { fence: self.render_fence });
        ops.push(DeviceOp::DestroySemaphore { semaphore: self.render_sem });
        ops.push(DeviceOp::DestroySemaphore { semaphore: self.swapchain_sem });
        assert(ops@ =~= frame_ops(*self));
        ops
    }
}

} // verus!
