//! The frame engine: which slot a frame uses, what is recorded for it, and
//! what is submitted and presented.
//!
//! One frame is drawn in two steps, with the device's work in between. The
//! first step, `begin_frame`, says what has to happen before anything is
//! recorded: the wait for the slot's fence comes first. The swapchain image
//! that was acquired then goes into the second step, `draw`, which records
//! the frame and says how it is submitted and presented.

use vstd::prelude::*;
use crate::commands::AttachmentLoadOp;
use crate::commands::AttachmentStoreOp;
use crate::commands::Command;
use crate::commands::CommandBuffer;
use crate::commands::ComputePushConstants;
use crate::commands::RenderingAttachmentInfo;
use crate::deletion_queue::all_ops;
use crate::deletion_queue::append_ops;
use crate::deletion_queue::flush_order;
use crate::deletion_queue::steps_of;
use crate::deletion_queue::DeletionQueue;
use crate::deletion_queue::DestroyAction;
use crate::deletion_queue::DeviceOp;
use crate::extent::group_count;
use crate::extent::group_count_spec;
use crate::extent::Extent2D;
use crate::frame_laws::lemma_outstanding_bounded;
use crate::frame_laws::lemma_outstanding_of_two;
use crate::framedata::frame_ops;
use crate::framedata::FrameData;
use crate::framedata::SlotState;
use crate::image::Image;
use crate::layout::transition_barrier;
use crate::layout::ImageLayout;
use crate::layout::STAGE_ALL_GRAPHICS;
use crate::layout::STAGE_COLOR_ATTACHMENT_OUTPUT;
use crate::swapchain::swapchain_ops;
use crate::swapchain::AcquireInfo;
use crate::swapchain::PresentInfo;
use crate::swapchain::Swapchain;
use crate::swapchain::SwapchainView;
use crate::swapchain::NO_TIMEOUT;
use crate::swapchain::NULL_HANDLE;
use crate::transitionable::Transitionable;
use crate::util::blit_of;
use crate::util::command_buffer_submit_info;
use crate::util::copy_image_to_image;
use crate::util::rendering_attachment_info;
use crate::util::semaphore_submit_info;
use crate::util::submit_info;
use crate::util::CommandBufferSubmitInfo;
use crate::util::SemaphoreSubmitInfo;
use crate::util::SubmitInfo;

verus! {

/// Number of frame slots, and so the most frames that the host can be ahead
/// of the device.
pub const FRAMES_IN_FLIGHT: usize = 2;

/// A compute pass that fills the render target.
#[derive(Clone, Copy, Debug, PartialEq, Eq)]
pub struct ComputeEffect {
    pub name: &'static str,
    pub pipeline: u64,
    pub layout: u64,
    pub data: ComputePushConstants,
}

/// One thing to do, in order, before a frame is recorded.
#[derive(Clone, Copy, Debug, PartialEq, Eq, Structural)]
pub enum SyncStep {
    /// Block until the fence signals.
    WaitForFence { fence: u64, timeout: u64 },
    /// Put the fence back to unsignaled.
    ResetFence { fence: u64 },
    /// Ask the swapchain for its next image.
    AcquireNextImage { request: AcquireInfo },
    /// Empty the command buffer.
    ResetCommandBuffer { cmd_buf: u64 },
    /// Begin recording into the command buffer.
    BeginCommandBuffer { cmd_buf: u64, one_time_submit: bool },
}

/// Why a renderer could not be put together.
#[derive(Clone, Copy, Debug, PartialEq, Eq, Structural)]
pub enum RendererError {
    /// There is no compute effect to draw the background with.
    NoEffects,
    /// The render target is one of the swapchain's images.
    DrawImageInSwapchain,
    /// A frame slot is not idle.
    SlotNotIdle,
}

/// Why a step of a frame was refused.
#[derive(Clone, Copy, Debug, PartialEq, Eq, Structural)]
pub enum DrawError {
    /// The current slot is already being recorded.
    FrameInProgress,
    /// No frame was begun.
    NotRecording,
    /// The swapchain has no image with the index that was acquired.
    ImageIndexOutOfRange,
    /// The frame counter cannot count further.
    FrameCounterExhausted,
}

/// One thing to do, in order, once a frame is recorded.
#[derive(Clone, Copy, Debug, PartialEq, Eq, Structural)]
pub enum FinishStep {
    /// End the recording of the command buffer.
    EndCommandBuffer { cmd_buf: u64 },
    /// Submit the frame's submission to the queue. The fence signals when
    /// the device is done with it.
    QueueSubmit { queue: u64, fence: u64 },
    /// Present the image.
    QueuePresent { request: PresentInfo },
}

/// One recorded frame and how it goes to the device: `commands` are
/// recorded into `cmd_buf`, and then the steps of `finish` are taken in
/// their order, the submission with `submit`.
#[derive(Debug, PartialEq, Eq)]
pub struct FramePlan {
    pub cmd_buf: u64,
    pub commands: Vec<Command>,
    pub submit: SubmitInfo,
    pub finish: Vec<FinishStep>,
}

/// What a renderer is put together from, all of it created beforehand.
pub struct RendererParts {
    pub surface: u64,
    pub gfx_queue: u64,
    pub swapchain: Swapchain,
    pub frames: [FrameData; 2],
    /// The render target. Its destruction is registered in `deletion_queue`.
    pub draw_image: Image,
    /// The descriptor set that binds the render target as a storage image.
    pub draw_image_descriptors: u64,
    pub draw_image_descriptor_layout: u64,
    /// The pool that the descriptor set was allocated from.
    pub descriptor_pool: u64,
    /// The pipeline layout that every effect's pipeline was built on.
    pub compute_layout: u64,
    pub background_effects: Vec<ComputeEffect>,
    pub deletion_queue: DeletionQueue,
    /// Whether an overlay is drawn onto each frame.
    pub overlay: bool,
    /// The number of the first frame: 0, unless frames were counted before.
    pub frame_number: usize,
}

/// The frame engine.
pub struct Renderer {
    surface: u64,
    gfx_queue: u64,
    swapchain: Swapchain,
    draw_image: Image,
    draw_image_descriptors: u64,
    frames: [FrameData; 2],
    frame_number: usize,
    background_effects: Vec<ComputeEffect>,
    current_background_effect: usize,
    deletion_queue: DeletionQueue,
    overlay: bool,
}

/// What a renderer holds.
pub ghost struct RendererView {
    pub surface: u64,
    pub gfx_queue: u64,
    pub swapchain: SwapchainView,
    pub draw_image: Image,
    pub draw_image_descriptors: u64,
    pub frames: Seq<FrameData>,
    pub frame_number: nat,
    pub background_effects: Seq<ComputeEffect>,
    pub current_background_effect: nat,
    pub deletions: Seq<DestroyAction>,
    pub overlay: bool,
}

impl RendererView {
    /// The slot that the next frame uses, or the frame that is being
    /// recorded.
    pub open spec fn slot(self) -> int {
        slot_of(self.frame_number)
    }

    /// The frame data of that slot.
    pub open spec fn current_frame(self) -> FrameData {
        self.frames[self.slot()]
    }

    /// The effect that the background is drawn with.
    pub open spec fn effect(self) -> ComputeEffect {
        self.background_effects[self.current_background_effect as int]
    }

    /// What holds of every renderer: there is one frame per slot, and an
    /// effect is selected; the render target is no swapchain image; and no
    /// slot but the current one is being recorded.
    pub open spec fn well_formed(self) -> bool {
        &&& self.frames.len() == FRAMES_IN_FLIGHT
        &&& self.current_background_effect < self.background_effects.len()
        &&& !self.swapchain.images.contains(self.draw_image.image_spec())
        &&& forall|i: int|
            0 <= i < self.frames.len() && i != self.slot() ==> (#[trigger] self.frames[i]).state
                != SlotState::Recording
    }
}

/// The slot that the frame with the number `frame_number` uses: the
/// number's remainder by the number of slots.
pub open spec fn slot_of(frame_number: nat) -> int {
    frame_number as int % (FRAMES_IN_FLIGHT as int)
}

/// Number of slots among `frames` whose work is submitted and not yet known
/// to be finished.
pub open spec fn outstanding(frames: Seq<FrameData>) -> nat
    decreases frames.len(),
{
    if frames.len() == 0 {
        0
    } else {
        outstanding(frames.drop_last()) + if frames.last().state == SlotState::Submitted {
            1nat
        } else {
            0nat
        }
    }
}

/// The pipelines of `effects`, in their order.
pub open spec fn pipelines_of(effects: Seq<ComputeEffect>) -> Seq<u64> {
    Seq::new(effects.len(), |i: int| effects[i].pipeline)
}

/// Whether `action` frees the pipeline layout `layout` and then `pipelines`.
pub open spec fn frees_pipelines(action: DestroyAction, layout: u64, pipelines: Seq<u64>) -> bool {
    match action {
        DestroyAction::FreePipelines { layout: l, pipelines: p } => l == layout && p@ == pipelines,
        _ => false,
    }
}

/// What has to happen before the frame in `frame` is recorded, in order.
pub open spec fn sync_steps(frame: FrameData, swapchain: u64) -> Seq<SyncStep> {
    seq![
        SyncStep::WaitForFence { fence: frame.render_fence, timeout: NO_TIMEOUT },
        SyncStep::ResetFence { fence: frame.render_fence },
        SyncStep::AcquireNextImage {
            request: AcquireInfo {
                swapchain,
                timeout: NO_TIMEOUT,
                semaphore: frame.swapchain_sem,
                fence: NULL_HANDLE,
            },
        },
        SyncStep::ResetCommandBuffer { cmd_buf: frame.cmd_buf },
        SyncStep::BeginCommandBuffer { cmd_buf: frame.cmd_buf, one_time_submit: true },
    ]
}

/// What happens once the frame in `frame` is recorded, in order: the
/// command buffer is ended; the frame is submitted to `queue` with the
/// slot's fence; and the image `image_index` of `swapchain` is presented on
/// `queue` as soon as the slot's render semaphore is signaled.
pub open spec fn finish_steps(frame: FrameData, queue: u64, swapchain: u64, image_index: u32) -> Seq<
    FinishStep,
> {
    seq![
        FinishStep::EndCommandBuffer { cmd_buf: frame.cmd_buf },
        FinishStep::QueueSubmit { queue, fence: frame.render_fence },
        FinishStep::QueuePresent {
            request: PresentInfo {
                queue,
                swapchain,
                wait_semaphore: frame.render_sem,
                image_index,
            },
        },
    ]
}

/// The commands of the background pass: the effect's pipeline and the
/// render target's descriptor set are bound, the effect's constants pushed,
/// and one workgroup dispatched for every 16 by 16 pixels of `extent`, the
/// last ones in a row or column partly outside.
pub open spec fn background_commands(effect: ComputeEffect, set: u64, extent: Extent2D) -> Seq<
    Command,
> {
    seq![
        Command::BindComputePipeline { pipeline: effect.pipeline },
        Command::BindComputeDescriptorSet { layout: effect.layout, first_set: 0, set },
        Command::PushConstants { layout: effect.layout, offset: 0, data: effect.data },
        Command::Dispatch {
            x: group_count_spec(extent.width) as u32,
            y: group_count_spec(extent.height) as u32,
            z: 1,
        },
    ]
}

/// The commands of the overlay pass onto the image behind `view`: a
/// rendering pass over the whole image that keeps what is there, with the
/// overlay's own draw calls inside.
pub open spec fn overlay_commands(view: u64, extent: Extent2D) -> Seq<Command> {
    seq![
        Command::BeginRendering {
            render_area: extent,
            layer_count: 1,
            color_attachment: RenderingAttachmentInfo {
                image_view: view,
                image_layout: ImageLayout::ColorAttachmentOptimal,
                load_op: AttachmentLoadOp::Load,
                store_op: AttachmentStoreOp::Store,
                clear_value: None,
            },
        },
        Command::SetViewport { extent },
        Command::SetScissor { extent },
        Command::DrawOverlay { extent },
        Command::EndRendering,
    ]
}

/// The barrier command that takes `image` from `old_layout` to `new_layout`.
pub open spec fn barrier(image: u64, old_layout: ImageLayout, new_layout: ImageLayout) -> Command {
    Command::PipelineBarrier { barrier: transition_barrier(image, old_layout, new_layout) }
}

/// What is recorded once the render target is filled: it is made a transfer
/// source, the swapchain image a transfer destination, and the one blitted
/// into the other.
pub open spec fn blit_commands(r: RendererView, target: u64) -> Seq<Command> {
    seq![
        barrier(
            r.draw_image.image_spec(),
            ImageLayout::General,
            ImageLayout::TransferSrcOptimal,
        ),
        barrier(target, ImageLayout::Undefined, ImageLayout::TransferDstOptimal),
        Command::BlitImage {
            blit: blit_of(
                r.draw_image.image_spec(),
                target,
                r.draw_image.extent_spec(),
                r.swapchain.extent,
            ),
        },
    ]
}

/// How the swapchain image gets from the blit to presentation: directly, or
/// through the colour attachment layout with the overlay drawn onto it.
pub open spec fn present_commands(r: RendererView, target: u64, view: u64) -> Seq<Command> {
    if r.overlay {
        seq![
            barrier(
                target,
                ImageLayout::TransferDstOptimal,
                ImageLayout::ColorAttachmentOptimal,
            ),
        ] + overlay_commands(view, r.swapchain.extent) + seq![
            barrier(target, ImageLayout::ColorAttachmentOptimal, ImageLayout::PresentSrc),
        ]
    } else {
        seq![barrier(target, ImageLayout::TransferDstOptimal, ImageLayout::PresentSrc)]
    }
}

/// Everything recorded for one frame of `r` that ends up in the swapchain
/// image `target`, seen through `view`.
pub open spec fn frame_commands(r: RendererView, target: u64, view: u64) -> Seq<Command> {
    seq![barrier(r.draw_image.image_spec(), ImageLayout::Undefined, ImageLayout::General)]
        + background_commands(r.effect(), r.draw_image_descriptors, r.draw_image.extent_spec())
        + blit_commands(r, target) + present_commands(r, target, view)
}

/// The calls that take a renderer down, in the order they are made. The
/// device is waited for first, so that nothing that is freed is still in
/// use. Then go the overlay, the frame slots, what was registered for
/// destruction, last registered first, the swapchain, the surface, and at
/// the very end the device and the instance.
pub open spec fn shutdown_ops(r: RendererView) -> Seq<DeviceOp> {
    seq![DeviceOp::WaitIdle] + (if r.overlay {
        seq![DeviceOp::DropOverlay]
    } else {
        Seq::empty()
    }) + frame_ops(r.frames[0]) + frame_ops(r.frames[1]) + all_ops(flush_order(r.deletions))
        + swapchain_ops(r.swapchain) + seq![
        DeviceOp::DestroySurface { surface: r.surface },
        DeviceOp::DestroyDevice,
        DeviceOp::DestroyInstance,
    ]
}

impl View for Renderer {
    type V = RendererView;

    closed spec fn view(&self) -> RendererView {
        RendererView {
            surface: self.surface,
            gfx_queue: self.gfx_queue,
            swapchain: self.swapchain@,
            draw_image: self.draw_image,
            draw_image_descriptors: self.draw_image_descriptors,
            frames: self.frames@,
            frame_number: self.frame_number as nat,
            background_effects: self.background_effects@,
            current_background_effect: self.current_background_effect as nat,
            deletions: self.deletion_queue@,
            overlay: self.overlay,
        }
    }
}

impl Renderer {
    #[verifier::type_invariant]
    closed spec fn inv(&self) -> bool {
        self@.well_formed()
    }

    /// Puts the engine together. The descriptor pool with the set layout,
    /// and the pipeline layout with the effects' pipelines, are registered
    /// for destruction, in this order, behind what `parts.deletion_queue`
    /// holds. The frame counter starts at `parts.frame_number` and the first
    /// effect is selected.
    pub fn new(parts: RendererParts) -> (made: Result<Renderer, RendererError>)
        ensures
            parts.background_effects@.len() == 0 ==> made == Err::<Renderer, RendererError>(
                RendererError::NoEffects,
            ),
            parts.background_effects@.len() > 0 && parts.swapchain@.images.contains(
                parts.draw_image.image_spec(),
            ) ==> made == Err::<Renderer, RendererError>(RendererError::DrawImageInSwapchain),
            parts.background_effects@.len() > 0 && !parts.swapchain@.images.contains(
                parts.draw_image.image_spec(),
            ) && !(parts.frames@[0].state == SlotState::Idle && parts.frames@[1].state
                == SlotState::Idle) ==> made == Err::<Renderer, RendererError>(
                RendererError::SlotNotIdle,
            ),
            parts.background_effects@.len() > 0 && !parts.swapchain@.images.contains(
                parts.draw_image.image_spec(),
            ) && parts.frames@[0].state == SlotState::Idle && parts.frames@[1].state
                == SlotState::Idle ==> made.is_ok() && ({
                let r = made.unwrap()@;
                let n = parts.deletion_queue@.len() as int;
                &&& r.well_formed()
                &&& r.surface == parts.surface
                &&& r.gfx_queue == parts.gfx_queue
                &&& r.swapchain == parts.swapchain@
                &&& r.draw_image == parts.draw_image
                &&& r.draw_image_descriptors == parts.draw_image_descriptors
                &&& r.frames == parts.frames@
                &&& r.frame_number == parts.frame_number
                &&& r.background_effects == parts.background_effects@
                &&& r.current_background_effect == 0
                &&& r.overlay == parts.overlay
                &&& r.deletions.len() == n + 2
                &&& r.deletions.take(n) == parts.deletion_queue@
                &&& r.deletions[n] == (DestroyAction::FreeDescriptors {
                    pool: parts.descriptor_pool,
                    layout: parts.draw_image_descriptor_layout,
                })
                &&& frees_pipelines(
                    r.deletions[n + 1],
                    parts.compute_layout,
                    pipelines_of(parts.background_effects@),
                )
            }),
    {
        let RendererParts {
            surface,
            gfx_queue,
            swapchain,
            frames,
            draw_image,
            draw_image_descriptors,
            draw_image_descriptor_layout,
            descriptor_pool,
            compute_layout,
            background_effects,
            deletion_queue,
            overlay,
            frame_number,
        } = parts;
        if background_effects.len() == 0 {
            return Err(RendererError::NoEffects);
        }
        if swapchain.contains_image(draw_image.image()) {
            return Err(RendererError::DrawImageInSwapchain);
        }
        let idle = match (frames[0].state, frames[1].state) {
            (SlotState::Idle, SlotState::Idle) => true,
            _ => false,
        };
        if !idle {
            return Err(RendererError::SlotNotIdle);
        }
        let mut pipelines: Vec<u64> = Vec::new();
        let mut i: usize = 0;
        while i < background_effects.len()
            invariant
                i <= background_effects.len(),
                pipelines@.len() == i,
                forall|k: int| 0 <= k < i ==> pipelines@[k] == background_effects@[k].pipeline,
            decreases background_effects.len() - i,
        {
            pipelines.push(background_effects[i].pipeline);
            i += 1;
        }
        assert(pipelines@ =~= pipelines_of(background_effects@));
        let mut deletion_queue = deletion_queue;
        let ghost before = deletion_queue@;
        deletion_queue.push(
            DestroyAction::FreeDescriptors {
                pool: descriptor_pool,
                layout: draw_image_descriptor_layout,
            },
        );
        deletion_queue.push(DestroyAction::FreePipelines { layout: compute_layout, pipelines });
        assert(deletion_queue@.take(before.len() as int) =~= before);
        Ok(
            Renderer {
                surface,
                gfx_queue,
                swapchain,
                draw_image,
                draw_image_descriptors,
                frames,
                frame_number,
                background_effects,
                current_background_effect: 0,
                deletion_queue,
                overlay,
            },
        )
    }

    /// The frame data of the slot that the next frame uses, or that the
    /// frame being recorded uses: the slot with the frame counter's
    /// remainder by the number of slots.
    pub fn get_current_frame(&self) -> (frame: &FrameData)
        ensures
            *frame == self@.current_frame(),
            self@.slot() == self@.frame_number % 2,
            self@.well_formed(),
    {
        proof {
            use_type_invariant(self);
        }
        &self.frames[self.frame_number % FRAMES_IN_FLIGHT]
    }

    /// Begins the next frame in the current slot and says what has to be
    /// done before anything is recorded, in order. The wait for the slot's
    /// fence comes first, so that the device is done with the slot's last
    /// frame before its fence, semaphores and command buffer are used again.
    /// A slot that is already being recorded is not begun a second time.
    pub fn begin_frame(&mut self) -> (started: Result<Vec<SyncStep>, DrawError>)
        ensures
            final(self)@.well_formed(),
            old(self)@.current_frame().state == SlotState::Recording ==> started.is_err()
                && started.unwrap_err() == DrawError::FrameInProgress
                && final(self)@ == old(self)@,
            old(self)@.current_frame().state != SlotState::Recording ==> started.is_ok()
                && started.unwrap()@ == sync_steps(
                old(self)@.current_frame(),
                old(self)@.swapchain.swapchain,
            ) && final(self)@ == (RendererView {
                frames: old(self)@.frames.update(
                    old(self)@.slot(),
                    old(self)@.current_frame().with_state(SlotState::Recording),
                ),
                ..old(self)@
            }) && outstanding(final(self)@.frames) <= 1,
    {
        proof {
            use_type_invariant(&*self);
        }
        let slot = self.frame_number % FRAMES_IN_FLIGHT;
        let mut frame = self.frames[slot];
        match frame.retire() {
            Err(_) => {
                return Err(DrawError::FrameInProgress);
            },
            Ok(()) => {},
        }
        let acquire = self.swapchain.acquire_next_image(frame.swapchain_sem);
        let mut steps: Vec<SyncStep> = Vec::new();
        steps.push(SyncStep::WaitForFence { fence: frame.render_fence, timeout: NO_TIMEOUT });
        steps.push(SyncStep::ResetFence { fence: frame.render_fence });
        steps.push(SyncStep::AcquireNextImage { request: acquire });
        steps.push(SyncStep::ResetCommandBuffer { cmd_buf: frame.cmd_buf });
        steps.push(SyncStep::BeginCommandBuffer { cmd_buf: frame.cmd_buf, one_time_submit: true });
        let began = frame.begin_recording();
        assert(began.is_ok());
        self.frames[slot] = frame;
        proof {
            assert(steps@ =~= sync_steps(
                old(self)@.current_frame(),
                old(self)@.swapchain.swapchain,
            ));
            lemma_outstanding_of_two(self.frames@);
        }
        Ok(steps)
    }

    /// Records the frame that was begun, for the swapchain image with the
    /// index `swapchain_image_index` and the view `swapchain_view` made over
    /// it, and says what happens then: the recording is ended, the frame
    /// submitted, the image presented. The view is registered for
    /// destruction. The slot counts as submitted and the frame counter goes
    /// up by one.
    pub fn draw(&mut self, swapchain_image_index: u32, swapchain_view: u64) -> (drawn: Result<
        FramePlan,
        DrawError,
    >)
        ensures
            final(self)@.well_formed(),
            draw_error(old(self)@, swapchain_image_index) matches Some(e) ==> drawn.is_err()
                && drawn.unwrap_err() == e && final(self)@ == old(self)@,
            draw_error(old(self)@, swapchain_image_index).is_none() ==> drawn.is_ok() && ({
                let before = old(self)@;
                let frame = before.current_frame();
                let plan = drawn.unwrap();
                let target = before.swapchain.images[swapchain_image_index as int];
                &&& plan.cmd_buf == frame.cmd_buf
                &&& plan.commands@ == frame_commands(before, target, swapchain_view)
                &&& plan.submit.wait_semaphore_infos@ == seq![
                    SemaphoreSubmitInfo {
                        semaphore: frame.swapchain_sem,
                        value: 1,
                        stage_mask: STAGE_COLOR_ATTACHMENT_OUTPUT,
                    },
                ]
                &&& plan.submit.command_buffer_infos@ == seq![
                    CommandBufferSubmitInfo { command_buffer: frame.cmd_buf },
                ]
                &&& plan.submit.signal_semaphore_infos@ == seq![
                    SemaphoreSubmitInfo {
                        semaphore: frame.render_sem,
                        value: 1,
                        stage_mask: STAGE_ALL_GRAPHICS,
                    },
                ]
                &&& plan.finish@ == finish_steps(
                    frame,
                    before.gfx_queue,
                    before.swapchain.swapchain,
                    swapchain_image_index,
                )
                &&& final(self)@ == (RendererView {
                    frames: before.frames.update(
                        before.slot(),
                        frame.with_state(SlotState::Submitted),
                    ),
                    frame_number: before.frame_number + 1,
                    deletions: before.deletions.push(
                        DestroyAction::FreeView { view: swapchain_view },
                    ),
                    ..before
                })
                &&& outstanding(final(self)@.frames) <= FRAMES_IN_FLIGHT
            }),
    {
        proof {
            use_type_invariant(&*self);
        }
        let slot = self.frame_number % FRAMES_IN_FLIGHT;
        let mut frame = self.frames[slot];
        match frame.state {
            SlotState::Recording => {},
            _ => {
                return Err(DrawError::NotRecording);
            },
        }
        let target = match self.swapchain.image_at(swapchain_image_index) {
            Some(image) => image,
            None => {
                return Err(DrawError::ImageIndexOutOfRange);
            },
        };
        if self.frame_number == usize::MAX {
            return Err(DrawError::FrameCounterExhausted);
        }
        let mut cmd_buf = CommandBuffer::new(frame.cmd_buf);
        let mut deletion_queue = DeletionQueue::new();
        std::mem::swap(&mut deletion_queue, &mut self.deletion_queue);
        let swapchain_image = Image::from_handle(
            &mut deletion_queue,
            target,
            swapchain_view,
            self.swapchain.format(),
            self.swapchain.extent(),
        );
        self.deletion_queue = deletion_queue;

        self.draw_image.transition(&mut cmd_buf, ImageLayout::Undefined, ImageLayout::General);
        self.draw_background(&mut cmd_buf);
        self.draw_image.transition(
            &mut cmd_buf,
            ImageLayout::General,
            ImageLayout::TransferSrcOptimal,
        );
        swapchain_image.transition(
            &mut cmd_buf,
            ImageLayout::Undefined,
            ImageLayout::TransferDstOptimal,
        );
        copy_image_to_image(
            &mut cmd_buf,
            &self.draw_image,
            &swapchain_image,
            self.draw_image.extent(),
            swapchain_image.extent(),
        );
        if self.overlay {
            swapchain_image.transition(
                &mut cmd_buf,
                ImageLayout::TransferDstOptimal,
                ImageLayout::ColorAttachmentOptimal,
            );
            self.draw_ui(&mut cmd_buf, &swapchain_image);
            swapchain_image.transition(
                &mut cmd_buf,
                ImageLayout::ColorAttachmentOptimal,
                ImageLayout::PresentSrc,
            );
        } else {
            swapchain_image.transition(
                &mut cmd_buf,
                ImageLayout::TransferDstOptimal,
                ImageLayout::PresentSrc,
            );
        }
        assert(cmd_buf@ =~= frame_commands(old(self)@, target, swapchain_view));

        let mut cmd_buf_submit_info: Vec<CommandBufferSubmitInfo> = Vec::new();
        cmd_buf_submit_info.push(command_buffer_submit_info(frame.cmd_buf));
        let mut wait_info: Vec<SemaphoreSubmitInfo> = Vec::new();
        wait_info.push(semaphore_submit_info(STAGE_COLOR_ATTACHMENT_OUTPUT, frame.swapchain_sem));
        let mut signal_info: Vec<SemaphoreSubmitInfo> = Vec::new();
        signal_info.push(semaphore_submit_info(STAGE_ALL_GRAPHICS, frame.render_sem));
        let submit = submit_info(cmd_buf_submit_info, signal_info, wait_info);
        let present = self.swapchain.present(
            self.gfx_queue,
            frame.render_sem,
            swapchain_image_index,
        );
        let mut finish: Vec<FinishStep> = Vec::new();
        finish.push(FinishStep::EndCommandBuffer { cmd_buf: frame.cmd_buf });
        finish.push(FinishStep::QueueSubmit { queue: self.gfx_queue, fence: frame.render_fence });
        finish.push(FinishStep::QueuePresent { request: present });

        let submitted = frame.submit();
        assert(submitted.is_ok());
        self.frames[slot] = frame;
        self.frame_number += 1;
        proof {
            lemma_outstanding_bounded(self.frames@);
            assert(finish@ =~= finish_steps(
                old(self)@.current_frame(),
                old(self)@.gfx_queue,
                old(self)@.swapchain.swapchain,
                swapchain_image_index,
            ));
            assert(submit.wait_semaphore_infos@ =~= seq![
                SemaphoreSubmitInfo {
                    semaphore: frame.swapchain_sem,
                    value: 1,
                    stage_mask: STAGE_COLOR_ATTACHMENT_OUTPUT,
                },
            ]);
            assert(submit.command_buffer_infos@ =~= seq![
                CommandBufferSubmitInfo { command_buffer: frame.cmd_buf },
            ]);
            assert(submit.signal_semaphore_infos@ =~= seq![
                SemaphoreSubmitInfo {
                    semaphore: frame.render_sem,
                    value: 1,
                    stage_mask: STAGE_ALL_GRAPHICS,
                },
            ]);
        }
        Ok(
            FramePlan {
                cmd_buf: frame.cmd_buf,
                commands: cmd_buf.finish(),
                submit,
                finish,
            },
        )
    }

    /// Records the background pass with the selected effect.
    fn draw_background(&self, cmd_buf: &mut CommandBuffer)
        ensures
            final(cmd_buf)@ == old(cmd_buf)@ + background_commands(
                self@.effect(),
                self@.draw_image_descriptors,
                self@.draw_image.extent_spec(),
            ),
            final(cmd_buf).handle_spec() == old(cmd_buf).handle_spec(),
    {
        proof {
            use_type_invariant(self);
        }
        let effect = self.background_effects[self.current_background_effect];
        cmd_buf.record(Command::BindComputePipeline { pipeline: effect.pipeline });
        cmd_buf.record(
            Command::BindComputeDescriptorSet {
                layout: effect.layout,
                first_set: 0,
                set: self.draw_image_descriptors,
            },
        );
        cmd_buf.record(
            Command::PushConstants { layout: effect.layout, offset: 0, data: effect.data },
        );
        cmd_buf.record(
            Command::Dispatch {
                x: group_count(self.draw_image.extent().width),
                y: group_count(self.draw_image.extent().height),
                z: 1,
            },
        );
        assert(cmd_buf@ =~= old(cmd_buf)@ + background_commands(
            self@.effect(),
            self@.draw_image_descriptors,
            self@.draw_image.extent_spec(),
        ));
    }

    /// Records the overlay pass onto `image`, which has to be in the colour
    /// attachment layout then.
    fn draw_ui(&self, cmd_buf: &mut CommandBuffer, image: &Image)
        ensures
            final(cmd_buf)@ == old(cmd_buf)@ + overlay_commands(
                image.view_spec(),
                image.extent_spec(),
            ),
            final(cmd_buf).handle_spec() == old(cmd_buf).handle_spec(),
    {
        let color_attachment = rendering_attachment_info(
            image,
            None,
            ImageLayout::ColorAttachmentOptimal,
        );
        cmd_buf.record(
            Command::BeginRendering {
                render_area: image.extent(),
                layer_count: 1,
                color_attachment,
            },
        );
        cmd_buf.record(Command::SetViewport { extent: image.extent() });
        cmd_buf.record(Command::SetScissor { extent: image.extent() });
        cmd_buf.record(Command::DrawOverlay { extent: image.extent() });
        cmd_buf.record(Command::EndRendering);
        assert(cmd_buf@ =~= old(cmd_buf)@ + overlay_commands(
            image.view_spec(),
            image.extent_spec(),
        ));
    }

    /// Selects the effect with the index `index`, if there is one.
    pub fn select_effect(&mut self, index: usize) -> (selected: bool)
        ensures
            final(self)@.well_formed(),
            selected == (index < old(self)@.background_effects.len()),
            selected ==> final(self)@ == (RendererView {
                current_background_effect: index as nat,
                ..old(self)@
            }),
            !selected ==> final(self)@ == old(self)@,
    {
        proof {
            use_type_invariant(&*self);
        }
        if index < self.background_effects.len() {
            self.current_background_effect = index;
            true
        } else {
            false
        }
    }

    /// Replaces the constants of the selected effect.
    pub fn set_effect_data(&mut self, data: ComputePushConstants)
        ensures
            final(self)@.well_formed(),
            final(self)@ == (RendererView {
                background_effects: old(self)@.background_effects.update(
                    old(self)@.current_background_effect as int,
                    ComputeEffect { data, ..old(self)@.effect() },
                ),
                ..old(self)@
            }),
    {
        proof {
            use_type_invariant(&*self);
        }
        let mut effects: Vec<ComputeEffect> = Vec::new();
        let mut i: usize = 0;
        while i < self.background_effects.len()
            invariant
                i <= self.background_effects.len(),
                self.current_background_effect < self.background_effects.len(),
                effects@.len() == i,
                forall|k: int|
                    0 <= k < i ==> effects@[k] == if k == self.current_background_effect {
                        ComputeEffect { data, ..self.background_effects@[k] }
                    } else {
                        self.background_effects@[k]
                    },
            decreases self.background_effects.len() - i,
        {
            let mut effect = self.background_effects[i];
            if i == self.current_background_effect {
                effect.data = data;
            }
            effects.push(effect);
            i += 1;
        }
        assert(effects@ =~= self.background_effects@.update(
            self.current_background_effect as int,
            ComputeEffect { data, ..self@.effect() },
        ));
        self.background_effects = effects;
    }

    /// The selected effect.
    pub fn current_effect(&self) -> (effect: ComputeEffect)
        ensures
            self@.well_formed(),
            effect == self@.effect(),
    {
        proof {
            use_type_invariant(self);
        }
        self.background_effects[self.current_background_effect]
    }

    /// The index of the selected effect and the number of effects.
    pub fn effect_selection(&self) -> (selection: (usize, usize))
        ensures
            selection.0 == self@.current_background_effect,
            selection.1 == self@.background_effects.len(),
            selection.0 < selection.1,
    {
        proof {
            use_type_invariant(self);
        }
        (self.current_background_effect, self.background_effects.len())
    }

    /// Number of destructions that are registered.
    pub fn pending_deletions(&self) -> (n: usize)
        ensures
            n == self@.deletions.len(),
    {
        self.deletion_queue.len()
    }

    /// Takes the renderer down and says which calls do it, in order.
    pub fn shutdown(self) -> (ops: Vec<DeviceOp>)
        ensures
            ops@ == shutdown_ops(self@),
    {
        proof {
            use_type_invariant(&self);
        }
        let mut ops: Vec<DeviceOp> = Vec::new();
        ops.push(DeviceOp::WaitIdle);
        if self.overlay {
            ops.push(DeviceOp::DropOverlay);
        }
        let first = self.frames[0].destroy();
        append_ops(&mut ops, &first);
        let second = self.frames[1].destroy();
        append_ops(&mut ops, &second);
        let mut deletion_queue = self.deletion_queue;
        let order = deletion_queue.flush();
        let frees = steps_of(&order);
        append_ops(&mut ops, &frees);
        let chain = self.swapchain.destroy();
        append_ops(&mut ops, &chain);
        ops.push(DeviceOp::DestroySurface { surface: self.surface });
        ops.push(DeviceOp::DestroyDevice);
        ops.push(DeviceOp::DestroyInstance);
        assert(ops@ =~= shutdown_ops(self@));
        ops
    }

    /// The swapchain that the frames are presented on.
    pub fn swapchain(&self) -> (swapchain: &Swapchain)
        ensures
            swapchain@ == self@.swapchain,
    {
        &self.swapchain
    }

    /// The render target.
    pub fn draw_image(&self) -> (image: Image)
        ensures
            image == self@.draw_image,
    {
        self.draw_image
    }

    /// Whether an overlay is drawn onto each frame.
    pub fn has_overlay(&self) -> (overlay: bool)
        ensures
            overlay == self@.overlay,
    {
        self.overlay
    }

    /// Number of frames drawn so far.
    pub fn frame_number(&self) -> (n: usize)
        ensures
            n == self@.frame_number,
    {
        self.frame_number
    }

    /// The index of the slot that the next frame uses, or that the frame
    /// being recorded uses.
    pub fn current_slot(&self) -> (slot: usize)
        ensures
            slot == self@.slot(),
            slot == self@.frame_number % 2,
    {
        self.frame_number % FRAMES_IN_FLIGHT
    }
}

/// The error that `draw` answers with in the state `r`, for the image index
/// `index`; none where it draws.
pub open spec fn draw_error(r: RendererView, index: u32) -> Option<DrawError> {
    if r.current_frame().state != SlotState::Recording {
        Some(DrawError::NotRecording)
    } else if index >= r.swapchain.images.len() {
        Some(DrawError::ImageIndexOutOfRange)
    } else if r.frame_number >= usize::MAX {
        Some(DrawError::FrameCounterExhausted)
    } else {
        None
    }
}

} // verus!
