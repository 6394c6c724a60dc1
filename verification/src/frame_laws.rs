//! What holds of every frame: how many are in flight, which slot each uses,
//! and how the layouts of its images follow each other.

use vstd::prelude::*;
use crate::commands::chain_from;
use crate::commands::layout_after;
use crate::commands::lemma_transitions_concat;
use crate::commands::lemma_transitions_push;
use crate::commands::transitions_of;
use crate::commands::Command;
use crate::extent::Extent2D;
use crate::framedata::FrameData;
use crate::framedata::SlotState;
use crate::layout::ImageLayout;
use crate::renderer::background_commands;
use crate::renderer::barrier;
use crate::renderer::blit_commands;
use crate::renderer::frame_commands;
use crate::renderer::outstanding;
use crate::renderer::overlay_commands;
use crate::renderer::present_commands;
use crate::renderer::slot_of;
use crate::renderer::sync_steps;
use crate::renderer::ComputeEffect;
use crate::renderer::RendererView;
use crate::renderer::SyncStep;
use crate::renderer::FRAMES_IN_FLIGHT;
use crate::swapchain::NO_TIMEOUT;

verus! {

/// No more slots are outstanding than there are slots.
pub proof fn lemma_outstanding_bounded(frames: Seq<FrameData>)
    ensures
        outstanding(frames) <= frames.len(),
    decreases frames.len(),
{
    if frames.len() > 0 {
        lemma_outstanding_bounded(frames.drop_last());
    }
}

/// With two slots, the outstanding ones are counted one by one.
pub proof fn lemma_outstanding_of_two(frames: Seq<FrameData>)
    requires
        frames.len() == 2,
    ensures
        outstanding(frames) == (if frames[0].state == SlotState::Submitted {
            1nat
        } else {
            0nat
        }) + (if frames[1].state == SlotState::Submitted {
            1nat
        } else {
            0nat
        }),
{
    let first = frames.drop_last();
    assert(first.len() == 1);
    assert(first.last() == frames[0]);
    assert(first.drop_last().len() == 0);
    assert(outstanding(first.drop_last()) == 0);
    assert(outstanding(first) == if frames[0].state == SlotState::Submitted {
        1nat
    } else {
        0nat
    });
}

/// However many frames were drawn, the frames whose work is on the device
/// and not known to be finished are never more than there are slots.
pub proof fn lemma_frames_in_flight_bounded(r: RendererView)
    requires
        r.well_formed(),
    ensures
        outstanding(r.frames) <= FRAMES_IN_FLIGHT,
{
    lemma_outstanding_bounded(r.frames);
}

/// The background pass leaves every image's layout alone.
pub proof fn lemma_background_has_no_transitions(
    effect: ComputeEffect,
    set: u64,
    extent: Extent2D,
    image: u64,
)
    ensures
        transitions_of(background_commands(effect, set, extent), image) == Seq::<
            (ImageLayout, ImageLayout),
        >::empty(),
{
    let all = background_commands(effect, set, extent);
    let s0 = Seq::<Command>::empty();
    let s1 = s0.push(all[0]);
    let s2 = s1.push(all[1]);
    let s3 = s2.push(all[2]);
    let s4 = s3.push(all[3]);
    lemma_transitions_push(s0, all[0], image);
    lemma_transitions_push(s1, all[1], image);
    lemma_transitions_push(s2, all[2], image);
    lemma_transitions_push(s3, all[3], image);
    assert(s4 =~= all);
}

/// The overlay pass leaves every image's layout alone.
pub proof fn lemma_overlay_has_no_transitions(view: u64, extent: Extent2D, image: u64)
    ensures
        transitions_of(overlay_commands(view, extent), image) == Seq::<
            (ImageLayout, ImageLayout),
        >::empty(),
{
    let all = overlay_commands(view, extent);
    let s0 = Seq::<Command>::empty();
    let s1 = s0.push(all[0]);
    let s2 = s1.push(all[1]);
    let s3 = s2.push(all[2]);
    let s4 = s3.push(all[3]);
    let s5 = s4.push(all[4]);
    lemma_transitions_push(s0, all[0], image);
    lemma_transitions_push(s1, all[1], image);
    lemma_transitions_push(s2, all[2], image);
    lemma_transitions_push(s3, all[3], image);
    lemma_transitions_push(s4, all[4], image);
    assert(s5 =~= all);
}

/// The transitions of `image` in a recording of one barrier.
pub proof fn lemma_transitions_of_barrier(
    on: u64,
    old_layout: ImageLayout,
    new_layout: ImageLayout,
    image: u64,
)
    ensures
        transitions_of(seq![barrier(on, old_layout, new_layout)], image) == if on == image {
            seq![(old_layout, new_layout)]
        } else {
            Seq::<(ImageLayout, ImageLayout)>::empty()
        },
{
    let s0 = Seq::<Command>::empty();
    lemma_transitions_push(s0, barrier(on, old_layout, new_layout), image);
    assert(s0.push(barrier(on, old_layout, new_layout)) =~= seq![
        barrier(on, old_layout, new_layout),
    ]);
    assert(Seq::<(ImageLayout, ImageLayout)>::empty().push((old_layout, new_layout)) =~= seq![
        (old_layout, new_layout),
    ]);
}

/// The transitions that a frame records for the render target.
pub open spec fn draw_image_chain() -> Seq<(ImageLayout, ImageLayout)> {
    seq![
        (ImageLayout::Undefined, ImageLayout::General),
        (ImageLayout::General, ImageLayout::TransferSrcOptimal),
    ]
}

/// The transitions that a frame records for the swapchain image, with an
/// overlay and without.
pub open spec fn swapchain_image_chain(overlay: bool) -> Seq<(ImageLayout, ImageLayout)> {
    if overlay {
        seq![
            (ImageLayout::Undefined, ImageLayout::TransferDstOptimal),
            (ImageLayout::TransferDstOptimal, ImageLayout::ColorAttachmentOptimal),
            (ImageLayout::ColorAttachmentOptimal, ImageLayout::PresentSrc),
        ]
    } else {
        seq![
            (ImageLayout::Undefined, ImageLayout::TransferDstOptimal),
            (ImageLayout::TransferDstOptimal, ImageLayout::PresentSrc),
        ]
    }
}

/// In what a frame records, the transitions of the render target and those
/// of the swapchain image each form a chain without a gap that starts from
/// the undefined layout. The render target goes through general, where the
/// effect writes it, to transfer source. The swapchain image goes through
/// transfer destination, and through colour attachment if there is an
/// overlay, to the presentable layout.
pub proof fn lemma_frame_layout_chains(r: RendererView, target: u64, view: u64)
    requires
        r.well_formed(),
        r.swapchain.images.contains(target),
    ensures
        transitions_of(frame_commands(r, target, view), r.draw_image.image_spec())
            == draw_image_chain(),
        transitions_of(frame_commands(r, target, view), target) == swapchain_image_chain(
            r.overlay,
        ),
        chain_from(ImageLayout::Undefined, draw_image_chain()),
        chain_from(ImageLayout::Undefined, swapchain_image_chain(r.overlay)),
        layout_after(ImageLayout::Undefined, draw_image_chain())
            == ImageLayout::TransferSrcOptimal,
        layout_after(ImageLayout::Undefined, swapchain_image_chain(r.overlay))
            == ImageLayout::PresentSrc,
{
    let own = r.draw_image.image_spec();
    assert(own != target);
    let head = seq![barrier(own, ImageLayout::Undefined, ImageLayout::General)];
    let back = background_commands(r.effect(), r.draw_image_descriptors, r.draw_image.extent_spec());
    let blit = blit_commands(r, target);
    let tail = present_commands(r, target, view);
    lemma_part_transitions(r, target, view, own);
    lemma_part_transitions(r, target, view, target);
    lemma_transitions_concat(head, back, own);
    lemma_transitions_concat(head + back, blit, own);
    lemma_transitions_concat(head + back + blit, tail, own);
    lemma_transitions_concat(head, back, target);
    lemma_transitions_concat(head + back, blit, target);
    lemma_transitions_concat(head + back + blit, tail, target);
    assert(transitions_of(frame_commands(r, target, view), own) =~= draw_image_chain());
    assert(transitions_of(frame_commands(r, target, view), target) =~= swapchain_image_chain(
        r.overlay,
    ));
}

/// The transitions of `image` in each of the four parts of a frame.
proof fn lemma_part_transitions(r: RendererView, target: u64, view: u64, image: u64)
    requires
        r.draw_image.image_spec() != target,
        image == target || image == r.draw_image.image_spec(),
    ensures
        transitions_of(
            seq![barrier(r.draw_image.image_spec(), ImageLayout::Undefined, ImageLayout::General)],
            image,
        ) == if image == target {
            Seq::<(ImageLayout, ImageLayout)>::empty()
        } else {
            seq![(ImageLayout::Undefined, ImageLayout::General)]
        },
        transitions_of(
            background_commands(
                r.effect(),
                r.draw_image_descriptors,
                r.draw_image.extent_spec(),
            ),
            image,
        ) == Seq::<(ImageLayout, ImageLayout)>::empty(),
        transitions_of(blit_commands(r, target), image) == if image == target {
            seq![(ImageLayout::Undefined, ImageLayout::TransferDstOptimal)]
        } else {
            seq![(ImageLayout::General, ImageLayout::TransferSrcOptimal)]
        },
        transitions_of(present_commands(r, target, view), image) == if image != target {
            Seq::<(ImageLayout, ImageLayout)>::empty()
        } else if r.overlay {
            seq![
                (ImageLayout::TransferDstOptimal, ImageLayout::ColorAttachmentOptimal),
                (ImageLayout::ColorAttachmentOptimal, ImageLayout::PresentSrc),
            ]
        } else {
            seq![(ImageLayout::TransferDstOptimal, ImageLayout::PresentSrc)]
        },
{
    let own = r.draw_image.image_spec();
    let none = Seq::<(ImageLayout, ImageLayout)>::empty();
    lemma_transitions_of_barrier(own, ImageLayout::Undefined, ImageLayout::General, image);
    lemma_background_has_no_transitions(
        r.effect(),
        r.draw_image_descriptors,
        r.draw_image.extent_spec(),
        image,
    );
    // the blit part
    let b = blit_commands(r, target);
    let s0 = Seq::<Command>::empty();
    let s1 = s0.push(b[0]);
    let s2 = s1.push(b[1]);
    let s3 = s2.push(b[2]);
    lemma_transitions_push(s0, b[0], image);
    lemma_transitions_push(s1, b[1], image);
    lemma_transitions_push(s2, b[2], image);
    assert(s3 =~= b);
    assert(none.push((ImageLayout::Undefined, ImageLayout::TransferDstOptimal)) =~= seq![
        (ImageLayout::Undefined, ImageLayout::TransferDstOptimal),
    ]);
    assert(none.push((ImageLayout::General, ImageLayout::TransferSrcOptimal)) =~= seq![
        (ImageLayout::General, ImageLayout::TransferSrcOptimal),
    ]);
    // the way to presentation
    if r.overlay {
        let enter = seq![
            barrier(
                target,
                ImageLayout::TransferDstOptimal,
                ImageLayout::ColorAttachmentOptimal,
            ),
        ];
        let pass = overlay_commands(view, r.swapchain.extent);
        let leave = seq![
            barrier(target, ImageLayout::ColorAttachmentOptimal, ImageLayout::PresentSrc),
        ];
        lemma_transitions_of_barrier(
            target,
            ImageLayout::TransferDstOptimal,
            ImageLayout::ColorAttachmentOptimal,
            image,
        );
        lemma_overlay_has_no_transitions(view, r.swapchain.extent, image);
        lemma_transitions_of_barrier(
            target,
            ImageLayout::ColorAttachmentOptimal,
            ImageLayout::PresentSrc,
            image,
        );
        lemma_transitions_concat(enter, pass, image);
        lemma_transitions_concat(enter + pass, leave, image);
        assert(transitions_of(present_commands(r, target, view), image) =~= if image != target {
            none
        } else {
            seq![
                (ImageLayout::TransferDstOptimal, ImageLayout::ColorAttachmentOptimal),
                (ImageLayout::ColorAttachmentOptimal, ImageLayout::PresentSrc),
            ]
        });
    } else {
        lemma_transitions_of_barrier(
            target,
            ImageLayout::TransferDstOptimal,
            ImageLayout::PresentSrc,
            image,
        );
    }
}

/// Frames use the slots in turn: the first frame uses slot 0, every frame
/// the slot that the frame before it did not use, and so every second
/// frame the same slot again.
pub proof fn lemma_slots_alternate(frame_number: nat)
    ensures
        slot_of(0) == 0,
        0 <= slot_of(frame_number) < FRAMES_IN_FLIGHT,
        slot_of(frame_number + 1) == 1 - slot_of(frame_number),
        slot_of(frame_number + 2) == slot_of(frame_number),
{
}

/// Before a frame is recorded, the wait for its slot's fence is the first
/// thing that happens and the begin of its command buffer the last: nothing
/// is recorded into a slot whose fence was not waited for.
pub proof fn lemma_wait_precedes_recording(frame: FrameData, swapchain: u64)
    ensures
        sync_steps(frame, swapchain).len() == 5,
        sync_steps(frame, swapchain)[0] == (SyncStep::WaitForFence {
            fence: frame.render_fence,
            timeout: NO_TIMEOUT,
        }),
        sync_steps(frame, swapchain)[4] == (SyncStep::BeginCommandBuffer {
            cmd_buf: frame.cmd_buf,
            one_time_submit: true,
        }),
        forall|i: int|
            0 <= i < 4 ==> !(#[trigger] sync_steps(frame, swapchain)[i] is BeginCommandBuffer),
{
}

} // verus!
