//! The layout-transition capability.

use vstd::prelude::*;
use crate::commands::Command;
use crate::commands::chain_from;
use crate::commands::layout_after;
use crate::commands::lemma_transitions_push;
use crate::commands::transitions_of;
use crate::commands::CommandBuffer;
use crate::layout::transition_aspect;
use crate::layout::transition_barrier;
use crate::layout::ImageLayout;
use crate::layout::ImageMemoryBarrier;
use crate::layout::ACCESS_MEMORY_READ_WRITE;
use crate::layout::ACCESS_MEMORY_WRITE;
use crate::layout::STAGE_ALL_COMMANDS;
use crate::util::image_subresource_range;

verus! {

/// Anything whose layout can be changed by a recorded barrier.
pub trait Transitionable {
    /// The native image that the barrier names.
    spec fn target(&self) -> u64;

    /// Records the barrier that takes the image from `current_layout` to
    /// `new_layout`. `current_layout` is the caller's word: the layout is
    /// tracked by whoever records, not read back from the device.
    fn transition(
        &self,
        cmd_buf: &mut CommandBuffer,
        current_layout: ImageLayout,
        new_layout: ImageLayout,
    )
        ensures
            final(cmd_buf)@ == old(cmd_buf)@.push(
                Command::PipelineBarrier {
                    barrier: transition_barrier(self.target(), current_layout, new_layout),
                },
            ),
            final(cmd_buf).handle_spec() == old(cmd_buf).handle_spec(),
    ;
}

/// A bare native image handle.
impl Transitionable for u64 {
    open spec fn target(&self) -> u64 {
        *self
    }

    fn transition(
        &self,
        cmd_buf: &mut CommandBuffer,
        current_layout: ImageLayout,
        new_layout: ImageLayout,
    ) {
        let barrier = ImageMemoryBarrier {
            image: *self,
            old_layout: current_layout,
            new_layout,
            src_stage_mask: STAGE_ALL_COMMANDS,
            src_access_mask: ACCESS_MEMORY_WRITE,
            dst_stage_mask: STAGE_ALL_COMMANDS,
            dst_access_mask: ACCESS_MEMORY_READ_WRITE,
            subresource_range: image_subresource_range(transition_aspect(new_layout)),
        };
        cmd_buf.record(Command::PipelineBarrier { barrier });
    }
}

/// Two transitions recorded one after the other on one image, the second
/// leaving the layout that the first entered, are its only transitions in
/// what was recorded and form a chain without a gap.
pub proof fn lemma_consecutive_transitions_connect(
    image: u64,
    first: ImageLayout,
    middle: ImageLayout,
    last: ImageLayout,
)
    ensures
        transitions_of(
            seq![
                Command::PipelineBarrier { barrier: transition_barrier(image, first, middle) },
                Command::PipelineBarrier { barrier: transition_barrier(image, middle, last) },
            ],
            image,
        ) == seq![(first, middle), (middle, last)],
        chain_from(first, seq![(first, middle), (middle, last)]),
        layout_after(first, seq![(first, middle), (middle, last)]) == last,
{
    let one = Command::PipelineBarrier { barrier: transition_barrier(image, first, middle) };
    let two = Command::PipelineBarrier { barrier: transition_barrier(image, middle, last) };
    let none = Seq::<Command>::empty();
    assert(transitions_of(none, image) =~= Seq::empty());
    lemma_transitions_push(none, one, image);
    lemma_transitions_push(none.push(one), two, image);
    assert(none.push(one).push(two) =~= seq![one, two]);
    assert(Seq::<(ImageLayout, ImageLayout)>::empty().push((first, middle)).push((middle, last))
        =~= seq![(first, middle), (middle, last)]);
}

} // verus!
