//! The commands a frame records, and the recording scope they go into.

use vstd::prelude::*;
use crate::extent::Extent2D;
use crate::layout::ImageLayout;
use crate::layout::ImageMemoryBarrier;

verus! {

/// The constants pushed to a compute effect: four vectors of four 32-bit
/// floats each, held as their bit patterns.
#[derive(Clone, Copy, Debug, PartialEq, Eq)]
pub struct ComputePushConstants {
    pub data1: [u32; 4],
    pub data2: [u32; 4],
    pub data3: [u32; 4],
    pub data4: [u32; 4],
}

/// How a blit samples its source.
#[derive(Clone, Copy, Debug, PartialEq, Eq, Structural)]
pub enum Filter {
    Nearest,
    Linear,
}

/// A scaled copy of the colour of one image into another. Each region runs
/// from the origin of its image over the given size, on mip level 0, layer 0.
#[derive(Clone, Copy, Debug, PartialEq, Eq, Structural)]
pub struct ImageBlit {
    pub src_image: u64,
    pub src_image_layout: ImageLayout,
    pub src_size: Extent2D,
    pub dst_image: u64,
    pub dst_image_layout: ImageLayout,
    pub dst_size: Extent2D,
    pub layer_count: u32,
    pub filter: Filter,
}

/// What happens to an attachment's old content when a pass begins.
#[derive(Clone, Copy, Debug, PartialEq, Eq, Structural)]
pub enum AttachmentLoadOp {
    Load,
    Clear,
}

/// What happens to an attachment's content when a pass ends.
#[derive(Clone, Copy, Debug, PartialEq, Eq, Structural)]
pub enum AttachmentStoreOp {
    Store,
    DontCare,
}

/// One attachment of a dynamic rendering pass. A clear value is four 32-bit
/// words, as the graphics API stores it.
#[derive(Clone, Copy, Debug, PartialEq, Eq)]
pub struct RenderingAttachmentInfo {
    pub image_view: u64,
    pub image_layout: ImageLayout,
    pub load_op: AttachmentLoadOp,
    pub store_op: AttachmentStoreOp,
    pub clear_value: Option<[u32; 4]>,
}

/// One command in a command buffer.
#[derive(Clone, Copy, Debug, PartialEq, Eq)]
pub enum Command {
    /// A layout transition with its memory barrier.
    PipelineBarrier { barrier: ImageMemoryBarrier },
    /// Binds a pipeline at the compute bind point.
    BindComputePipeline { pipeline: u64 },
    /// Binds one descriptor set at the compute bind point.
    BindComputeDescriptorSet { layout: u64, first_set: u32, set: u64 },
    /// Pushes constants to the compute stage.
    PushConstants { layout: u64, offset: u32, data: ComputePushConstants },
    /// Dispatches a grid of workgroups.
    Dispatch { x: u32, y: u32, z: u32 },
    /// A filtered copy between two images.
    BlitImage { blit: ImageBlit },
    /// Opens a dynamic rendering pass over `render_area`, from the origin,
    /// with one colour attachment.
    BeginRendering { render_area: Extent2D, layer_count: u32, color_attachment: RenderingAttachmentInfo },
    /// A viewport over the whole of `extent`, depth from 0 to 1.
    SetViewport { extent: Extent2D },
    /// A scissor over the whole of `extent`.
    SetScissor { extent: Extent2D },
    /// The overlay's own draw calls, for a target of size `extent`.
    DrawOverlay { extent: Extent2D },
    /// Closes the dynamic rendering pass.
    EndRendering,
}

/// A command buffer while it is recorded: its native handle and the commands
/// recorded so far, first to last.
pub struct CommandBuffer {
    handle: u64,
    commands: Vec<Command>,
}

impl View for CommandBuffer {
    type V = Seq<Command>;

    closed spec fn view(&self) -> Seq<Command> {
        self.commands@
    }
}

impl CommandBuffer {
    /// The native handle.
    pub closed spec fn handle_spec(&self) -> u64 {
        self.handle
    }

    /// A recording scope for the command buffer `handle`, with nothing
    /// recorded.
    pub fn new(handle: u64) -> (cmd_buf: CommandBuffer)
        ensures
            cmd_buf@ == Seq::<Command>::empty(),
            cmd_buf.handle_spec() == handle,
    {
        CommandBuffer { handle, commands: Vec::new() }
    }

    /// The native handle.
    pub fn handle(&self) -> (handle: u64)
        ensures
            handle == self.handle_spec(),
    {
        self.handle
    }

    /// Number of commands recorded.
    pub fn len(&self) -> (n: usize)
        ensures
            n == self@.len(),
    {
        self.commands.len()
    }

    /// The `index`-th recorded command, if there are that many.
    pub fn get(&self, index: usize) -> (command: Option<Command>)
        ensures
            command == if index < self@.len() {
                Some(self@[index as int])
            } else {
                None
            },
    {
        if index < self.commands.len() {
            Some(self.commands[index])
        } else {
            None
        }
    }

    /// Records `command` behind everything recorded before.
    pub fn record(&mut self, command: Command)
        ensures
            final(self)@ == old(self)@.push(command),
            final(self).handle_spec() == old(self).handle_spec(),
    {
        self.commands.push(command);
    }

    /// Ends the recording and hands the commands out, first to last.
    pub fn finish(self) -> (commands: Vec<Command>)
        ensures
            commands@ == self@,
    {
        self.commands
    }
}

/// The layout transitions of `image` among `commands`, in recording order,
/// each as the pair of the layout it leaves and the layout it enters.
pub open spec fn transitions_of(commands: Seq<Command>, image: u64) -> Seq<
    (ImageLayout, ImageLayout),
>
    decreases commands.len(),
{
    if commands.len() == 0 {
        Seq::empty()
    } else {
        let earlier = transitions_of(commands.drop_last(), image);
        match commands.last() {
            Command::PipelineBarrier { barrier } => if barrier.image == image {
                earlier.push((barrier.old_layout, barrier.new_layout))
            } else {
                earlier
            },
            _ => earlier,
        }
    }
}

/// Whether every transition in `pairs` leaves the layout that the one before
/// it entered: a chain without gaps.
pub open spec fn connected(pairs: Seq<(ImageLayout, ImageLayout)>) -> bool {
    forall|k: int| 0 < k < pairs.len() ==> (#[trigger] pairs[k]).0 == pairs[k - 1].1
}

/// Whether `pairs` is a gapless chain that begins in `first`.
pub open spec fn chain_from(first: ImageLayout, pairs: Seq<(ImageLayout, ImageLayout)>) -> bool {
    &&& connected(pairs)
    &&& pairs.len() > 0 ==> pairs[0].0 == first
}

/// The layout an image is in after the transitions `pairs`, when it was in
/// `first` before them.
pub open spec fn layout_after(first: ImageLayout, pairs: Seq<(ImageLayout, ImageLayout)>) -> ImageLayout {
    if pairs.len() == 0 {
        first
    } else {
        pairs.last().1
    }
}

/// One more command adds at most one transition of `image`: its own, if it is
/// a barrier on `image`.
pub proof fn lemma_transitions_push(commands: Seq<Command>, command: Command, image: u64)
    ensures
        transitions_of(commands.push(command), image) == match command {
            Command::PipelineBarrier { barrier } => if barrier.image == image {
                transitions_of(commands, image).push((barrier.old_layout, barrier.new_layout))
            } else {
                transitions_of(commands, image)
            },
            _ => transitions_of(commands, image),
        },
{
    assert(commands.push(command).drop_last() =~= commands);
}

/// The transitions of an image in two recordings put together are its
/// transitions in the first, followed by those in the second.
pub proof fn lemma_transitions_concat(first: Seq<Command>, second: Seq<Command>, image: u64)
    ensures
        transitions_of(first + second, image) == transitions_of(first, image) + transitions_of(
            second,
            image,
        ),
    decreases second.len(),
{
    if second.len() == 0 {
        assert(first + second =~= first);
        assert(transitions_of(first, image) + transitions_of(second, image) =~= transitions_of(
            first,
            image,
        ));
    } else {
        let init = second.drop_last();
        lemma_transitions_concat(first, init, image);
        assert(first + second =~= (first + init).push(second.last()));
        assert(second =~= init.push(second.last()));
        lemma_transitions_push(first + init, second.last(), image);
        lemma_transitions_push(init, second.last(), image);
        let joined = transitions_of(first, image) + transitions_of(init, image);
        match second.last() {
            Command::PipelineBarrier { barrier } => {
                if barrier.image == image {
                    let pair = (barrier.old_layout, barrier.new_layout);
                    assert(joined.push(pair) =~= transitions_of(first, image) + transitions_of(
                        init,
                        image,
                    ).push(pair));
                }
            },
            _ => {},
        }
    }
}

/// A chain stays a chain when a transition that leaves the chain's last
/// layout is put behind it.
pub proof fn lemma_chain_extends(
    first: ImageLayout,
    pairs: Seq<(ImageLayout, ImageLayout)>,
    old_layout: ImageLayout,
    new_layout: ImageLayout,
)
    requires
        chain_from(first, pairs),
        old_layout == layout_after(first, pairs),
    ensures
        chain_from(first, pairs.push((old_layout, new_layout))),
        layout_after(first, pairs.push((old_layout, new_layout))) == new_layout,
{
}

} // verus!
