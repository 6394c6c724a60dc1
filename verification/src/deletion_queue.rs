//! Deferred destruction of GPU resources.
//!
//! A resource is never freed on the spot: work that still reads it may be in
//! flight. Its destruction is registered as an action, and the queue hands
//! the actions back, last registered first, once the device is known to be
//! idle.

use vstd::prelude::*;

verus! {

/// One call made while resources are torn down. All but the first two
/// release one native object each.
#[derive(Clone, Copy, Debug, PartialEq, Eq, Structural)]
pub enum DeviceOp {
    /// Blocks until the device has retired all submitted work.
    WaitIdle,
    /// Releases what the overlay's renderer holds.
    DropOverlay,
    DestroyImageView { view: u64 },
    DestroyImage { image: u64 },
    FreeAllocation { allocation: u64 },
    DestroyDescriptorPool { pool: u64 },
    DestroyDescriptorSetLayout { layout: u64 },
    DestroyPipelineLayout { layout: u64 },
    DestroyPipeline { pipeline: u64 },
    DestroyCommandPool { pool: u64 },
    DestroyFence { fence: u64 },
    DestroySemaphore { semaphore: u64 },
    DestroySwapchain { swapchain: u64 },
    DestroySurface { surface: u64 },
    DestroyDevice,
    DestroyInstance,
}

/// A registered destruction: the objects that go together, and so the calls
/// that one flush step makes.
#[derive(Clone, Debug, PartialEq, Eq)]
pub enum DestroyAction {
    /// A view over an image that somebody else owns.
    FreeView { view: u64 },
    /// An image with its view and the memory behind it.
    FreeImage { view: u64, image: u64, allocation: u64 },
    /// A descriptor pool and the set layout its sets were allocated with.
    FreeDescriptors { pool: u64, layout: u64 },
    /// A pipeline layout and the pipelines built on it.
    FreePipelines { layout: u64, pipelines: Vec<u64> },
}

/// The calls that destroy `pipelines`, in their order.
pub open spec fn pipeline_ops(pipelines: Seq<u64>) -> Seq<DeviceOp> {
    Seq::new(pipelines.len(), |i: int| DeviceOp::DestroyPipeline { pipeline: pipelines[i] })
}

impl DestroyAction {
    /// The calls that carry the action out, in the order they are made. A
    /// view goes before its image, an image before its memory.
    pub open spec fn ops(self) -> Seq<DeviceOp> {
        match self {
            DestroyAction::FreeView { view } => seq![DeviceOp::DestroyImageView { view }],
            DestroyAction::FreeImage { view, image, allocation } => seq![
                DeviceOp::DestroyImageView { view },
                DeviceOp::DestroyImage { image },
                DeviceOp::FreeAllocation { allocation },
            ],
            DestroyAction::FreeDescriptors { pool, layout } => seq![
                DeviceOp::DestroyDescriptorPool { pool },
                DeviceOp::DestroyDescriptorSetLayout { layout },
            ],
            DestroyAction::FreePipelines { layout, pipelines } => seq![
                DeviceOp::DestroyPipelineLayout { layout },
            ] + pipeline_ops(pipelines@),
        }
    }

    /// The calls that carry the action out, in the order they are made.
    pub fn steps(&self) -> (steps: Vec<DeviceOp>)
        ensures
            steps@ == self.ops(),
    {
        let mut steps: Vec<DeviceOp> = Vec::new();
        match self {
            DestroyAction::FreeView { view } => {
                steps.push(DeviceOp::DestroyImageView { view: *view });
                assert(steps@ =~= self.ops());
            },
            DestroyAction::FreeImage { view, image, allocation } => {
                steps.push(DeviceOp::DestroyImageView { view: *view });
                steps.push(DeviceOp::DestroyImage { image: *image });
                steps.push(DeviceOp::FreeAllocation { allocation: *allocation });
                assert(steps@ =~= self.ops());
            },
            DestroyAction::FreeDescriptors { pool, layout } => {
                steps.push(DeviceOp::DestroyDescriptorPool { pool: *pool });
                steps.push(DeviceOp::DestroyDescriptorSetLayout { layout: *layout });
                assert(steps@ =~= self.ops());
            },
            DestroyAction::FreePipelines { layout, pipelines } => {
                steps.push(DeviceOp::DestroyPipelineLayout { layout: *layout });
                let mut i: usize = 0;
                while i < pipelines.len()
                    invariant
                        i <= pipelines.len(),
                        steps@.len() == i + 1,
                        steps@[0] == (DeviceOp::DestroyPipelineLayout { layout: *layout }),
                        forall|k: int|
                            0 <= k < i ==> steps@[k + 1] == (DeviceOp::DestroyPipeline {
                                pipeline: pipelines@[k],
                            }),
                    decreases pipelines.len() - i,
                {
                    steps.push(DeviceOp::DestroyPipeline { pipeline: pipelines[i] });
                    i += 1;
                }
                assert(steps@ =~= self.ops());
            },
        }
        steps
    }
}

/// What a flush hands over when `actions` are registered, oldest first: the
/// same actions, last registered first.
pub open spec fn flush_order(actions: Seq<DestroyAction>) -> Seq<DestroyAction> {
    actions.reverse()
}

/// The registered destructions, oldest first.
pub struct DeletionQueue {
    deletors: Vec<DestroyAction>,
}

impl View for DeletionQueue {
    type V = Seq<DestroyAction>;

    closed spec fn view(&self) -> Seq<DestroyAction> {
        self.deletors@
    }
}

impl DeletionQueue {
    /// A queue with nothing registered.
    pub fn new() -> (queue: DeletionQueue)
        ensures
            queue@ == Seq::<DestroyAction>::empty(),
    {
        DeletionQueue { deletors: Vec::new() }
    }

    /// Number of registered actions.
    pub fn len(&self) -> (n: usize)
        ensures
            n == self@.len(),
    {
        self.deletors.len()
    }

    /// Registers `action` behind everything registered before.
    pub fn push(&mut self, action: DestroyAction)
        ensures
            final(self)@ == old(self)@.push(action),
    {
        self.deletors.push(action);
    }

    /// Takes every action off the queue and hands them over in the order in
    /// which they are to be carried out: the last registered first. The queue
    /// is empty afterwards.
    pub fn flush(&mut self) -> (order: Vec<DestroyAction>)
        ensures
            order@ == flush_order(old(self)@),
            final(self)@ == Seq::<DestroyAction>::empty(),
    {
        let mut order: Vec<DestroyAction> = Vec::new();
        let ghost before = self.deletors@;
        while self.deletors.len() > 0
            invariant
                self.deletors@.len() + order@.len() == before.len(),
                self.deletors@ == before.take(self.deletors@.len() as int),
                forall|k: int|
                    0 <= k < order@.len() ==> order@[k] == before[before.len() - 1 - k],
            decreases self.deletors@.len(),
        {
            let last = self.deletors.pop();
            match last {
                Some(action) => {
                    order.push(action);
                },
                None => {},
            }
        }
        assert(order@ =~= before.reverse());
        assert(self.deletors@ =~= Seq::<DestroyAction>::empty());
        order
    }
}

/// The calls that carry out `actions` one after the other, first to last.
pub open spec fn all_ops(actions: Seq<DestroyAction>) -> Seq<DeviceOp>
    decreases actions.len(),
{
    if actions.len() == 0 {
        Seq::empty()
    } else {
        all_ops(actions.drop_last()) + actions.last().ops()
    }
}

/// Puts the calls `more` behind `ops`.
pub fn append_ops(ops: &mut Vec<DeviceOp>, more: &Vec<DeviceOp>)
    ensures
        final(ops)@ == old(ops)@ + more@,
{
    let mut i: usize = 0;
    while i < more.len()
        invariant
            i <= more.len(),
            ops@ == old(ops)@ + more@.take(i as int),
        decreases more.len() - i,
    {
        ops.push(more[i]);
        assert(more@.take(i + 1) =~= more@.take(i as int).push(more@[i as int]));
        assert(ops@ =~= old(ops)@ + more@.take(i + 1));
        i += 1;
    }
    assert(more@.take(more.len() as int) =~= more@);
}

/// The calls that carry out `actions` one after the other, first to last.
pub fn steps_of(actions: &Vec<DestroyAction>) -> (ops: Vec<DeviceOp>)
    ensures
        ops@ == all_ops(actions@),
{
    let mut ops: Vec<DeviceOp> = Vec::new();
    let mut i: usize = 0;
    while i < actions.len()
        invariant
            i <= actions.len(),
            ops@ == all_ops(actions@.take(i as int)),
        decreases actions.len() - i,
    {
        let steps = actions[i].steps();
        append_ops(&mut ops, &steps);
        assert(actions@.take(i + 1).drop_last() =~= actions@.take(i as int));
        i += 1;
    }
    assert(actions@.take(actions.len() as int) =~= actions@);
    ops
}

/// Three registrations come back in the opposite order, and the first of the
/// three comes last.
pub proof fn lemma_flush_is_lifo(a: DestroyAction, b: DestroyAction, c: DestroyAction)
    ensures
        flush_order(Seq::empty().push(a).push(b).push(c)) == seq![c, b, a],
{
    let pushed = Seq::<DestroyAction>::empty().push(a).push(b).push(c);
    assert(pushed.reverse() =~= seq![c, b, a]);
}

/// Of any two registered actions the later one is carried out first.
pub proof fn lemma_later_goes_first(actions: Seq<DestroyAction>, i: int, j: int)
    requires
        0 <= i < j < actions.len(),
    ensures
        flush_order(actions)[actions.len() - 1 - j] == actions[j],
        flush_order(actions)[actions.len() - 1 - i] == actions[i],
        actions.len() - 1 - j < actions.len() - 1 - i,
{
}

/// A flush of a queue that was just flushed hands over nothing.
pub proof fn lemma_second_flush_is_empty()
    ensures
        flush_order(Seq::<DestroyAction>::empty()) == Seq::<DestroyAction>::empty(),
{
    assert(Seq::<DestroyAction>::empty().reverse() =~= Seq::<DestroyAction>::empty());
}

} // verus!
