//! The bring-up as a sequence of steps: what is done next, what each step
//! leaves behind, and what its failure means. The caller performs each step
//! and reports how it ended.

use vstd::prelude::*;

use crate::error::{failure_of, BootstrapError};
use crate::lifetime::{
    can_register,
    creation_order,
    has_kind,
    lemma_creation_order_is_accepted,
    lemma_creation_order_places,
    teardown_sequence,
    LifetimeManager,
    Resource,
    ResourceKind,
};
use crate::pipeline::ShaderStage;

verus! {

/// One step of the bring-up.
#[derive(Clone, Copy, Debug, PartialEq, Eq)]
pub enum Step {
    CreateInstance,
    CreateSurface,
    PickPhysicalDevice,
    CreateLogicalDevice,
    SetupDebugUtils,
    CreateSwapchain,
    /// Create the view on the swapchain image of the given index.
    CreateImageView(u32),
    CreateRenderPass,
    /// Read the compiled shader of the given stage.
    ReadShaderCode(ShaderStage),
    CreateShaderModule(ShaderStage),
    CreatePipelineLayout,
    CreateGraphicsPipeline,
    DestroyShaderModule(ShaderStage),
    /// Create the framebuffer on the image view of the given index.
    CreateFramebuffer(u32),
}

/// How a step ended.
#[derive(Clone, Copy, Debug, PartialEq, Eq)]
pub enum Outcome {
    /// An object was created that stays until the teardown.
    Created(u64),
    /// The swapchain was created, and holds so many images.
    SwapchainCreated { handle: u64, image_count: u32 },
    /// The step is done and leaves nothing to destroy at the teardown.
    Done,
}

/// The progress of the bring-up, and the objects it has created.
pub struct Bootstrap {
    lifetime: LifetimeManager,
    done: u64,
    images: u32,
}

impl Step {
    /// The kind of object that the step leaves behind, if it leaves one.
    pub open spec fn creates(self) -> Option<ResourceKind> {
        match self {
            Step::CreateInstance => Some(ResourceKind::Instance),
            Step::CreateSurface => Some(ResourceKind::Surface),
            Step::PickPhysicalDevice => None,
            Step::CreateLogicalDevice => Some(ResourceKind::LogicalDevice),
            Step::SetupDebugUtils => Some(ResourceKind::DebugMessenger),
            Step::CreateSwapchain => Some(ResourceKind::Swapchain),
            Step::CreateImageView(_) => Some(ResourceKind::ImageView),
            Step::CreateRenderPass => Some(ResourceKind::RenderPass),
            Step::ReadShaderCode(_) => None,
            Step::CreateShaderModule(_) => None,
            Step::CreatePipelineLayout => Some(ResourceKind::PipelineLayout),
            Step::CreateGraphicsPipeline => Some(ResourceKind::GraphicsPipeline),
            Step::DestroyShaderModule(_) => None,
            Step::CreateFramebuffer(_) => Some(ResourceKind::Framebuffer),
        }
    }

    /// The error that a failure of the step stands for.
    pub open spec fn failure(self) -> BootstrapError {
        match self {
            Step::PickPhysicalDevice => BootstrapError::NoSuitableDevice,
            Step::ReadShaderCode(_) => BootstrapError::ShaderLoadFailed,
            Step::CreateShaderModule(_) => BootstrapError::PipelineCreationFailed,
            Step::DestroyShaderModule(_) => BootstrapError::PipelineCreationFailed,
            _ => failure_of(self.creates().unwrap()),
        }
    }

    /// The kind of object that the step leaves behind, if it leaves one.
    pub fn created_kind(self) -> (r: Option<ResourceKind>)
        ensures
            r == self.creates(),
    {
        match self {
            Step::CreateInstance => Some(ResourceKind::Instance),
            Step::CreateSurface => Some(ResourceKind::Surface),
            Step::PickPhysicalDevice => None,
            Step::CreateLogicalDevice => Some(ResourceKind::LogicalDevice),
            Step::SetupDebugUtils => Some(ResourceKind::DebugMessenger),
            Step::CreateSwapchain => Some(ResourceKind::Swapchain),
            Step::CreateImageView(_) => Some(ResourceKind::ImageView),
            Step::CreateRenderPass => Some(ResourceKind::RenderPass),
            Step::ReadShaderCode(_) => None,
            Step::CreateShaderModule(_) => None,
            Step::CreatePipelineLayout => Some(ResourceKind::PipelineLayout),
            Step::CreateGraphicsPipeline => Some(ResourceKind::GraphicsPipeline),
            Step::DestroyShaderModule(_) => None,
            Step::CreateFramebuffer(_) => Some(ResourceKind::Framebuffer),
        }
    }

    /// The error to give up with when the step fails.
    pub fn failed(self) -> (r: BootstrapError)
        ensures
            r == self.failure(),
    {
        match self {
            Step::PickPhysicalDevice => BootstrapError::NoSuitableDevice,
            Step::ReadShaderCode(_) => BootstrapError::ShaderLoadFailed,
            Step::CreateShaderModule(_) => BootstrapError::PipelineCreationFailed,
            Step::DestroyShaderModule(_) => BootstrapError::PipelineCreationFailed,
            _ => match self.created_kind() {
                Some(kind) => BootstrapError::creation_failed(kind),
                None => BootstrapError::ResourceCreationFailed,
            },
        }
    }
}

/// The steps of the bring-up in their order, for a swapchain of `images`
/// images. The shader modules live from after the render pass to right after
/// the pipeline.
pub open spec fn bring_up_steps(images: nat) -> Seq<Step> {
    seq![
        Step::CreateInstance,
        Step::CreateSurface,
        Step::PickPhysicalDevice,
        Step::CreateLogicalDevice,
        Step::SetupDebugUtils,
        Step::CreateSwapchain,
    ] + Seq::new(images, |i: int| Step::CreateImageView(i as u32)) + seq![
        Step::CreateRenderPass,
        Step::ReadShaderCode(ShaderStage::Vertex),
        Step::ReadShaderCode(ShaderStage::Fragment),
        Step::CreateShaderModule(ShaderStage::Vertex),
        Step::CreateShaderModule(ShaderStage::Fragment),
        Step::CreatePipelineLayout,
        Step::CreateGraphicsPipeline,
        Step::DestroyShaderModule(ShaderStage::Vertex),
        Step::DestroyShaderModule(ShaderStage::Fragment),
    ] + Seq::new(images, |i: int| Step::CreateFramebuffer(i as u32))
}

/// The kinds of the objects that the first `done` steps leave behind, in the
/// order of their creation.
pub open spec fn kinds_created(images: nat, done: int) -> Seq<ResourceKind> {
    bring_up_steps(images).take(done).filter_map(|step: Step| step.creates())
}

/// The kinds of the given objects, in the same order.
pub open spec fn kinds_of(live: Seq<Resource>) -> Seq<ResourceKind> {
    live.map_values(|resource: Resource| resource.kind)
}

/// The outcome is one that the step can have: the swapchain step reports
/// the swapchain with its images, any other step that leaves an object
/// behind reports that object, and the remaining steps report nothing.
pub open spec fn fits(step: Step, outcome: Outcome) -> bool {
    match outcome {
        Outcome::SwapchainCreated { .. } => step == Step::CreateSwapchain,
        Outcome::Created(_) => step.creates().is_some() && step != Step::CreateSwapchain,
        Outcome::Done => step.creates().is_none(),
    }
}

/// The object that a step with the given outcome leaves behind.
pub open spec fn left_behind(step: Step, outcome: Outcome) -> Option<Resource> {
    match (step.creates(), outcome) {
        (Some(kind), Outcome::Created(handle)) => Some(Resource { kind, handle }),
        (Some(kind), Outcome::SwapchainCreated { handle, .. }) => Some(Resource { kind, handle }),
        _ => None,
    }
}

/// The step at `place` among the steps for `images` images, if there is one.
pub open spec fn step_at(images: nat, place: nat) -> Option<Step> {
    if place < bring_up_steps(images).len() {
        Some(bring_up_steps(images)[place as int])
    } else {
        None
    }
}

impl Bootstrap {
    /// The number of steps that are done.
    pub closed spec fn steps_done(&self) -> nat {
        self.done as nat
    }

    /// The number of swapchain images; zero as long as there is no
    /// swapchain.
    pub closed spec fn images(&self) -> nat {
        self.images as nat
    }

    /// The objects that are alive, in the order of their creation.
    pub closed spec fn live(&self) -> Seq<Resource> {
        self.lifetime@
    }

    /// The step to perform next, if the bring-up is not complete.
    pub open spec fn pending(&self) -> Option<Step> {
        step_at(self.images(), self.steps_done())
    }

    /// The objects alive are those that the steps done have left behind.
    pub open spec fn well_formed(&self) -> bool {
        &&& self.steps_done() <= bring_up_steps(self.images()).len()
        &&& self.steps_done() <= 5 ==> self.images() == 0
        &&& kinds_of(self.live()) == kinds_created(self.images(), self.steps_done() as int)
    }

    /// A bring-up of which no step is done.
    pub fn new() -> (r: Self)
        ensures
            r.steps_done() == 0,
            r.images() == 0,
            r.live() == Seq::<Resource>::empty(),
            r.well_formed(),
    {
        let r = Bootstrap { lifetime: LifetimeManager::new(), done: 0, images: 0 };
        proof {
            assert(bring_up_steps(0).take(0) == Seq::<Step>::empty());
            assert(kinds_of(r.live()) == kinds_created(0, 0));
        }
        r
    }

    /// The step to perform next; nothing once the bring-up is complete.
    pub fn next_step(&self) -> (r: Option<Step>)
        ensures
            r == self.pending(),
    {
        proof {
            lemma_step_places(self.images as nat);
        }
        let done: u64 = self.done;
        let views: u64 = self.images as u64;
        if done < 6 {
            if done == 0 {
                Some(Step::CreateInstance)
            } else if done == 1 {
                Some(Step::CreateSurface)
            } else if done == 2 {
                Some(Step::PickPhysicalDevice)
            } else if done == 3 {
                Some(Step::CreateLogicalDevice)
            } else if done == 4 {
                Some(Step::SetupDebugUtils)
            } else {
                Some(Step::CreateSwapchain)
            }
        } else if done < 6 + views {
            Some(Step::CreateImageView((done - 6) as u32))
        } else if done < 15 + views {
            let place: u64 = done - 6 - views;
            if place == 0 {
                Some(Step::CreateRenderPass)
            } else if place == 1 {
                Some(Step::ReadShaderCode(ShaderStage::Vertex))
            } else if place == 2 {
                Some(Step::ReadShaderCode(ShaderStage::Fragment))
            } else if place == 3 {
                Some(Step::CreateShaderModule(ShaderStage::Vertex))
            } else if place == 4 {
                Some(Step::CreateShaderModule(ShaderStage::Fragment))
            } else if place == 5 {
                Some(Step::CreatePipelineLayout)
            } else if place == 6 {
                Some(Step::CreateGraphicsPipeline)
            } else if place == 7 {
                Some(Step::DestroyShaderModule(ShaderStage::Vertex))
            } else {
                Some(Step::DestroyShaderModule(ShaderStage::Fragment))
            }
        } else if done < 15 + 2 * views {
            Some(Step::CreateFramebuffer((done - 15 - views) as u32))
        } else {
            None
        }
    }

    /// Whether an object of `kind` is alive.
    pub fn is_live(&self, kind: ResourceKind) -> (r: bool)
        ensures
            r == has_kind(self.live(), kind),
    {
        self.lifetime.is_live(kind)
    }

    /// Takes note of how the pending step ended, and moves on to the next
    /// one. The outcome is refused, and nothing changes, where no step is
    /// pending, where the pending step cannot end so, or where the object
    /// reported cannot have been created now. The last never happens to a
    /// bring-up that went step by step.
    pub fn complete(&mut self, outcome: Outcome) -> (accepted: bool)
        ensures
            accepted == (old(self).pending() matches Some(step) && fits(step, outcome) && (
            step.creates() matches Some(kind) ==> can_register(old(self).live(), kind))),
            accepted ==> {
                &&& final(self).steps_done() == old(self).steps_done() + 1
                &&& final(self).images() == match outcome {
                    Outcome::SwapchainCreated { image_count, .. } => image_count as nat,
                    _ => old(self).images(),
                }
                &&& final(self).live() == match left_behind(
                    old(self).pending().unwrap(),
                    outcome,
                ) {
                    Some(resource) => old(self).live().push(resource),
                    None => old(self).live(),
                }
            },
            !accepted ==> {
                &&& final(self).steps_done() == old(self).steps_done()
                &&& final(self).images() == old(self).images()
                &&& final(self).live() == old(self).live()
            },
            old(self).well_formed() ==> final(self).well_formed(),
            old(self).well_formed() ==> accepted == (old(self).pending() matches Some(step)
                && fits(step, outcome)),
    {
        proof {
            if self.well_formed() && self.pending().is_some()
                && self.pending().unwrap().creates().is_some() {
                lemma_pending_step_is_accepted(
                    self.images(),
                    self.steps_done() as int,
                    self.live(),
                );
            }
        }
        let step = match self.next_step() {
            Some(step) => step,
            None => {
                return false;
            },
        };
        proof {
            lemma_step_places(self.images as nat);
        }
        match (step.created_kind(), outcome) {
            (None, Outcome::Done) => {
                proof {
                    lemma_step_done(self.images as nat, self.done as int);
                }
                self.done = self.done + 1;
                true
            },
            (Some(kind), Outcome::Created(handle)) => {
                if self.done == 5 {
                    return false;
                }
                if !self.lifetime.register(kind, handle) {
                    return false;
                }
                proof {
                    lemma_step_done(self.images as nat, self.done as int);
                    assert(kinds_of(old(self).live().push(Resource { kind, handle })) == kinds_of(
                        old(self).live(),
                    ).push(kind));
                }
                self.done = self.done + 1;
                true
            },
            (Some(kind), Outcome::SwapchainCreated { handle, image_count }) => {
                if self.done != 5 {
                    return false;
                }
                if !self.lifetime.register(kind, handle) {
                    return false;
                }
                proof {
                    if old(self).well_formed() {
                        lemma_head_is_fixed(image_count as nat);
                        lemma_head_is_fixed(0);
                        lemma_step_places(image_count as nat);
                        lemma_step_done(image_count as nat, 5);
                    }
                    assert(kinds_of(old(self).live().push(Resource { kind, handle })) == kinds_of(
                        old(self).live(),
                    ).push(kind));
                }
                self.images = image_count;
                self.done = self.done + 1;
                true
            },
            _ => false,
        }
    }

    /// Gives up everything that is alive: returns the objects in the order
    /// in which they have to be destroyed, and starts over with no step
    /// done. This is the way out of a bring-up that is complete and of one
    /// that stopped at any step.
    pub fn teardown(&mut self) -> (steps: Vec<Resource>)
        ensures
            steps@ == teardown_sequence(old(self).live()),
            final(self).steps_done() == 0,
            final(self).images() == 0,
            final(self).live() == Seq::<Resource>::empty(),
            final(self).well_formed(),
    {
        let steps = self.lifetime.teardown();
        self.done = 0;
        self.images = 0;
        proof {
            assert(bring_up_steps(0).take(0) == Seq::<Step>::empty());
            assert(kinds_of(self.live()) == kinds_created(0, 0));
        }
        steps
    }
}

/// Where each step stands among the steps of the bring-up.
pub proof fn lemma_step_places(images: nat)
    ensures
        bring_up_steps(images).len() == 15 + 2 * images,
        bring_up_steps(images)[0] == Step::CreateInstance,
        bring_up_steps(images)[1] == Step::CreateSurface,
        bring_up_steps(images)[2] == Step::PickPhysicalDevice,
        bring_up_steps(images)[3] == Step::CreateLogicalDevice,
        bring_up_steps(images)[4] == Step::SetupDebugUtils,
        bring_up_steps(images)[5] == Step::CreateSwapchain,
        forall|i: int|
            6 <= i < 6 + images ==> #[trigger] bring_up_steps(images)[i] == Step::CreateImageView(
                (i - 6) as u32,
            ),
        bring_up_steps(images)[6 + images as int] == Step::CreateRenderPass,
        bring_up_steps(images)[7 + images as int] == Step::ReadShaderCode(ShaderStage::Vertex),
        bring_up_steps(images)[8 + images as int] == Step::ReadShaderCode(ShaderStage::Fragment),
        bring_up_steps(images)[9 + images as int] == Step::CreateShaderModule(ShaderStage::Vertex),
        bring_up_steps(images)[10 + images as int] == Step::CreateShaderModule(
            ShaderStage::Fragment,
        ),
        bring_up_steps(images)[11 + images as int] == Step::CreatePipelineLayout,
        bring_up_steps(images)[12 + images as int] == Step::CreateGraphicsPipeline,
        bring_up_steps(images)[13 + images as int] == Step::DestroyShaderModule(
            ShaderStage::Vertex,
        ),
        bring_up_steps(images)[14 + images as int] == Step::DestroyShaderModule(
            ShaderStage::Fragment,
        ),
        forall|i: int|
            15 + images <= i < 15 + 2 * images ==> #[trigger] bring_up_steps(images)[i]
                == Step::CreateFramebuffer((i - 15 - images) as u32),
{
    let steps = bring_up_steps(images);
    let views = images as int;
    assert(steps.len() == 15 + 2 * views);
    assert forall|i: int| 6 <= i < 6 + views implies #[trigger] steps[i] == Step::CreateImageView(
        (i - 6) as u32,
    ) by {}
    assert(steps[6 + views] == Step::CreateRenderPass);
    assert(steps[7 + views] == Step::ReadShaderCode(ShaderStage::Vertex));
    assert(steps[8 + views] == Step::ReadShaderCode(ShaderStage::Fragment));
    assert(steps[9 + views] == Step::CreateShaderModule(ShaderStage::Vertex));
    assert(steps[10 + views] == Step::CreateShaderModule(ShaderStage::Fragment));
    assert(steps[11 + views] == Step::CreatePipelineLayout);
    assert(steps[12 + views] == Step::CreateGraphicsPipeline);
    assert(steps[13 + views] == Step::DestroyShaderModule(ShaderStage::Vertex));
    assert(steps[14 + views] == Step::DestroyShaderModule(ShaderStage::Fragment));
    assert forall|i: int| 15 + views <= i < 15 + 2 * views implies #[trigger] steps[i]
        == Step::CreateFramebuffer((i - 15 - views) as u32) by {}
}

/// The steps up to the swapchain are the same whatever the number of
/// images, and so is what they leave behind.
proof fn lemma_head_is_fixed(images: nat)
    ensures
        kinds_created(images, 5) == seq![
            ResourceKind::Instance,
            ResourceKind::Surface,
            ResourceKind::LogicalDevice,
            ResourceKind::DebugMessenger,
        ],
{
    lemma_step_places(images);
    lemma_creation_order_places(images);
    lemma_kinds_created(images, 5);
    assert(creation_order(images).take(4) == seq![
        ResourceKind::Instance,
        ResourceKind::Surface,
        ResourceKind::LogicalDevice,
        ResourceKind::DebugMessenger,
    ]);
}

/// The number of objects that the first `done` steps leave behind.
spec fn created_count(images: int, done: int) -> int {
    if done <= 2 {
        done
    } else if done <= 7 + images {
        done - 1
    } else if done <= 11 + images {
        6 + images
    } else if done <= 13 + images {
        done - 5
    } else if done <= 15 + images {
        8 + images
    } else {
        done - 7
    }
}

/// What the first `done` steps leave behind is the beginning of the
/// creation order.
proof fn lemma_kinds_created(images: nat, done: int)
    requires
        0 <= done <= bring_up_steps(images).len(),
    ensures
        0 <= created_count(images as int, done) <= creation_order(images).len(),
        kinds_created(images, done) == creation_order(images).take(
            created_count(images as int, done),
        ),
    decreases done,
{
    let steps = bring_up_steps(images);
    let order = creation_order(images);
    let views = images as int;
    lemma_step_places(images);
    lemma_creation_order_places(images);
    if done == 0 {
        assert(steps.take(0) == Seq::<Step>::empty());
        assert(kinds_created(images, 0) == order.take(0));
    } else {
        let last = done - 1;
        lemma_kinds_created(images, last);
        steps.lemma_filter_map_take_succ(|step: Step| step.creates(), last);
        let before = created_count(views, last);
        let step = steps[last];
        if last < 6 {
        } else if last < 6 + views {
            assert(step == Step::CreateImageView((last - 6) as u32));
        } else if last < 15 + views {
        } else {
            assert(step == Step::CreateFramebuffer((last - 15 - views) as u32));
        }
        match step.creates() {
            Some(kind) => {
                assert(created_count(views, done) == before + 1);
                assert(order[before] == kind);
                assert(order.take(before + 1) == order.take(before) + seq![kind]);
            },
            None => {
                assert(created_count(views, done) == before);
                assert(order.take(before) + Seq::<ResourceKind>::empty() == order.take(before));
            },
        }
    }
}

/// One more step done leaves behind what the steps before it left, and the
/// object of that step where it has one.
proof fn lemma_step_done(images: nat, done: int)
    requires
        0 <= done < bring_up_steps(images).len(),
    ensures
        kinds_created(images, done + 1) == match bring_up_steps(images)[done].creates() {
            Some(kind) => kinds_created(images, done).push(kind),
            None => kinds_created(images, done),
        },
{
    let steps = bring_up_steps(images);
    steps.lemma_filter_map_take_succ(|step: Step| step.creates(), done);
    match steps[done].creates() {
        Some(kind) => {
            assert(kinds_created(images, done) + seq![kind] == kinds_created(images, done).push(
                kind,
            ));
        },
        None => {
            assert(kinds_created(images, done) + Seq::<ResourceKind>::empty() == kinds_created(
                images,
                done,
            ));
        },
    }
}

/// In a bring-up whose live objects are those that its steps have left
/// behind, the object of the pending step can be created: no step comes
/// before what it builds on.
pub proof fn lemma_pending_step_is_accepted(images: nat, done: int, live: Seq<Resource>)
    requires
        0 <= done < bring_up_steps(images).len(),
        kinds_of(live) == kinds_created(images, done),
        bring_up_steps(images)[done].creates().is_some(),
    ensures
        can_register(live, bring_up_steps(images)[done].creates().unwrap()),
{
    let order = creation_order(images);
    let count = created_count(images as int, done);
    lemma_kinds_created(images, done);
    lemma_kinds_created(images, done + 1);
    lemma_step_done(images, done);
    let kind = bring_up_steps(images)[done].creates().unwrap();
    assert(kinds_created(images, done).len() == count);
    assert(kinds_created(images, done + 1).len() == count + 1);
    assert(kinds_created(images, done + 1)[count] == kind);
    assert(order.take(created_count(images as int, done + 1))[count] == order[count]);
    assert(live.len() == count) by {
        assert(kinds_of(live).len() == live.len());
    }
    assert forall|i: int| 0 <= i < live.len() implies (#[trigger] live[i]).kind == order[i] by {
        assert(kinds_of(live)[i] == live[i].kind);
        assert(order.take(count)[i] == order[i]);
    }
    lemma_creation_order_is_accepted(images, live);
}

/// A complete bring-up has created the objects of the creation order, and
/// nothing else is alive.
pub proof fn lemma_complete_bring_up(images: nat, live: Seq<Resource>)
    requires
        kinds_of(live) == kinds_created(images, bring_up_steps(images).len() as int),
    ensures
        kinds_of(live) == creation_order(images),
        live.len() == 8 + 2 * images,
{
    lemma_step_places(images);
    lemma_creation_order_places(images);
    lemma_kinds_created(images, bring_up_steps(images).len() as int);
    assert(creation_order(images).take(creation_order(images).len() as int) == creation_order(
        images,
    ));
    assert(kinds_of(live).len() == live.len());
}

/// The shader modules are short-lived: nothing is done between the creation
/// of the pipeline and the destruction of the two modules, and both are read
/// and created only once the render pass stands.
pub proof fn lemma_shader_modules_are_short_lived(images: nat, place: int)
    requires
        0 <= place < bring_up_steps(images).len(),
        bring_up_steps(images)[place] == Step::CreateGraphicsPipeline,
    ensures
        place + 2 < bring_up_steps(images).len(),
        bring_up_steps(images)[place + 1] == Step::DestroyShaderModule(ShaderStage::Vertex),
        bring_up_steps(images)[place + 2] == Step::DestroyShaderModule(ShaderStage::Fragment),
        place >= 6,
        bring_up_steps(images)[place - 6] == Step::CreateRenderPass,
        bring_up_steps(images)[place - 3] == Step::CreateShaderModule(ShaderStage::Vertex),
        bring_up_steps(images)[place - 2] == Step::CreateShaderModule(ShaderStage::Fragment),
{
    lemma_step_places(images);
    let views = images as int;
    if place < 6 {
    } else if place < 6 + views {
        assert(bring_up_steps(images)[place] == Step::CreateImageView((place - 6) as u32));
    } else if place < 15 + views {
    } else {
        assert(bring_up_steps(images)[place] == Step::CreateFramebuffer(
            (place - 15 - views) as u32,
        ));
    }
}

} // verus!
