//! Keeping track of what has been created, and destroying it in the one
//! order that is safe: nothing is destroyed before everything created from it
//! is gone.

use vstd::prelude::*;

verus! {

/// The kinds of object that the bring-up creates.
#[derive(Clone, Copy, Debug, PartialEq, Eq, Structural)]
pub enum ResourceKind {
    Framebuffer,
    GraphicsPipeline,
    PipelineLayout,
    RenderPass,
    ImageView,
    Swapchain,
    LogicalDevice,
    Surface,
    DebugMessenger,
    Instance,
}

/// An object that has been created, by its kind and its handle.
#[derive(Clone, Copy, Debug, PartialEq, Eq)]
pub struct Resource {
    pub kind: ResourceKind,
    pub handle: u64,
}

/// The objects that are alive, and the order in which they are destroyed.
pub struct LifetimeManager {
    live: Vec<Resource>,
}

/// The order in which the kinds are destroyed: framebuffers first, the
/// instance last.
pub open spec fn teardown_order() -> Seq<ResourceKind> {
    seq![
        ResourceKind::Framebuffer,
        ResourceKind::GraphicsPipeline,
        ResourceKind::PipelineLayout,
        ResourceKind::RenderPass,
        ResourceKind::ImageView,
        ResourceKind::Swapchain,
        ResourceKind::LogicalDevice,
        ResourceKind::Surface,
        ResourceKind::DebugMessenger,
        ResourceKind::Instance,
    ]
}

impl ResourceKind {
    /// The place of the kind in the teardown order.
    pub open spec fn teardown_rank(self) -> int {
        match self {
            ResourceKind::Framebuffer => 0,
            ResourceKind::GraphicsPipeline => 1,
            ResourceKind::PipelineLayout => 2,
            ResourceKind::RenderPass => 3,
            ResourceKind::ImageView => 4,
            ResourceKind::Swapchain => 5,
            ResourceKind::LogicalDevice => 6,
            ResourceKind::Surface => 7,
            ResourceKind::DebugMessenger => 8,
            ResourceKind::Instance => 9,
        }
    }

    /// An object of this kind is created from one of kind `parent`, and so
    /// has to be destroyed before it.
    pub open spec fn created_from(self, parent: ResourceKind) -> bool {
        match self {
            ResourceKind::Instance => false,
            ResourceKind::DebugMessenger => parent == ResourceKind::Instance,
            ResourceKind::Surface => parent == ResourceKind::Instance,
            ResourceKind::LogicalDevice => parent == ResourceKind::Instance,
            ResourceKind::Swapchain => parent == ResourceKind::LogicalDevice || parent
                == ResourceKind::Surface,
            ResourceKind::ImageView => parent == ResourceKind::LogicalDevice || parent
                == ResourceKind::Swapchain,
            ResourceKind::RenderPass => parent == ResourceKind::LogicalDevice,
            ResourceKind::PipelineLayout => parent == ResourceKind::LogicalDevice,
            ResourceKind::GraphicsPipeline => parent == ResourceKind::LogicalDevice || parent
                == ResourceKind::RenderPass || parent == ResourceKind::PipelineLayout,
            ResourceKind::Framebuffer => parent == ResourceKind::LogicalDevice || parent
                == ResourceKind::ImageView || parent == ResourceKind::RenderPass,
        }
    }

    /// There can be several objects of this kind at a time: one image view
    /// and one framebuffer for each swapchain image.
    pub open spec fn many(self) -> bool {
        self == ResourceKind::ImageView || self == ResourceKind::Framebuffer
    }
}

/// Some object of `kind` is among `live`.
pub open spec fn has_kind(live: Seq<Resource>, kind: ResourceKind) -> bool {
    exists|i: int| 0 <= i < live.len() && (#[trigger] live[i]).kind == kind
}

/// The objects of `kind` among `live`, in the order of their creation.
pub open spec fn of_kind(live: Seq<Resource>, kind: ResourceKind) -> Seq<Resource> {
    live.filter(|resource: Resource| resource.kind == kind)
}

/// An object of `kind` can be created now: everything it is created from is
/// alive, and it is not a second one of a kind of which there is only one.
pub open spec fn can_register(live: Seq<Resource>, kind: ResourceKind) -> bool {
    &&& forall|parent: ResourceKind| #[trigger]
        kind.created_from(parent) ==> has_kind(live, parent)
    &&& kind.many() || !has_kind(live, kind)
}

/// `live`, in the order of creation, holds nothing that was created before
/// what it is created from, and no kind twice of which there is only one.
pub open spec fn well_formed(live: Seq<Resource>) -> bool {
    &&& forall|i: int, parent: ResourceKind|
        0 <= i < live.len() && #[trigger] live[i].kind.created_from(parent) ==> has_kind(
            live.take(i),
            parent,
        )
    &&& forall|i: int, j: int|
        0 <= i < j < live.len() && (#[trigger] live[i]).kind == (#[trigger] live[j]).kind
            ==> live[i].kind.many()
}

/// The order in which the bring-up creates its objects, for a swapchain of
/// `images` images: instance, surface, logical device, debug messenger and
/// swapchain; a view on each image; render pass, pipeline layout and
/// pipeline; a framebuffer on each view.
pub open spec fn creation_order(images: nat) -> Seq<ResourceKind> {
    seq![
        ResourceKind::Instance,
        ResourceKind::Surface,
        ResourceKind::LogicalDevice,
        ResourceKind::DebugMessenger,
        ResourceKind::Swapchain,
    ] + Seq::new(images, |i: int| ResourceKind::ImageView) + seq![
        ResourceKind::RenderPass,
        ResourceKind::PipelineLayout,
        ResourceKind::GraphicsPipeline,
    ] + Seq::new(images, |i: int| ResourceKind::Framebuffer)
}

/// The destruction steps for the first `count` kinds of the teardown order:
/// kind after kind, each kind's objects in the order of their creation.
pub open spec fn teardown_prefix(live: Seq<Resource>, count: int) -> Seq<Resource>
    decreases count,
{
    if count <= 0 || count > teardown_order().len() {
        Seq::empty()
    } else {
        teardown_prefix(live, count - 1) + of_kind(live, teardown_order()[count - 1])
    }
}

/// The destruction steps for everything in `live`.
pub open spec fn teardown_sequence(live: Seq<Resource>) -> Seq<Resource> {
    teardown_prefix(live, teardown_order().len() as int)
}

impl View for LifetimeManager {
    type V = Seq<Resource>;

    /// The objects that are alive, in the order of their creation.
    closed spec fn view(&self) -> Seq<Resource> {
        self.live@
    }
}

/// The kinds in the order in which they are destroyed.
pub fn teardown_kinds() -> (r: Vec<ResourceKind>)
    ensures
        r@ == teardown_order(),
{
    let mut kinds: Vec<ResourceKind> = Vec::new();
    kinds.push(ResourceKind::Framebuffer);
    kinds.push(ResourceKind::GraphicsPipeline);
    kinds.push(ResourceKind::PipelineLayout);
    kinds.push(ResourceKind::RenderPass);
    kinds.push(ResourceKind::ImageView);
    kinds.push(ResourceKind::Swapchain);
    kinds.push(ResourceKind::LogicalDevice);
    kinds.push(ResourceKind::Surface);
    kinds.push(ResourceKind::DebugMessenger);
    kinds.push(ResourceKind::Instance);
    assert(kinds@ =~= teardown_order());
    kinds
}

impl LifetimeManager {
    /// A manager with nothing alive.
    pub fn new() -> (r: Self)
        ensures
            r@ == Seq::<Resource>::empty(),
            well_formed(r@),
    {
        LifetimeManager { live: Vec::new() }
    }

    /// Whether an object of `kind` is alive.
    pub fn is_live(&self, kind: ResourceKind) -> (r: bool)
        ensures
            r == has_kind(self@, kind),
    {
        let mut i: usize = 0;
        while i < self.live.len()
            invariant
                i <= self.live.len(),
                forall|k: int| 0 <= k < i ==> (#[trigger] self.live@[k]).kind != kind,
            decreases self.live.len() - i,
        {
            if self.live[i].kind == kind {
                return true;
            }
            i += 1;
        }
        false
    }

    /// Whether an object of `kind` can be created now.
    pub fn accepts(&self, kind: ResourceKind) -> (r: bool)
        ensures
            r == can_register(self@, kind),
    {
        let instance = self.is_live(ResourceKind::Instance);
        let device = self.is_live(ResourceKind::LogicalDevice);
        let parents = match kind {
            ResourceKind::Instance => true,
            ResourceKind::DebugMessenger => instance,
            ResourceKind::Surface => instance,
            ResourceKind::LogicalDevice => instance,
            ResourceKind::Swapchain => device && self.is_live(ResourceKind::Surface),
            ResourceKind::ImageView => device && self.is_live(ResourceKind::Swapchain),
            ResourceKind::RenderPass => device,
            ResourceKind::PipelineLayout => device,
            ResourceKind::GraphicsPipeline => device && self.is_live(ResourceKind::RenderPass)
                && self.is_live(ResourceKind::PipelineLayout),
            ResourceKind::Framebuffer => device && self.is_live(ResourceKind::ImageView)
                && self.is_live(ResourceKind::RenderPass),
        };
        let several = match kind {
            ResourceKind::ImageView => true,
            ResourceKind::Framebuffer => true,
            _ => false,
        };
        proof {
            let live = self@;
            assert(parents == (forall|parent: ResourceKind| #[trigger]
                kind.created_from(parent) ==> has_kind(live, parent))) by {
                if parents {
                    assert forall|parent: ResourceKind| #[trigger]
                        kind.created_from(parent) implies has_kind(live, parent) by {}
                } else {
                    match kind {
                        ResourceKind::Instance => {},
                        ResourceKind::DebugMessenger | ResourceKind::Surface
                        | ResourceKind::LogicalDevice => {
                            assert(kind.created_from(ResourceKind::Instance));
                        },
                        _ => {
                            assert(kind.created_from(ResourceKind::LogicalDevice));
                            assert(ResourceKind::Swapchain.created_from(ResourceKind::Surface));
                            assert(ResourceKind::ImageView.created_from(ResourceKind::Swapchain));
                            assert(ResourceKind::GraphicsPipeline.created_from(
                                ResourceKind::RenderPass,
                            ));
                            assert(ResourceKind::GraphicsPipeline.created_from(
                                ResourceKind::PipelineLayout,
                            ));
                            assert(ResourceKind::Framebuffer.created_from(ResourceKind::ImageView));
                            assert(ResourceKind::Framebuffer.created_from(ResourceKind::RenderPass));
                        },
                    }
                }
            }
        }
        parents && (several || !self.is_live(kind))
    }

    /// Takes note of an object that has just been created. The object is
    /// refused, and nothing changes, where it cannot have been created now.
    pub fn register(&mut self, kind: ResourceKind, handle: u64) -> (accepted: bool)
        ensures
            accepted == can_register(old(self)@, kind),
            accepted ==> final(self)@ == old(self)@.push(Resource { kind, handle }),
            !accepted ==> final(self)@ == old(self)@,
            well_formed(old(self)@) ==> well_formed(final(self)@),
    {
        if !self.accepts(kind) {
            return false;
        }
        proof {
            if well_formed(self.live@) {
                lemma_register_keeps_order(self.live@, Resource { kind, handle });
            }
        }
        self.live.push(Resource { kind, handle });
        true
    }

    /// Gives up everything that is alive: returns the objects in the order
    /// in which they have to be destroyed, and keeps none of them. Called on
    /// a manager with nothing alive, it returns no step.
    pub fn teardown(&mut self) -> (steps: Vec<Resource>)
        ensures
            steps@ == teardown_sequence(old(self)@),
            final(self)@ == Seq::<Resource>::empty(),
            well_formed(final(self)@),
    {
        let kinds = teardown_kinds();
        let mut steps: Vec<Resource> = Vec::new();
        let mut position: usize = 0;
        while position < kinds.len()
            invariant
                position <= kinds.len(),
                kinds@ == teardown_order(),
                self.live@ == old(self).live@,
                steps@ == teardown_prefix(self.live@, position as int),
            decreases kinds.len() - position,
        {
            let kind = kinds[position];
            let ghost before = steps@;
            let mut i: usize = 0;
            while i < self.live.len()
                invariant
                    i <= self.live.len(),
                    self.live@ == old(self).live@,
                    steps@ == before + of_kind(self.live@.take(i as int), kind),
                decreases self.live.len() - i,
            {
                let resource = self.live[i];
                proof {
                    let seen = self.live@.take(i as int);
                    assert(self.live@.take(i + 1) == seen.push(resource));
                    seen.lemma_filter_push(resource, |r: Resource| r.kind == kind);
                }
                if resource.kind == kind {
                    steps.push(resource);
                }
                i += 1;
            }
            assert(self.live@.take(i as int) == self.live@);
            position += 1;
        }
        self.live = Vec::new();
        steps
    }
}

/// Creating an object that can be created now keeps the objects in an order
/// in which each comes after what it is created from.
pub proof fn lemma_register_keeps_order(live: Seq<Resource>, resource: Resource)
    requires
        well_formed(live),
        can_register(live, resource.kind),
    ensures
        well_formed(live.push(resource)),
{
    let next = live.push(resource);
    assert forall|i: int, parent: ResourceKind|
        0 <= i < next.len() && #[trigger] next[i].kind.created_from(parent) implies has_kind(
        next.take(i),
        parent,
    ) by {
        if i < live.len() {
            assert(next.take(i) == live.take(i));
            assert(live[i].kind.created_from(parent));
        } else {
            assert(next.take(i) == live);
        }
    }
    assert forall|i: int, j: int|
        0 <= i < j < next.len() && (#[trigger] next[i]).kind == (
        #[trigger] next[j]).kind implies next[i].kind.many() by {
        if j < live.len() {
            assert(live[i].kind == live[j].kind);
        } else {
            assert(live[i].kind == resource.kind);
        }
    }
}

/// A kind stands in the teardown order at the place that its rank gives.
pub proof fn lemma_rank_is_place(kind: ResourceKind)
    ensures
        0 <= kind.teardown_rank() < teardown_order().len(),
        teardown_order()[kind.teardown_rank()] == kind,
{
}

/// Whatever an object is created from comes later in the teardown order than
/// the object itself.
pub proof fn lemma_parent_ranks_higher(kind: ResourceKind, parent: ResourceKind)
    requires
        kind.created_from(parent),
    ensures
        kind.teardown_rank() < parent.teardown_rank(),
{
}

/// The steps for the first `count` kinds hold only those kinds, and hold them
/// in the teardown order.
proof fn lemma_prefix_in_order(live: Seq<Resource>, count: int)
    requires
        0 <= count <= teardown_order().len(),
    ensures
        forall|i: int|
            0 <= i < teardown_prefix(live, count).len() ==> (#[trigger] teardown_prefix(
                live,
                count,
            )[i]).kind.teardown_rank() < count,
        forall|i: int, j: int|
            0 <= i < j < teardown_prefix(live, count).len() ==> (#[trigger] teardown_prefix(
                live,
                count,
            )[i]).kind.teardown_rank() <= (#[trigger] teardown_prefix(
                live,
                count,
            )[j]).kind.teardown_rank(),
    decreases count,
{
    if count > 0 {
        lemma_prefix_in_order(live, count - 1);
        let kind = teardown_order()[count - 1];
        let earlier = teardown_prefix(live, count - 1);
        let last = of_kind(live, kind);
        let steps = teardown_prefix(live, count);
        assert(steps == earlier + last);
        assert(kind.teardown_rank() == count - 1);
        assert forall|i: int| 0 <= i < last.len() implies (#[trigger] last[i]).kind == kind by {
            live.lemma_filter_pred(|resource: Resource| resource.kind == kind, i);
        }
        assert forall|i: int| 0 <= i < steps.len() implies (#[trigger] steps[i]).kind.teardown_rank()
            < count by {
            if i < earlier.len() {
                assert(steps[i] == earlier[i]);
            } else {
                assert(steps[i] == last[i - earlier.len()]);
            }
        }
        assert forall|i: int, j: int| 0 <= i < j < steps.len() implies (
        #[trigger] steps[i]).kind.teardown_rank() <= (#[trigger] steps[j]).kind.teardown_rank() by {
            if j < earlier.len() {
                assert(steps[i] == earlier[i]);
                assert(steps[j] == earlier[j]);
            } else {
                assert(steps[j] == last[j - earlier.len()]);
                if i < earlier.len() {
                    assert(steps[i] == earlier[i]);
                } else {
                    assert(steps[i] == last[i - earlier.len()]);
                }
            }
        }
    }
}

/// One more live object adds itself to the steps for the first `count`
/// kinds where its kind is among them, and changes nothing else.
proof fn lemma_prefix_push(live: Seq<Resource>, resource: Resource, count: int)
    requires
        0 <= count <= teardown_order().len(),
    ensures
        teardown_prefix(live.push(resource), count).to_multiset() == if resource.kind.teardown_rank()
            < count {
            teardown_prefix(live, count).to_multiset().insert(resource)
        } else {
            teardown_prefix(live, count).to_multiset()
        },
    decreases count,
{
    broadcast use vstd::multiset::group_multiset_axioms;

    if count > 0 {
        lemma_prefix_push(live, resource, count - 1);
        let kind = teardown_order()[count - 1];
        let grown = live.push(resource);
        live.lemma_filter_push(resource, |r: Resource| r.kind == kind);
        vstd::seq_lib::lemma_multiset_commutative(
            teardown_prefix(grown, count - 1),
            of_kind(grown, kind),
        );
        vstd::seq_lib::lemma_multiset_commutative(
            teardown_prefix(live, count - 1),
            of_kind(live, kind),
        );
        of_kind(live, kind).to_multiset_ensures();
        assert(kind.teardown_rank() == count - 1);
        if resource.kind == kind {
            assert(of_kind(grown, kind) == of_kind(live, kind).push(resource));
            assert(teardown_prefix(grown, count).to_multiset() =~= teardown_prefix(
                live,
                count,
            ).to_multiset().insert(resource));
        } else {
            assert(of_kind(grown, kind) == of_kind(live, kind));
            assert(resource.kind.teardown_rank() != count - 1);
            if resource.kind.teardown_rank() < count {
                assert(teardown_prefix(grown, count).to_multiset() =~= teardown_prefix(
                    live,
                    count,
                ).to_multiset().insert(resource));
            } else {
                assert(teardown_prefix(grown, count).to_multiset() =~= teardown_prefix(
                    live,
                    count,
                ).to_multiset());
            }
        }
    } else {
        assert(teardown_prefix(live.push(resource), count) == teardown_prefix(live, count));
    }
}

/// With nothing alive there is no step.
proof fn lemma_prefix_of_nothing(count: int)
    ensures
        teardown_prefix(Seq::<Resource>::empty(), count) == Seq::<Resource>::empty(),
    decreases count,
{
    if 0 < count <= teardown_order().len() {
        lemma_prefix_of_nothing(count - 1);
        let kind = teardown_order()[count - 1];
        Seq::<Resource>::empty().lemma_filter_len(|resource: Resource| resource.kind == kind);
        assert(of_kind(Seq::<Resource>::empty(), kind) =~= Seq::<Resource>::empty());
    }
}

/// The teardown follows the fixed order whatever is alive: of two steps, the
/// earlier one never destroys a kind that stands later in the teardown order
/// than the kind that the later one destroys.
pub proof fn lemma_teardown_in_fixed_order(live: Seq<Resource>, earlier: int, later: int)
    requires
        0 <= earlier < later < teardown_sequence(live).len(),
    ensures
        teardown_sequence(live)[earlier].kind.teardown_rank() <= teardown_sequence(
            live,
        )[later].kind.teardown_rank(),
{
    lemma_prefix_in_order(live, teardown_order().len() as int);
}

/// Nothing is destroyed before what was created from it: the step that
/// destroys an object comes before the step that destroys anything the
/// object is created from.
pub proof fn lemma_teardown_children_first(live: Seq<Resource>, child: int, parent: int)
    requires
        0 <= child < teardown_sequence(live).len(),
        0 <= parent < teardown_sequence(live).len(),
        teardown_sequence(live)[child].kind.created_from(teardown_sequence(live)[parent].kind),
    ensures
        child < parent,
{
    let steps = teardown_sequence(live);
    lemma_prefix_in_order(live, teardown_order().len() as int);
    lemma_parent_ranks_higher(steps[child].kind, steps[parent].kind);
}

/// The teardown destroys every live object, each exactly once, and nothing
/// else.
pub proof fn lemma_teardown_destroys_each_once(live: Seq<Resource>)
    ensures
        teardown_sequence(live).to_multiset() == live.to_multiset(),
        teardown_sequence(live).len() == live.len(),
    decreases live.len(),
{
    if live.len() == 0 {
        assert(live == Seq::<Resource>::empty());
        lemma_prefix_of_nothing(teardown_order().len() as int);
    } else {
        let rest = live.drop_last();
        let resource = live.last();
        assert(live == rest.push(resource));
        lemma_teardown_destroys_each_once(rest);
        lemma_prefix_push(rest, resource, teardown_order().len() as int);
        rest.to_multiset_ensures();
    }
    teardown_sequence(live).to_multiset_ensures();
    live.to_multiset_ensures();
}

/// Tearing down twice destroys nothing twice: after a teardown nothing is
/// alive, and the teardown of nothing has no step.
pub proof fn lemma_teardown_of_nothing()
    ensures
        teardown_sequence(Seq::<Resource>::empty()) == Seq::<Resource>::empty(),
{
    lemma_prefix_of_nothing(teardown_order().len() as int);
}

/// Where each kind stands in the creation order.
pub proof fn lemma_creation_order_places(images: nat)
    ensures
        creation_order(images).len() == 8 + 2 * images,
        creation_order(images)[0] == ResourceKind::Instance,
        creation_order(images)[1] == ResourceKind::Surface,
        creation_order(images)[2] == ResourceKind::LogicalDevice,
        creation_order(images)[3] == ResourceKind::DebugMessenger,
        creation_order(images)[4] == ResourceKind::Swapchain,
        forall|i: int|
            5 <= i < 5 + images ==> #[trigger] creation_order(images)[i] == ResourceKind::ImageView,
        creation_order(images)[5 + images as int] == ResourceKind::RenderPass,
        creation_order(images)[6 + images as int] == ResourceKind::PipelineLayout,
        creation_order(images)[7 + images as int] == ResourceKind::GraphicsPipeline,
        forall|i: int|
            8 + images <= i < 8 + 2 * images ==> #[trigger] creation_order(images)[i]
                == ResourceKind::Framebuffer,
{
    let order = creation_order(images);
    let views = images as int;
    assert(order.len() == 8 + 2 * views);
    assert forall|i: int| 5 <= i < 5 + views implies #[trigger] order[i]
        == ResourceKind::ImageView by {}
    assert(order[5 + views] == ResourceKind::RenderPass);
    assert(order[6 + views] == ResourceKind::PipelineLayout);
    assert(order[7 + views] == ResourceKind::GraphicsPipeline);
    assert forall|i: int| 8 + views <= i < 8 + 2 * views implies #[trigger] order[i]
        == ResourceKind::Framebuffer by {}
}

/// The bring-up creates nothing too early: once it has created the first
/// objects of the creation order, the next one can be created, whatever the
/// number of swapchain images.
pub proof fn lemma_creation_order_is_accepted(images: nat, created: Seq<Resource>)
    requires
        created.len() < creation_order(images).len(),
        forall|i: int|
            0 <= i < created.len() ==> (#[trigger] created[i]).kind == creation_order(images)[i],
    ensures
        can_register(created, creation_order(images)[created.len() as int]),
{
    let order = creation_order(images);
    let views = images as int;
    let step = created.len() as int;
    let kind = order[step];
    lemma_creation_order_places(images);
    assert forall|parent: ResourceKind| #[trigger] kind.created_from(parent) implies has_kind(
        created,
        parent,
    ) by {
        let place: int = match parent {
            ResourceKind::Instance => 0,
            ResourceKind::Surface => 1,
            ResourceKind::LogicalDevice => 2,
            ResourceKind::DebugMessenger => 3,
            ResourceKind::Swapchain => 4,
            ResourceKind::ImageView => 5,
            ResourceKind::RenderPass => 5 + views,
            ResourceKind::PipelineLayout => 6 + views,
            ResourceKind::GraphicsPipeline => 7 + views,
            ResourceKind::Framebuffer => 8 + views,
        };
        assert(0 <= place < step);
        assert(created[place].kind == parent);
    }
    if !kind.many() && has_kind(created, kind) {
        let i = choose|i: int| 0 <= i < created.len() && (#[trigger] created[i]).kind == kind;
        assert(created[i].kind == order[i]);
        assert(false);
    }
}

/// Objects created in the creation order stand in an order in which each
/// comes after what it is created from.
pub proof fn lemma_creation_order_is_well_formed(images: nat, created: Seq<Resource>)
    requires
        created.len() <= creation_order(images).len(),
        forall|i: int|
            0 <= i < created.len() ==> (#[trigger] created[i]).kind == creation_order(images)[i],
    ensures
        well_formed(created),
    decreases created.len(),
{
    if created.len() > 0 {
        let rest = created.drop_last();
        let last = created.last();
        assert forall|i: int| 0 <= i < rest.len() implies (#[trigger] rest[i]).kind
            == creation_order(images)[i] by {
            assert(rest[i] == created[i]);
        }
        lemma_creation_order_is_well_formed(images, rest);
        lemma_creation_order_is_accepted(images, rest);
        assert(created == rest.push(last));
        lemma_register_keeps_order(rest, last);
    }
}

} // verus!
