//! Queue families: which family of a device takes graphics commands and which
//! one presents to the surface.

use vstd::prelude::*;

use crate::vk;

verus! {

/// What the driver reports of one queue family of a device, together with
/// whether that family can present to the surface at hand.
#[derive(Clone, Copy, Debug, PartialEq, Eq)]
pub struct QueueFamily {
    pub queue_count: u32,
    /// Raw capability bits.
    pub queue_flags: u32,
    pub present_support: bool,
}

/// The indices of the queue families chosen for graphics and for presentation.
#[derive(Clone, Copy, Debug, PartialEq, Eq)]
pub struct QueueFamilyIndices {
    pub graphics_family: Option<u32>,
    pub present_family: Option<u32>,
}

/// What a queue family is wanted for.
#[derive(Clone, Copy, Debug, PartialEq, Eq)]
pub enum QueueRole {
    Graphics,
    Present,
}

/// The family has a queue that takes graphics commands.
pub open spec fn graphics_capable(family: QueueFamily) -> bool {
    family.queue_count > 0 && family.queue_flags & vk::QUEUE_GRAPHICS_BIT
        == vk::QUEUE_GRAPHICS_BIT
}

/// The family has a queue that can present to the surface.
pub open spec fn present_capable(family: QueueFamily) -> bool {
    family.queue_count > 0 && family.present_support
}

/// The family can serve in `role`.
pub open spec fn capable(family: QueueFamily, role: QueueRole) -> bool {
    match role {
        QueueRole::Graphics => graphics_capable(family),
        QueueRole::Present => present_capable(family),
    }
}

/// `found` is the index of the first of `families` that can serve in `role`,
/// or nothing where none of them can.
pub open spec fn is_first_capable(
    families: Seq<QueueFamily>,
    role: QueueRole,
    found: Option<u32>,
) -> bool {
    match found {
        Some(index) => {
            &&& index < families.len()
            &&& capable(families[index as int], role)
            &&& forall|j: int| 0 <= j < index ==> !capable(#[trigger] families[j], role)
        },
        None => forall|j: int| 0 <= j < families.len() ==> !capable(#[trigger] families[j], role),
    }
}

/// Some family can serve in `role`.
pub open spec fn has_capable(families: Seq<QueueFamily>, role: QueueRole) -> bool {
    exists|i: int| 0 <= i < families.len() && capable(#[trigger] families[i], role)
}

impl QueueFamilyIndices {
    /// Both families are known.
    pub open spec fn complete(self) -> bool {
        self.graphics_family.is_some() && self.present_family.is_some()
    }

    /// The indices after the family at `index` has been looked at: a family
    /// that is still unknown is set to `index` where `family` can serve as it.
    pub open spec fn recorded(self, index: u32, family: QueueFamily) -> QueueFamilyIndices {
        QueueFamilyIndices {
            graphics_family: if self.graphics_family.is_none() && graphics_capable(family) {
                Some(index)
            } else {
                self.graphics_family
            },
            present_family: if self.present_family.is_none() && present_capable(family) {
                Some(index)
            } else {
                self.present_family
            },
        }
    }

    /// Indices with neither family known.
    pub fn new() -> (r: Self)
        ensures
            r.graphics_family.is_none(),
            r.present_family.is_none(),
    {
        Self { graphics_family: None, present_family: None }
    }

    /// Whether both a graphics and a present family have been found.
    pub fn is_complete(&self) -> (r: bool)
        ensures
            r == self.complete(),
    {
        self.graphics_family.is_some() && self.present_family.is_some()
    }

    /// Takes note of the family at `index`. The scan of a device's families
    /// calls this for each index in turn, until the indices are complete.
    pub fn record(&mut self, index: u32, family: &QueueFamily)
        ensures
            *final(self) == old(self).recorded(index, *family),
    {
        if family.queue_count > 0 {
            if self.graphics_family.is_none() && vk::queue_flags_contain_graphics(
                family.queue_flags,
            ) {
                self.graphics_family = Some(index);
            }
            if self.present_family.is_none() && family.present_support {
                self.present_family = Some(index);
            }
        }
    }
}

/// Finds the queue families of a device: the first one that takes graphics
/// commands and the first one that presents to the surface, each looked for
/// by itself. The scan stops as soon as both are known.
pub fn find_queue_family(queue_families: &Vec<QueueFamily>) -> (r: QueueFamilyIndices)
    requires
        queue_families.len() <= u32::MAX,
    ensures
        is_first_capable(queue_families@, QueueRole::Graphics, r.graphics_family),
        is_first_capable(queue_families@, QueueRole::Present, r.present_family),
{
    let mut queue_family_indices = QueueFamilyIndices::new();
    let mut index: usize = 0;
    while index < queue_families.len() && !queue_family_indices.is_complete()
        invariant
            index <= queue_families.len() <= u32::MAX,
            is_first_capable(
                queue_families@.take(index as int),
                QueueRole::Graphics,
                queue_family_indices.graphics_family,
            ),
            is_first_capable(
                queue_families@.take(index as int),
                QueueRole::Present,
                queue_family_indices.present_family,
            ),
        decreases queue_families.len() - index,
    {
        let ghost before = queue_family_indices;
        queue_family_indices.record(index as u32, &queue_families[index]);
        proof {
            lemma_first_capable_step(
                queue_families@,
                index as int,
                QueueRole::Graphics,
                before.graphics_family,
            );
            lemma_first_capable_step(
                queue_families@,
                index as int,
                QueueRole::Present,
                before.present_family,
            );
        }
        index += 1;
    }
    proof {
        lemma_first_capable_whole(
            queue_families@,
            index as int,
            QueueRole::Graphics,
            queue_family_indices.graphics_family,
        );
        lemma_first_capable_whole(
            queue_families@,
            index as int,
            QueueRole::Present,
            queue_family_indices.present_family,
        );
    }
    queue_family_indices
}

/// Looking at one more family keeps the first capable one where it is known,
/// and finds it at the new index where that family is the first to be capable.
proof fn lemma_first_capable_step(
    families: Seq<QueueFamily>,
    index: int,
    role: QueueRole,
    found: Option<u32>,
)
    requires
        0 <= index < families.len(),
        index <= u32::MAX,
        is_first_capable(families.take(index), role, found),
    ensures
        is_first_capable(
            families.take(index + 1),
            role,
            if found.is_none() && capable(families[index], role) {
                Some(index as u32)
            } else {
                found
            },
        ),
{
    let seen = families.take(index);
    let next = families.take(index + 1);
    assert forall|j: int| 0 <= j < index implies #[trigger] next[j] == seen[j] by {}
    assert(next[index] == families[index]);
    match found {
        Some(first) => {
            assert(next[first as int] == seen[first as int]);
        },
        None => {
            if !capable(families[index], role) {
                assert forall|j: int| 0 <= j < next.len() implies !capable(
                    #[trigger] next[j],
                    role,
                ) by {
                    if j < index {
                        assert(next[j] == seen[j]);
                    }
                }
            }
        },
    }
}

/// What is first among the families looked at is first among all of them,
/// once it is found or all have been looked at.
proof fn lemma_first_capable_whole(
    families: Seq<QueueFamily>,
    index: int,
    role: QueueRole,
    found: Option<u32>,
)
    requires
        0 <= index <= families.len(),
        is_first_capable(families.take(index), role, found),
        found.is_some() || index == families.len(),
    ensures
        is_first_capable(families, role, found),
{
    let seen = families.take(index);
    match found {
        Some(first) => {
            assert(seen[first as int] == families[first as int]);
            assert forall|j: int| 0 <= j < first implies !capable(#[trigger] families[j], role) by {
                assert(seen[j] == families[j]);
            }
        },
        None => {
            assert(seen == families);
        },
    }
}

/// The indices found on a device are complete exactly where the device has a
/// family for graphics and one for presentation.
pub proof fn lemma_complete_iff_capable(families: Seq<QueueFamily>, indices: QueueFamilyIndices)
    requires
        is_first_capable(families, QueueRole::Graphics, indices.graphics_family),
        is_first_capable(families, QueueRole::Present, indices.present_family),
    ensures
        indices.graphics_family.is_some() == has_capable(families, QueueRole::Graphics),
        indices.present_family.is_some() == has_capable(families, QueueRole::Present),
        indices.complete() == (has_capable(families, QueueRole::Graphics) && has_capable(
            families,
            QueueRole::Present,
        )),
{
    if let Some(graphics) = indices.graphics_family {
        assert(capable(families[graphics as int], QueueRole::Graphics));
    }
    if let Some(present) = indices.present_family {
        assert(capable(families[present as int], QueueRole::Present));
    }
}

/// The families that the logical device needs a queue from: the graphics
/// family, and the present family where it is another one.
pub open spec fn unique_families(indices: QueueFamilyIndices) -> Seq<u32> {
    if indices.graphics_family == indices.present_family {
        seq![indices.graphics_family.unwrap()]
    } else {
        seq![indices.graphics_family.unwrap(), indices.present_family.unwrap()]
    }
}

/// The graphics and the present family without repetition, graphics first.
pub fn unique_queue_families(indices: &QueueFamilyIndices) -> (r: Vec<u32>)
    requires
        indices.complete(),
    ensures
        r@ == unique_families(*indices),
        r@.no_duplicates(),
        forall|family: u32|
            r@.contains(family) <==> (indices.graphics_family == Some(family)
                || indices.present_family == Some(family)),
{
    let graphics_family: u32 = indices.graphics_family.unwrap();
    let present_family: u32 = indices.present_family.unwrap();
    let mut families: Vec<u32> = Vec::new();
    families.push(graphics_family);
    if present_family != graphics_family {
        families.push(present_family);
    }
    proof {
        assert(families@ == unique_families(*indices));
        assert forall|family: u32|
            families@.contains(family) <==> (indices.graphics_family == Some(family)
                || indices.present_family == Some(family)) by {
            if indices.graphics_family == Some(family) {
                assert(families@[0] == family);
            }
            if indices.present_family == Some(family) && present_family != graphics_family {
                assert(families@[1] == family);
            }
        }
    }
    families
}

} // verus!
