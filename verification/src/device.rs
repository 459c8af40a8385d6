//! Queue-family selection for the device context.
//!
//! A usable physical device must expose a graphics-capable queue family and a
//! presentation-capable one (they may coincide). The front end queries the
//! platform for each family's properties and presentation support and hands
//! them over as plain values; the library picks the families.

use vstd::prelude::*;

verus! {

/// What the platform reports of one queue family, reduced to what selection
/// reads: how many queues it has, whether it can run graphics work, and
/// whether it can present to the surface at hand.
#[derive(Clone, Copy, PartialEq, Eq, Structural, Debug)]
pub struct QueueFamily {
    pub queue_count: u32,
    pub supports_graphics: bool,
    pub supports_present: bool,
}

/// A family that can run graphics work.
pub open spec fn graphics_capable(f: QueueFamily) -> bool {
    f.queue_count > 0 && f.supports_graphics
}

/// A family that can present to the surface.
pub open spec fn present_capable(f: QueueFamily) -> bool {
    f.queue_count > 0 && f.supports_present
}

/// Whether any family can run graphics work.
pub open spec fn has_graphics(s: Seq<QueueFamily>) -> bool {
    exists|i: int| 0 <= i < s.len() && graphics_capable(s[i])
}

/// Whether any family can present.
pub open spec fn has_present(s: Seq<QueueFamily>) -> bool {
    exists|i: int| 0 <= i < s.len() && present_capable(s[i])
}

/// Index of the first graphics-capable family (meaningful only when one
/// exists).
pub open spec fn first_graphics(s: Seq<QueueFamily>) -> int
    decreases s.len(),
{
    if s.len() == 0 {
        0
    } else if graphics_capable(s[0]) {
        0
    } else {
        1 + first_graphics(s.skip(1))
    }
}

/// Index of the first present-capable family (meaningful only when one
/// exists).
pub open spec fn first_present(s: Seq<QueueFamily>) -> int
    decreases s.len(),
{
    if s.len() == 0 {
        0
    } else if present_capable(s[0]) {
        0
    } else {
        1 + first_present(s.skip(1))
    }
}

proof fn lemma_first_graphics_at(s: Seq<QueueFamily>, i: int)
    requires
        0 <= i < s.len(),
        graphics_capable(s[i]),
        forall|j: int| 0 <= j < i ==> !graphics_capable(s[j]),
    ensures
        has_graphics(s),
        first_graphics(s) == i,
    decreases i,
{
    assert(has_graphics(s));
    if i > 0 {
        lemma_first_graphics_at(s.skip(1), i - 1);
    }
}

proof fn lemma_first_present_at(s: Seq<QueueFamily>, i: int)
    requires
        0 <= i < s.len(),
        present_capable(s[i]),
        forall|j: int| 0 <= j < i ==> !present_capable(s[j]),
    ensures
        has_present(s),
        first_present(s) == i,
    decreases i,
{
    assert(has_present(s));
    if i > 0 {
        lemma_first_present_at(s.skip(1), i - 1);
    }
}

/// Picks the (graphics, presentation) queue-family pair for one physical
/// device: the first family capable of each, independently. Returns nothing
/// exactly when the device lacks a graphics-capable or a present-capable
/// family; such a device is skipped.
pub fn select_queue_families(families: &Vec<QueueFamily>) -> (r: Option<(u32, u32)>)
    requires
        families@.len() <= u32::MAX,
    ensures
        r is Some <==> (has_graphics(families@) && has_present(families@)),
        r matches Some((g, p)) ==> {
            &&& g as int == first_graphics(families@)
            &&& p as int == first_present(families@)
            &&& g < families@.len() && graphics_capable(families@[g as int])
            &&& p < families@.len() && present_capable(families@[p as int])
        },
{
    let n: usize = families.len();
    let mut graphics: Option<u32> = None;
    let mut present: Option<u32> = None;
    let mut i: usize = 0;
    while i < n
        invariant
            n == families@.len(),
            n <= u32::MAX,
            i <= n,
            match graphics {
                Some(g) => {
                    &&& g < i
                    &&& graphics_capable(families@[g as int])
                    &&& forall|j: int| 0 <= j < g ==> !graphics_capable(families@[j])
                },
                None => forall|j: int| 0 <= j < i ==> !graphics_capable(families@[j]),
            },
            match present {
                Some(p) => {
                    &&& p < i
                    &&& present_capable(families@[p as int])
                    &&& forall|j: int| 0 <= j < p ==> !present_capable(families@[j])
                },
                None => forall|j: int| 0 <= j < i ==> !present_capable(families@[j]),
            },
        decreases n - i,
    {
        let f = families[i];
        if graphics.is_none() && f.queue_count > 0 && f.supports_graphics {
            graphics = Some(i as u32);
        }
        if present.is_none() && f.queue_count > 0 && f.supports_present {
            present = Some(i as u32);
        }
        i = i + 1;
    }
    match (graphics, present) {
        (Some(g), Some(p)) => {
            proof {
                lemma_first_graphics_at(families@, g as int);
                lemma_first_present_at(families@, p as int);
            }
            Some((g, p))
        },
        _ => {
            assert(graphics is None ==> !has_graphics(families@));
            assert(present is None ==> !has_present(families@));
            None
        },
    }
}

/// The distinct queue-family indices the logical device needs one queue of:
/// both chosen families, deduplicated (they often coincide) and in ascending
/// order.
pub fn unique_family_indices(graphics: u32, present: u32) -> (r: Vec<u32>)
    ensures
        graphics == present ==> r@ =~= seq![graphics],
        graphics < present ==> r@ =~= seq![graphics, present],
        present < graphics ==> r@ =~= seq![present, graphics],
{
    let mut indices: Vec<u32> = Vec::new();
    if graphics == present {
        indices.push(graphics);
    } else if graphics < present {
        indices.push(graphics);
        indices.push(present);
    } else {
        indices.push(present);
        indices.push(graphics);
    }
    indices
}

} // verus!
