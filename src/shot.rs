use vstd::prelude::*;

use crate::geometry::Vec3;
use crate::handle::ColliderHandle;

verus! {

/// Length of a shot's ray: a thousand units, in micro-units.
pub const RAY_LENGTH: u64 = 1_000_000_000;

/// Magnitude of the force that a hit applies at the point of impact, in micro-units.
pub const IMPACT_FORCE: i64 = 10_000_000;

/// A shot's ray: where it starts, where it points, and how far it reaches.
#[derive(Clone, Copy, Debug, PartialEq, Eq, Structural)]
pub struct Ray {
    pub origin: Vec3,
    pub dir: Vec3,
    pub max_len: u64,
}

impl Ray {
    pub fn new(origin: Vec3, dir: Vec3, max_len: u64) -> (r: Ray)
        ensures
            r == (Ray { origin, dir, max_len }),
    {
        Ray { origin, dir, max_len }
    }
}

/// One place where a ray meets a collider.
#[derive(Clone, Copy, Debug, PartialEq, Eq, Structural)]
pub struct Intersection {
    pub collider: ColliderHandle,
    pub position: Vec3,
    pub normal: Vec3,
    /// Distance from the ray's origin, in micro-units.
    pub distance: u64,
}

/// How the impact effect is turned.
#[derive(Clone, Copy, Debug, PartialEq, Eq, Structural)]
pub enum ImpactOrientation {
    /// No rotation: the surface faces straight up or down.
    Upright,
    /// Turned to face along the surface normal, with world-up as up.
    FacingNormal,
}

/// What a hit does to the world: a push on the struck body and a particle effect.
#[derive(Clone, Copy, Debug, PartialEq, Eq, Structural)]
pub struct Impact {
    pub collider: ColliderHandle,
    pub point: Vec3,
    /// Normal of the struck surface.
    pub normal: Vec3,
    /// Direction of the push; its magnitude is `IMPACT_FORCE`.
    pub push_direction: Vec3,
    pub orientation: ImpactOrientation,
}

/// The visible trail of a shot, from the ray's origin along its direction.
#[derive(Clone, Copy, Debug, PartialEq, Eq, Structural)]
pub struct Trail {
    pub origin: Vec3,
    pub direction: Vec3,
    pub length: u64,
}

/// Everything a shot asks of the world once its ray has been cast.
#[derive(Clone, Copy, Debug, PartialEq, Eq, Structural)]
pub struct ShotOutcome {
    pub impact: Option<Impact>,
    pub trail: Trail,
}

/// The intersection may count as a hit: it is not the shooter's own collider.
pub open spec fn qualifies(h: Intersection, own: ColliderHandle) -> bool {
    h.collider != own
}

/// `i` is the hit that a shot takes: the nearest qualifying intersection, and of equally
/// near ones the first.
pub open spec fn is_closest(hits: Seq<Intersection>, own: ColliderHandle, i: int) -> bool {
    &&& 0 <= i < hits.len()
    &&& qualifies(hits[i], own)
    &&& forall|j: int|
        0 <= j < hits.len() && qualifies(#[trigger] hits[j], own) ==> hits[i].distance
            <= hits[j].distance
    &&& forall|j: int|
        0 <= j < i && qualifies(#[trigger] hits[j], own) ==> hits[j].distance
            > hits[i].distance
}

pub open spec fn any_qualifies(hits: Seq<Intersection>, own: ColliderHandle) -> bool {
    exists|j: int| 0 <= j < hits.len() && qualifies(#[trigger] hits[j], own)
}

/// The surface normal points along world-up, either way.
pub open spec fn vertical(n: Vec3) -> bool {
    n.x == 0 && n.z == 0 && n.y != 0
}

pub open spec fn orientation_for(normal: Vec3) -> ImpactOrientation {
    if vertical(normal) {
        ImpactOrientation::Upright
    } else {
        ImpactOrientation::FacingNormal
    }
}

pub open spec fn impact_of(ray: Ray, h: Intersection) -> Impact {
    Impact {
        collider: h.collider,
        point: h.position,
        normal: h.normal,
        push_direction: ray.dir,
        orientation: orientation_for(h.normal),
    }
}

/// At most one index is the closest hit.
pub proof fn lemma_closest_unique(hits: Seq<Intersection>, own: ColliderHandle, i: int, k: int)
    requires
        is_closest(hits, own, i),
        is_closest(hits, own, k),
    ensures
        i == k,
{
    if i < k {
        assert(hits[i].distance > hits[k].distance);
    } else if k < i {
        assert(hits[k].distance > hits[i].distance);
    }
}

/// Index of the nearest intersection that is not the shooter's own collider, or `None`
/// where every intersection is the shooter's own. The intersections may come in any order.
pub fn closest_hit(hits: &Vec<Intersection>, own: ColliderHandle) -> (r: Option<usize>)
    ensures
        r.is_none() <==> !any_qualifies(hits@, own),
        r matches Some(i) ==> is_closest(hits@, own, i as int),
{
    let mut best: Option<usize> = None;
    let mut k: usize = 0;
    while k < hits.len()
        invariant
            k <= hits@.len(),
            best.is_none() ==> forall|j: int| 0 <= j < k ==> !qualifies(#[trigger] hits@[j], own),
            best matches Some(i) ==> is_closest(hits@.subrange(0, k as int), own, i as int),
        decreases hits@.len() - k,
    {
        let h = hits[k];
        if h.collider != own {
            match best {
                None => {
                    best = Some(k);
                },
                Some(i) => {
                    if h.distance < hits[i].distance {
                        best = Some(k);
                    }
                },
            }
        }
        proof {
            let s = hits@.subrange(0, k + 1);
            assert(forall|j: int| 0 <= j < k + 1 ==> s[j] == hits@[j]);
            if let Some(i) = best {
                let p = hits@.subrange(0, k as int);
                assert(forall|j: int| 0 <= j < k ==> p[j] == hits@[j]);
                assert(is_closest(s, own, i as int));
            }
        }
        k = k + 1;
    }
    proof {
        assert(hits@.subrange(0, k as int) =~= hits@);
        if best.is_none() {
            assert(!any_qualifies(hits@, own));
        }
    }
    best
}

/// How the impact effect is turned for a surface with the given normal.
pub fn impact_orientation(normal: Vec3) -> (r: ImpactOrientation)
    ensures
        r == orientation_for(normal),
{
    if normal.x == 0 && normal.z == 0 && normal.y != 0 {
        ImpactOrientation::Upright
    } else {
        ImpactOrientation::FacingNormal
    }
}

/// Resolves a cast ray: the hit is the nearest intersection that is not the shooter's own
/// collider; it is pushed and gets an impact effect, and the trail reaches it. Without such
/// an intersection the trail runs the ray's whole length.
pub fn resolve_shot(ray: &Ray, hits: &Vec<Intersection>, own: ColliderHandle) -> (r:
    ShotOutcome)
    ensures
        r.trail.origin == ray.origin,
        r.trail.direction == ray.dir,
        !any_qualifies(hits@, own) ==> r.impact.is_none() && r.trail.length == ray.max_len,
        any_qualifies(hits@, own) ==> exists|i: int|
            is_closest(hits@, own, i) && r.impact == Some(impact_of(*ray, #[trigger] hits@[i]))
                && r.trail.length == hits@[i].distance,
{
    match closest_hit(hits, own) {
        Some(i) => {
            let h = hits[i];
            let impact = Impact {
                collider: h.collider,
                point: h.position,
                normal: h.normal,
                push_direction: ray.dir,
                orientation: impact_orientation(h.normal),
            };
            ShotOutcome {
                impact: Some(impact),
                trail: Trail { origin: ray.origin, direction: ray.dir, length: h.distance },
            }
        },
        None => ShotOutcome {
            impact: None,
            trail: Trail { origin: ray.origin, direction: ray.dir, length: ray.max_len },
        },
    }
}

} // verus!
