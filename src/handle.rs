use vstd::prelude::*;

verus! {

/// A stable reference to a node of the scene graph: a slot index and the generation
/// of that slot when the node was created.
#[derive(Clone, Copy, Debug, PartialEq, Eq, Structural)]
pub struct NodeHandle {
    pub index: u32,
    pub generation: u32,
}

/// A stable reference to a rigid body of the physics world.
#[derive(Clone, Copy, Debug, PartialEq, Eq, Structural)]
pub struct BodyHandle {
    pub index: u64,
    pub generation: u64,
}

/// A stable reference to a collider of the physics world.
#[derive(Clone, Copy, Debug, PartialEq, Eq, Structural)]
pub struct ColliderHandle {
    pub index: u64,
    pub generation: u64,
}

impl NodeHandle {
    pub fn new(index: u32, generation: u32) -> (r: NodeHandle)
        ensures
            r == (NodeHandle { index, generation }),
    {
        NodeHandle { index, generation }
    }
}

impl BodyHandle {
    pub fn new(index: u64, generation: u64) -> (r: BodyHandle)
        ensures
            r == (BodyHandle { index, generation }),
    {
        BodyHandle { index, generation }
    }
}

impl ColliderHandle {
    pub fn new(index: u64, generation: u64) -> (r: ColliderHandle)
        ensures
            r == (ColliderHandle { index, generation }),
    {
        ColliderHandle { index, generation }
    }
}

} // verus!
