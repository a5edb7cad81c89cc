use vstd::prelude::*;

verus! {

/// Identity of a scene-graph node that can host loaded content.
///
/// The node itself lives in the collector-managed runtime; a loader refers to
/// it only by identity and looks the live node up fresh in every phase.
#[derive(Clone, Copy, PartialEq, Eq, Structural, Debug, Hash)]
pub struct NodeId(pub u64);

/// Identity of a script object (an event broadcaster or a form target).
///
/// Like scene nodes, script objects are owned by the collector; loaders hold
/// only their identity.
#[derive(Clone, Copy, PartialEq, Eq, Structural, Debug, Hash)]
pub struct ObjId(pub u64);

/// One collector-managed reference held by a loader, as reported to the
/// collector's reachability scan while the load is pending.
#[derive(Clone, Copy, PartialEq, Eq, Structural, Debug)]
pub enum TracedRef {
    Node(NodeId),
    Obj(ObjId),
}

} // verus!
