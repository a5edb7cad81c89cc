use vstd::prelude::*;

use crate::ids::{NodeId, ObjId};

verus! {

/// A lifecycle event a movie load dispatches to its broadcaster, in the order
/// the pipeline reaches it. Each dispatch invokes the broadcaster's broadcast
/// method with the event's name and arguments and then runs the interpreter's
/// call stack to completion, so one event's script side effects finish before
/// the next phase starts.
#[derive(Clone, Copy, PartialEq, Eq, Structural, Debug)]
pub enum LoadEvent {
    /// `onLoadStart`: dispatched before the fetch, right after the target is
    /// unloaded and detached.
    Start,
    /// `onLoadProgress`: a single 100%-complete notification; `loaded` and
    /// `total` both equal the fetched byte count. No incremental progress is
    /// modeled.
    Progress { loaded: usize, total: usize },
    /// `onLoadComplete`: dispatched after the movie is attached, instantiated
    /// and preloaded.
    Complete,
    /// `onLoadError`: dispatched when the fetch failed, with a fixed reason
    /// code; no content is attached.
    Error,
}

/// One effect a pipeline asks the embedder to perform on the shared runtime
/// state. The pipeline decides and orders the effects; the embedder, holding
/// the runtime lock for the duration of the phase, carries each one out
/// against the live scene graph and interpreter, in the order given.
#[derive(Clone, PartialEq, Eq, Debug)]
pub enum Action {
    /// Unload whatever content the node currently hosts.
    Unload { node: NodeId },
    /// Detach the node's content: replace it with none.
    Clear { node: NodeId },
    /// Dispatch `event` to `listener` on behalf of `node`, then drain the
    /// interpreter's call stack before performing the next action.
    Broadcast { node: NodeId, listener: ObjId, event: LoadEvent },
    /// Attach the movie decoded from the fetched bytes to the node.
    Attach { node: NodeId },
    /// Run the node's post-instantiation hook against its fresh movie.
    PostInstantiate { node: NodeId },
    /// Run the attached movie's preload step. It may yield deferred composite
    /// asset definitions; the embedder hands their numeric ids back to the
    /// pipeline's registration phase.
    Preload { node: NodeId },
    /// Register a deferred asset definition in the attached movie's asset
    /// library under `id`.
    RegisterAsset { id: u16 },
    /// Invoke the target object's generic property setter with `key` and
    /// `value`.
    SetProperty { object: ObjId, key: String, value: String },
}

/// The value an `onLoadInit` broadcast carries: the initialized node's script
/// companion object, or the undefined placeholder when it has none.
#[derive(Clone, Copy, PartialEq, Eq, Structural, Debug)]
pub enum InitValue {
    Object(ObjId),
    Undefined,
}

/// One deferred `onLoadInit` broadcast, handed to the deferred action queue
/// instead of being executed inline.
#[derive(Clone, Copy, PartialEq, Eq, Structural, Debug)]
pub struct QueuedAction {
    /// The node the load targeted, on whose behalf the broadcast runs.
    pub target: NodeId,
    /// The root node under which the deferred action executes.
    pub root: NodeId,
    /// The broadcaster that receives `onLoadInit`.
    pub listener: ObjId,
    /// The broadcast's argument.
    pub argument: InitValue,
}

/// The deferred action queue: broadcasts enqueued here are delivered by the
/// embedder outside the hot path, in the order they were enqueued.
pub struct ActionQueue {
    items: Vec<QueuedAction>,
}

impl ActionQueue {
    /// The queue's pending broadcasts, oldest first.
    pub closed spec fn queued(self) -> Seq<QueuedAction> {
        self.items@
    }

    /// Construct an empty queue.
    pub fn new() -> (q: ActionQueue)
        ensures
            q.queued() == Seq::<QueuedAction>::empty(),
    {
        ActionQueue { items: Vec::new() }
    }

    /// Append one deferred broadcast.
    pub fn queue_action(&mut self, action: QueuedAction)
        ensures
            final(self).queued() == old(self).queued().push(action),
    {
        self.items.push(action);
    }

    /// Hand every pending broadcast out for delivery, oldest first, leaving
    /// the queue empty.
    pub fn take_all(&mut self) -> (r: Vec<QueuedAction>)
        ensures
            r@ == old(self).queued(),
            final(self).queued() == Seq::<QueuedAction>::empty(),
    {
        let mut taken: Vec<QueuedAction> = Vec::new();
        std::mem::swap(&mut taken, &mut self.items);
        taken
    }
}

} // verus!
