use vstd::prelude::*;

use crate::action::{ActionQueue, InitValue, QueuedAction};
use crate::form::{FormPhase, FormPipeline};
use crate::handle::Handle;
use crate::ids::{NodeId, ObjId, TracedRef};
use crate::movie::{MoviePhase, MoviePipeline};
use crate::outcome::LoadError;

verus! {

/// The argument an `onLoadInit` broadcast carries for a node whose script
/// companion is `clip_object`.
pub open spec fn init_value_of(clip_object: Option<ObjId>) -> InitValue {
    match clip_object {
        Some(o) => InitValue::Object(o),
        None => InitValue::Undefined,
    }
}

/// The deferred broadcasts `l` enqueues when `clip` reports itself
/// initialized: one `onLoadInit` if `l` is a movie load of `clip` with a
/// broadcaster, none otherwise.
pub open spec fn init_broadcasts(
    l: Loader,
    clip: NodeId,
    clip_object: Option<ObjId>,
    root: NodeId,
) -> Seq<QueuedAction> {
    match l {
        Loader::Movie { target_clip, target_broadcaster: Some(listener), .. } => if target_clip
            == clip {
            seq![QueuedAction { target: clip, root, listener, argument: init_value_of(clip_object) }]
        } else {
            Seq::empty()
        },
        _ => Seq::empty(),
    }
}

/// One in-flight load, stored in the handle table while its pipeline runs.
///
/// A loader holds the identities of its collector-managed targets, never the
/// targets themselves: every phase of a pipeline resolves them fresh through
/// the running runtime, so nothing collector-owned is parked inside a
/// suspended task.
#[derive(Clone, Copy, Debug)]
pub enum Loader {
    /// A load that fetches a movie and attaches it to a scene node.
    Movie {
        /// The handle under which this entry is stored; stamped exactly once,
        /// immediately after insertion, before the pipeline starts.
        self_handle: Option<Handle>,
        /// The scene node the movie is loaded into.
        target_clip: NodeId,
        /// Optional script object that receives the lifecycle broadcasts.
        target_broadcaster: Option<ObjId>,
    },
    /// A load that fetches form-encoded data into a script object.
    Form {
        /// The handle under which this entry is stored; stamped exactly once,
        /// immediately after insertion, before the pipeline starts.
        self_handle: Option<Handle>,
        /// The script object whose properties receive the decoded pairs.
        target_object: ObjId,
    },
}

impl Loader {
    /// This loader with its stamp replaced by `handle`.
    pub open spec fn with_handle(self, handle: Handle) -> Loader {
        match self {
            Loader::Movie { target_clip, target_broadcaster, .. } => (Loader::Movie {
                self_handle: Some(handle),
                target_clip,
                target_broadcaster,
            }),
            Loader::Form { target_object, .. } => (Loader::Form {
                self_handle: Some(handle),
                target_object,
            }),
        }
    }

    /// True of a movie loader whose target is exactly `clip`.
    pub open spec fn targets_clip(self, clip: NodeId) -> bool {
        self matches Loader::Movie { target_clip, .. } && target_clip == clip
    }

    /// The collector-managed references this loader keeps reachable: its
    /// target, and for a movie load the broadcaster as well.
    pub open spec fn traced_spec(self) -> Seq<TracedRef> {
        match self {
            Loader::Movie { target_clip, target_broadcaster, .. } => match target_broadcaster {
                Some(b) => seq![TracedRef::Node(target_clip), TracedRef::Obj(b)],
                None => seq![TracedRef::Node(target_clip)],
            },
            Loader::Form { target_object, .. } => seq![TracedRef::Obj(target_object)],
        }
    }

    /// Stamp the handle under which this loader has just been stored.
    ///
    /// The table calls this right after insertion; pipelines require the stamp
    /// to be present before they run.
    pub fn introduce_loader_handle(&mut self, handle: Handle)
        ensures
            *final(self) == old(self).with_handle(handle),
    {
        match self {
            Loader::Movie { self_handle, .. } => *self_handle = Some(handle),
            Loader::Form { self_handle, .. } => *self_handle = Some(handle),
        }
    }

    /// Enumerate the collector-managed references this entry holds, for the
    /// collector's reachability scan.
    pub fn trace(&self) -> (refs: Vec<TracedRef>)
        ensures
            refs@ == self.traced_spec(),
    {
        let mut refs: Vec<TracedRef> = Vec::new();
        match self {
            Loader::Movie { target_clip, target_broadcaster, .. } => {
                refs.push(TracedRef::Node(*target_clip));
                if let Some(b) = target_broadcaster {
                    refs.push(TracedRef::Obj(*b));
                }
            },
            Loader::Form { target_object, .. } => {
                refs.push(TracedRef::Obj(*target_object));
            },
        }
        assert(refs@ =~= self.traced_spec());
        refs
    }

    /// Construct the pipeline that will drive this movie load; the embedder
    /// spawns it on its scheduler.
    ///
    /// The loader must already be stamped with its handle. Run against a
    /// non-movie entry, the pipeline is refused immediately with a
    /// variant-mismatch error.
    pub fn movie_loader(&self) -> (r: Result<MoviePipeline, LoadError>)
        requires
            self matches Loader::Movie { self_handle, .. } ==> self_handle is Some,
        ensures
            match *self {
                Loader::Movie { self_handle, .. } => self_handle matches Some(h) && r == Ok::<
                    MoviePipeline,
                    LoadError,
                >((MoviePipeline { handle: h, phase: MoviePhase::Ready })),
                Loader::Form { .. } => r == Err::<MoviePipeline, LoadError>(
                    LoadError::VariantMismatch,
                ),
            },
    {
        match self {
            Loader::Movie { self_handle: Some(h), .. } => Ok(
                MoviePipeline { handle: *h, phase: MoviePhase::Ready },
            ),
            Loader::Movie { self_handle: None, .. } => vstd::pervasive::unreached(),
            Loader::Form { .. } => Err(LoadError::VariantMismatch),
        }
    }

    /// Construct the pipeline that will drive this form load; the embedder
    /// spawns it on its scheduler.
    ///
    /// The loader must already be stamped with its handle. Run against a
    /// non-form entry, the pipeline is refused immediately with a
    /// variant-mismatch error.
    pub fn form_loader(&self) -> (r: Result<FormPipeline, LoadError>)
        requires
            self matches Loader::Form { self_handle, .. } ==> self_handle is Some,
        ensures
            match *self {
                Loader::Form { self_handle, .. } => self_handle matches Some(h) && r == Ok::<
                    FormPipeline,
                    LoadError,
                >((FormPipeline { handle: h, phase: FormPhase::Fetching })),
                Loader::Movie { .. } => r == Err::<FormPipeline, LoadError>(
                    LoadError::VariantMismatch,
                ),
            },
    {
        match self {
            Loader::Form { self_handle: Some(h), .. } => Ok(
                FormPipeline { handle: *h, phase: FormPhase::Fetching },
            ),
            Loader::Form { self_handle: None, .. } => vstd::pervasive::unreached(),
            Loader::Movie { .. } => Err(LoadError::VariantMismatch),
        }
    }

    /// The initialization-check hook the completion scan invokes once a node
    /// has run its first frame.
    ///
    /// Returns true — report "completed", remove me — exactly when this entry
    /// is a movie load targeting that node; if it has a broadcaster, an
    /// `onLoadInit` broadcast is enqueued on the deferred action queue rather
    /// than executed inline. Every other entry reports "not completed" and
    /// enqueues nothing.
    pub fn movie_clip_loaded(
        &self,
        loaded_clip: NodeId,
        clip_object: Option<ObjId>,
        root: NodeId,
        queue: &mut ActionQueue,
    ) -> (done: bool)
        ensures
            done == self.targets_clip(loaded_clip),
            final(queue).queued() == old(queue).queued() + init_broadcasts(
                *self,
                loaded_clip,
                clip_object,
                root,
            ),
    {
        match self {
            Loader::Movie { target_clip, target_broadcaster, .. } => {
                if *target_clip == loaded_clip {
                    if let Some(listener) = target_broadcaster {
                        let argument = match clip_object {
                            Some(o) => InitValue::Object(o),
                            None => InitValue::Undefined,
                        };
                        queue.queue_action(
                            QueuedAction { target: loaded_clip, root, listener: *listener, argument },
                        );
                    }
                    proof {
                        assert(queue.queued() =~= old(queue).queued() + init_broadcasts(
                            *self,
                            loaded_clip,
                            clip_object,
                            root,
                        ));
                    }
                    true
                } else {
                    proof {
                        assert(queue.queued() =~= old(queue).queued() + init_broadcasts(
                            *self,
                            loaded_clip,
                            clip_object,
                            root,
                        ));
                    }
                    false
                }
            },
            Loader::Form { .. } => {
                proof {
                    assert(queue.queued() =~= old(queue).queued() + init_broadcasts(
                        *self,
                        loaded_clip,
                        clip_object,
                        root,
                    ));
                }
                false
            },
        }
    }
}

} // verus!
