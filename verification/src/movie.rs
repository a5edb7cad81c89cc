use vstd::prelude::*;

use crate::action::{Action, LoadEvent};
use crate::handle::Handle;
use crate::ids::{NodeId, ObjId};
use crate::loader::Loader;
use crate::manager::LoadManager;
use crate::outcome::{FetchOutcome, LoadError};

verus! {

/// The broadcast dispatched for `event`, if a broadcaster is present; no
/// broadcaster, no event.
pub open spec fn broadcast_opt(node: NodeId, broadcaster: Option<ObjId>, event: LoadEvent) -> Seq<
    Action,
> {
    match broadcaster {
        Some(listener) => seq![Action::Broadcast { node, listener, event }],
        None => Seq::empty(),
    }
}

/// Effects of the synchronous pre-fetch phase: unload and detach the target,
/// then dispatch `onLoadStart`.
pub open spec fn movie_start_actions(clip: NodeId, broadcaster: Option<ObjId>) -> Seq<Action> {
    seq![Action::Unload { node: clip }, Action::Clear { node: clip }] + broadcast_opt(
        clip,
        broadcaster,
        LoadEvent::Start,
    )
}

/// Effects of the resume phase when the fetch yielded `len` bytes: a single
/// 100%-complete `onLoadProgress`, then attach, post-instantiate and preload
/// the decoded movie.
pub open spec fn movie_success_actions(clip: NodeId, broadcaster: Option<ObjId>, len: usize) -> Seq<
    Action,
> {
    broadcast_opt(clip, broadcaster, LoadEvent::Progress { loaded: len, total: len }) + seq![
        Action::Attach { node: clip },
        Action::PostInstantiate { node: clip },
        Action::Preload { node: clip },
    ]
}

/// Effects of the registration step that closes a successful load: register
/// each deferred asset definition under its id, in the order given, then
/// dispatch `onLoadComplete`.
pub open spec fn movie_finish_actions(
    clip: NodeId,
    broadcaster: Option<ObjId>,
    ids: Seq<u16>,
) -> Seq<Action> {
    ids.map_values(|id: u16| (Action::RegisterAsset { id })) + broadcast_opt(
        clip,
        broadcaster,
        LoadEvent::Complete,
    )
}

/// Effects of the resume phase when the fetch failed: `onLoadError` with its
/// fixed reason code, and nothing attached.
pub open spec fn movie_failure_actions(clip: NodeId, broadcaster: Option<ObjId>) -> Seq<Action> {
    broadcast_opt(clip, broadcaster, LoadEvent::Error)
}

/// True while `h` resolves to a movie-load entry: the only state in which a
/// movie pipeline's phases do their work.
pub open spec fn is_live_movie_entry(mgr: LoadManager, h: Handle) -> bool {
    mgr.lookup(h) matches Some(l) && l is Movie
}

/// Where a movie pipeline stands between its lock-guarded phases.
#[derive(Clone, Copy, PartialEq, Eq, Structural, Debug)]
pub enum MoviePhase {
    /// Created; the synchronous pre-fetch phase has not run.
    Ready,
    /// Suspended while the embedder awaits the byte fetch.
    Fetching,
    /// The fetched movie is attached and preloading; the embedder owes the
    /// pipeline the deferred asset ids the preload step yielded.
    Registering,
    /// Finished, successfully or not. The pipeline does nothing further.
    Done,
}

/// The state machine of one movie load.
///
/// The embedder schedules it and drives it phase by phase, strictly in order:
/// `begin` before the fetch, `resume` with the fetch's outcome, and — only
/// when the fetch succeeded — `finish` under the same lock as `resume`. Each
/// phase upgrades the weak runtime reference anew (`upgraded`), acquires the
/// lock only for that phase, looks its own entry up fresh by handle, and
/// returns the effects the embedder must perform, in order, before releasing
/// the lock.
pub struct MoviePipeline {
    /// Handle of the table entry this pipeline drives.
    pub handle: Handle,
    /// Current phase.
    pub phase: MoviePhase,
}

impl MoviePipeline {
    /// The synchronous pre-fetch phase. Unloads and detaches the target and
    /// dispatches `onLoadStart`, so a failed load still observably clears the
    /// target.
    ///
    /// If the runtime is gone the pipeline aborts silently, the table
    /// untouched. A missing entry or one of the wrong kind fails the pipeline
    /// without touching the table.
    pub fn begin(&mut self, mgr: &mut LoadManager, upgraded: bool) -> (r: Result<
        Vec<Action>,
        LoadError,
    >)
        requires
            old(self).phase is Ready,
            old(mgr).wf(),
        ensures
            final(mgr).wf(),
            old(mgr).evolves_to(*final(mgr)),
            final(self).handle == old(self).handle,
            r is Ok <==> upgraded && is_live_movie_entry(*old(mgr), old(self).handle),
            r is Ok ==> final(self).phase is Fetching,
            r is Err ==> final(self).phase is Done,
            *final(mgr) == *old(mgr),
            !upgraded ==> r == Err::<Vec<Action>, LoadError>(LoadError::RuntimeGone),
            upgraded ==> match old(mgr).lookup(old(self).handle) {
                None => r == Err::<Vec<Action>, LoadError>(LoadError::LoaderExpired),
                Some(Loader::Form { .. }) => r == Err::<Vec<Action>, LoadError>(
                    LoadError::VariantMismatch,
                ),
                Some(Loader::Movie { target_clip, target_broadcaster, .. }) => r matches Ok(acts)
                    && acts@ == movie_start_actions(target_clip, target_broadcaster),
            },
    {
        if !upgraded {
            self.phase = MoviePhase::Done;
            return Err(LoadError::RuntimeGone);
        }
        match mgr.get_loader(self.handle) {
            None => {
                self.phase = MoviePhase::Done;
                Err(LoadError::LoaderExpired)
            },
            Some(Loader::Form { .. }) => {
                self.phase = MoviePhase::Done;
                Err(LoadError::VariantMismatch)
            },
            Some(Loader::Movie { target_clip, target_broadcaster, .. }) => {
                let mut acts: Vec<Action> = Vec::new();
                acts.push(Action::Unload { node: target_clip });
                acts.push(Action::Clear { node: target_clip });
                if let Some(listener) = target_broadcaster {
                    acts.push(
                        Action::Broadcast {
                            node: target_clip,
                            listener,
                            event: LoadEvent::Start,
                        },
                    );
                }
                proof {
                    assert(acts@ =~= movie_start_actions(target_clip, target_broadcaster));
                }
                self.phase = MoviePhase::Fetching;
                Ok(acts)
            },
        }
    }

    /// Resume after the fetch resolved.
    ///
    /// On bytes: dispatch the single `onLoadProgress`, attach the decoded
    /// movie, run its post-instantiation hook and its preload step; the entry
    /// stays in the table until the target node reports itself initialized.
    /// On a failed fetch: dispatch `onLoadError`, attach nothing, and remove
    /// the entry — the load is over. If the runtime is gone the pipeline
    /// aborts silently, the table untouched.
    pub fn resume(&mut self, mgr: &mut LoadManager, upgraded: bool, fetch: &FetchOutcome) -> (r:
        Result<Vec<Action>, LoadError>)
        requires
            old(self).phase is Fetching,
            old(mgr).wf(),
        ensures
            final(mgr).wf(),
            old(mgr).evolves_to(*final(mgr)),
            final(self).handle == old(self).handle,
            r is Ok <==> upgraded && is_live_movie_entry(*old(mgr), old(self).handle),
            r is Ok && fetch is Bytes ==> final(self).phase is Registering,
            r is Ok && fetch is Failed ==> final(self).phase is Done,
            r is Err ==> final(self).phase is Done && *final(mgr) == *old(mgr),
            !upgraded ==> r == Err::<Vec<Action>, LoadError>(LoadError::RuntimeGone),
            upgraded ==> match old(mgr).lookup(old(self).handle) {
                None => r == Err::<Vec<Action>, LoadError>(LoadError::LoaderExpired),
                Some(Loader::Form { .. }) => r == Err::<Vec<Action>, LoadError>(
                    LoadError::VariantMismatch,
                ),
                Some(Loader::Movie { target_clip, target_broadcaster, .. }) => match fetch {
                    FetchOutcome::Bytes(data) => r matches Ok(acts) && acts@
                        == movie_success_actions(
                        target_clip,
                        target_broadcaster,
                        data@.len() as usize,
                    ) && *final(mgr) == *old(mgr),
                    FetchOutcome::Failed => r matches Ok(acts) && acts@ == movie_failure_actions(
                        target_clip,
                        target_broadcaster,
                    ) && final(mgr).lookup(old(self).handle) is None && final(mgr).expired(
                        old(self).handle,
                    ) && (forall|h2: Handle|
                        h2 != old(self).handle ==> #[trigger] final(mgr).lookup(h2) == old(
                            mgr,
                        ).lookup(h2)),
                },
            },
    {
        if !upgraded {
            self.phase = MoviePhase::Done;
            return Err(LoadError::RuntimeGone);
        }
        match mgr.get_loader(self.handle) {
            None => {
                self.phase = MoviePhase::Done;
                Err(LoadError::LoaderExpired)
            },
            Some(Loader::Form { .. }) => {
                self.phase = MoviePhase::Done;
                Err(LoadError::VariantMismatch)
            },
            Some(Loader::Movie { target_clip, target_broadcaster, .. }) => {
                match fetch {
                    FetchOutcome::Bytes(data) => {
                        let mut acts: Vec<Action> = Vec::new();
                        if let Some(listener) = target_broadcaster {
                            acts.push(
                                Action::Broadcast {
                                    node: target_clip,
                                    listener,
                                    event: LoadEvent::Progress {
                                        loaded: data.len(),
                                        total: data.len(),
                                    },
                                },
                            );
                        }
                        acts.push(Action::Attach { node: target_clip });
                        acts.push(Action::PostInstantiate { node: target_clip });
                        acts.push(Action::Preload { node: target_clip });
                        proof {
                            assert(acts@ =~= movie_success_actions(
                                target_clip,
                                target_broadcaster,
                                data@.len() as usize,
                            ));
                        }
                        self.phase = MoviePhase::Registering;
                        Ok(acts)
                    },
                    FetchOutcome::Failed => {
                        let mut acts: Vec<Action> = Vec::new();
                        if let Some(listener) = target_broadcaster {
                            acts.push(
                                Action::Broadcast {
                                    node: target_clip,
                                    listener,
                                    event: LoadEvent::Error,
                                },
                            );
                        }
                        proof {
                            assert(acts@ =~= movie_failure_actions(
                                target_clip,
                                target_broadcaster,
                            ));
                        }
                        mgr.remove_loader(self.handle);
                        self.phase = MoviePhase::Done;
                        Ok(acts)
                    },
                }
            },
        }
    }

    /// Close a successful load, under the same lock as `resume`: register
    /// every deferred asset definition the preload step yielded, keyed by its
    /// id and in the order given, then dispatch `onLoadComplete`.
    ///
    /// The entry stays in the table; the completion scan removes it once the
    /// target node reports itself initialized.
    pub fn finish(&mut self, mgr: &mut LoadManager, asset_ids: &Vec<u16>) -> (r: Result<
        Vec<Action>,
        LoadError,
    >)
        requires
            old(self).phase is Registering,
            old(mgr).wf(),
        ensures
            final(mgr).wf(),
            *final(mgr) == *old(mgr),
            final(self).handle == old(self).handle,
            final(self).phase is Done,
            r is Ok <==> is_live_movie_entry(*old(mgr), old(self).handle),
            match old(mgr).lookup(old(self).handle) {
                None => r == Err::<Vec<Action>, LoadError>(LoadError::LoaderExpired),
                Some(Loader::Form { .. }) => r == Err::<Vec<Action>, LoadError>(
                    LoadError::VariantMismatch,
                ),
                Some(Loader::Movie { target_clip, target_broadcaster, .. }) => r matches Ok(acts)
                    && acts@ == movie_finish_actions(target_clip, target_broadcaster, asset_ids@),
            },
    {
        self.phase = MoviePhase::Done;
        match mgr.get_loader(self.handle) {
            None => Err(LoadError::LoaderExpired),
            Some(Loader::Form { .. }) => Err(LoadError::VariantMismatch),
            Some(Loader::Movie { target_clip, target_broadcaster, .. }) => {
                let mut acts: Vec<Action> = Vec::new();
                let mut i: usize = 0;
                while i < asset_ids.len()
                    invariant
                        i <= asset_ids@.len(),
                        acts@ == asset_ids@.take(i as int).map_values(
                            |id: u16| (Action::RegisterAsset { id }),
                        ),
                    decreases asset_ids@.len() - i,
                {
                    acts.push(Action::RegisterAsset { id: asset_ids[i] });
                    proof {
                        assert(asset_ids@.take(i + 1 as int).map_values(
                            |id: u16| (Action::RegisterAsset { id }),
                        ) =~= asset_ids@.take(i as int).map_values(
                            |id: u16| (Action::RegisterAsset { id }),
                        ).push((Action::RegisterAsset { id: asset_ids@[i as int] })));
                    }
                    i += 1;
                }
                proof {
                    assert(asset_ids@.take(asset_ids@.len() as int) =~= asset_ids@);
                }
                if let Some(listener) = target_broadcaster {
                    acts.push(
                        Action::Broadcast {
                            node: target_clip,
                            listener,
                            event: LoadEvent::Complete,
                        },
                    );
                }
                proof {
                    assert(acts@ =~= movie_finish_actions(
                        target_clip,
                        target_broadcaster,
                        asset_ids@,
                    ));
                }
                Ok(acts)
            },
        }
    }
}

} // verus!
