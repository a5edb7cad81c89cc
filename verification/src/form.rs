use vstd::prelude::*;

use crate::action::Action;
use crate::handle::Handle;
use crate::ids::ObjId;
use crate::loader::Loader;
use crate::manager::LoadManager;
use crate::outcome::{FetchOutcome, LoadError, SetterOutcome};

verus! {

/// The ordered key/value pairs that decoding `data` as
/// `application/x-www-form-urlencoded` yields, keys and values
/// percent-decoded, in document order, duplicates kept. The decoding is
/// involved but depends on the bytes alone, so it is given a name rather than
/// restated; the decode wrapper's contract ties the name to the decoder, and
/// everything after the decode is verified for every value of it.
pub uninterp spec fn form_decoded(data: Seq<u8>) -> Seq<(Seq<char>, Seq<char>)>;

/// The views of decoded key/value pairs, in order.
pub open spec fn pairs_view(pairs: Seq<(String, String)>) -> Seq<(Seq<char>, Seq<char>)> {
    pairs.map_values(|p: (String, String)| (p.0@, p.1@))
}

/// The setter invocation that applies `pair` to `target`.
pub open spec fn set_action(target: ObjId, pair: (String, String)) -> Action {
    Action::SetProperty { object: target, key: pair.0, value: pair.1 }
}

/// Relies on `url::form_urlencoded::parse` (the `form_urlencoded` crate):
/// splits the input on `&`, drops empty pieces, splits each piece on the
/// first `=` (a missing `=` means an empty value), replaces `+` with a space
/// and percent-decodes names and values as lossy UTF-8, yielding the pairs in
/// document order. The result depends on the bytes alone.
#[verifier::external_body]
fn decode_form(data: &Vec<u8>) -> (pairs: Vec<(String, String)>)
    ensures
        pairs_view(pairs@) == form_decoded(data@),
{
    url::form_urlencoded::parse(data.as_slice()).into_owned().collect()
}

/// Where a form pipeline stands.
#[derive(Clone, Debug)]
pub enum FormPhase {
    /// Suspended while the embedder awaits the byte fetch.
    Fetching,
    /// Applying the decoded pairs to `target`, one setter call at a time;
    /// `pairs[next]` is the pair whose setter call the embedder is running.
    Applying { target: ObjId, pairs: Vec<(String, String)>, next: usize },
    /// Finished, successfully or not. The pipeline does nothing further.
    Done,
}

/// What a form pipeline asks of the embedder next.
#[derive(PartialEq, Eq, Debug)]
pub enum FormStep {
    /// Perform this setter call and report its outcome through `advance`.
    Invoke(Action),
    /// The pipeline is over with this result.
    Finished(Result<(), LoadError>),
}

/// The state machine of one form load.
///
/// The embedder schedules it and drives it in order: `resume` with the
/// fetch's outcome, then — while the pipeline keeps answering `Invoke` — one
/// `advance` per performed setter call, all under the one runtime lock
/// acquired for the apply phase. Decoded pairs are applied in document order;
/// a duplicate key simply re-invokes the setter, so the last write wins; a
/// setter fault aborts the remaining pairs. No lifecycle events are
/// dispatched for form loads. The entry is removed when the apply phase ends,
/// with success or with a fault.
pub struct FormPipeline {
    /// Handle of the table entry this pipeline drives.
    pub handle: Handle,
    /// Current phase.
    pub phase: FormPhase,
}

impl FormPipeline {
    /// Resume after the fetch resolved.
    ///
    /// A failed fetch propagates as `FetchFailed`, aborting before the
    /// runtime is touched. On bytes: if the runtime is gone, abort silently;
    /// look the entry up by handle — gone means `LoaderExpired`, a movie
    /// entry means `VariantMismatch`; otherwise decode and issue the first
    /// setter call, or finish at once (removing the entry) when the data
    /// decodes to no pairs.
    pub fn resume(&mut self, mgr: &mut LoadManager, upgraded: bool, fetch: &FetchOutcome) -> (step:
        FormStep)
        requires
            old(self).phase is Fetching,
            old(mgr).wf(),
        ensures
            final(mgr).wf(),
            old(mgr).evolves_to(*final(mgr)),
            final(self).handle == old(self).handle,
            fetch is Failed ==> step == FormStep::Finished(Err::<(), LoadError>(
                LoadError::FetchFailed,
            )) && *final(mgr) == *old(mgr) && final(self).phase is Done,
            fetch is Bytes && !upgraded ==> step == FormStep::Finished(Err::<(), LoadError>(
                LoadError::RuntimeGone,
            )) && *final(mgr) == *old(mgr) && final(self).phase is Done,
            match fetch {
                FetchOutcome::Failed => true,
                FetchOutcome::Bytes(data) => upgraded ==> match old(mgr).lookup(
                    old(self).handle,
                ) {
                    None => step == FormStep::Finished(Err::<(), LoadError>(
                        LoadError::LoaderExpired,
                    )) && *final(mgr) == *old(mgr) && final(self).phase is Done,
                    Some(Loader::Movie { .. }) => step == FormStep::Finished(Err::<(), LoadError>(
                        LoadError::VariantMismatch,
                    )) && *final(mgr) == *old(mgr) && final(self).phase is Done,
                    Some(Loader::Form { target_object, .. }) => if form_decoded(data@).len()
                        == 0 {
                        step == FormStep::Finished(Ok::<(), LoadError>(())) && final(mgr).lookup(
                            old(self).handle,
                        ) is None && (forall|h2: Handle|
                            h2 != old(self).handle ==> #[trigger] final(mgr).lookup(h2) == old(
                                mgr,
                            ).lookup(h2)) && final(self).phase is Done
                    } else {
                        &&& *final(mgr) == *old(mgr)
                        &&& final(self).phase matches FormPhase::Applying { target, pairs, next }
                            && target == target_object && pairs_view(pairs@) == form_decoded(data@)
                            && next == 0 && step == FormStep::Invoke(
                            set_action(target_object, pairs@[0]),
                        )
                    },
                },
            },
    {
        match fetch {
            FetchOutcome::Failed => {
                self.phase = FormPhase::Done;
                FormStep::Finished(Err(LoadError::FetchFailed))
            },
            FetchOutcome::Bytes(data) => {
                if !upgraded {
                    self.phase = FormPhase::Done;
                    return FormStep::Finished(Err(LoadError::RuntimeGone));
                }
                match mgr.get_loader(self.handle) {
                    None => {
                        self.phase = FormPhase::Done;
                        FormStep::Finished(Err(LoadError::LoaderExpired))
                    },
                    Some(Loader::Movie { .. }) => {
                        self.phase = FormPhase::Done;
                        FormStep::Finished(Err(LoadError::VariantMismatch))
                    },
                    Some(Loader::Form { target_object, .. }) => {
                        let pairs = decode_form(data);
                        proof {
                            assert(pairs@.len() == form_decoded(data@).len()) by {
                                assert(pairs_view(pairs@).len() == pairs@.len());
                            }
                        }
                        if pairs.len() == 0 {
                            mgr.remove_loader(self.handle);
                            self.phase = FormPhase::Done;
                            FormStep::Finished(Ok(()))
                        } else {
                            let key = pairs[0].0.clone();
                            let value = pairs[0].1.clone();
                            let first = Action::SetProperty { object: target_object, key, value };
                            self.phase = FormPhase::Applying {
                                target: target_object,
                                pairs,
                                next: 0,
                            };
                            FormStep::Invoke(first)
                        }
                    },
                }
            },
        }
    }

    /// Take the outcome of the setter call just performed and either issue
    /// the next pair's setter call, or end the pipeline: a fault ends it with
    /// `SetterFailed`, leaving the remaining pairs unapplied; running out of
    /// pairs ends it with success. Either ending removes the entry.
    pub fn advance(&mut self, mgr: &mut LoadManager, outcome: SetterOutcome) -> (step: FormStep)
        requires
            old(self).phase matches FormPhase::Applying { target, pairs, next } && next
                < pairs@.len(),
            old(mgr).wf(),
        ensures
            final(mgr).wf(),
            old(mgr).evolves_to(*final(mgr)),
            final(self).handle == old(self).handle,
            match old(self).phase {
                FormPhase::Applying { target, pairs, next } => {
                    &&& outcome is Fault ==> step == FormStep::Finished(Err::<(), LoadError>(
                        LoadError::SetterFailed,
                    )) && final(mgr).lookup(old(self).handle) is None && (forall|h2: Handle|
                        h2 != old(self).handle ==> #[trigger] final(mgr).lookup(h2) == old(
                            mgr,
                        ).lookup(h2)) && final(self).phase is Done
                    &&& outcome is Applied && next + 1 == pairs@.len() ==> step
                        == FormStep::Finished(Ok::<(), LoadError>(())) && final(mgr).lookup(
                        old(self).handle,
                    ) is None && (forall|h2: Handle|
                        h2 != old(self).handle ==> #[trigger] final(mgr).lookup(h2) == old(
                            mgr,
                        ).lookup(h2)) && final(self).phase is Done
                    &&& outcome is Applied && next + 1 < pairs@.len() ==> step == FormStep::Invoke(
                        set_action(target, pairs@[next + 1]),
                    ) && *final(mgr) == *old(mgr) && final(self).phase == (FormPhase::Applying {
                        target,
                        pairs,
                        next: (next + 1) as usize,
                    })
                },
                _ => false,
            },
    {
        match outcome {
            SetterOutcome::Fault => {
                mgr.remove_loader(self.handle);
                self.phase = FormPhase::Done;
                FormStep::Finished(Err(LoadError::SetterFailed))
            },
            SetterOutcome::Applied => {
                let next_call: Option<Action> = match &self.phase {
                    FormPhase::Applying { target, pairs, next } => {
                        let n = pairs.len();
                        if *next < n - 1 {
                            let key = pairs[*next + 1].0.clone();
                            let value = pairs[*next + 1].1.clone();
                            Some(Action::SetProperty { object: *target, key, value })
                        } else {
                            None
                        }
                    },
                    _ => vstd::pervasive::unreached(),
                };
                match next_call {
                    Some(act) => {
                        match &mut self.phase {
                            FormPhase::Applying { next, .. } => {
                                *next = *next + 1;
                            },
                            _ => {},
                        }
                        FormStep::Invoke(act)
                    },
                    None => {
                        mgr.remove_loader(self.handle);
                        self.phase = FormPhase::Done;
                        FormStep::Finished(Ok(()))
                    },
                }
            },
        }
    }
}

} // verus!
