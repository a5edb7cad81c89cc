use vstd::prelude::*;

verus! {

/// Why a pipeline stopped short of its normal end.
///
/// Every error is local to its own pipeline: one failed load never aborts the
/// runtime or any other in-flight load.
#[derive(Clone, Copy, PartialEq, Eq, Structural, Debug)]
pub enum LoadError {
    /// The byte fetch failed. A movie load surfaces this as an `onLoadError`
    /// broadcast; a form load propagates it to whatever scheduled the
    /// pipeline. No cause beyond "failed" is modeled.
    FetchFailed,
    /// The weak runtime reference could not be upgraded: the runtime was torn
    /// down. The pipeline aborts silently, touching no shared state; no
    /// listener is notified, since there is no longer a runtime to notify.
    RuntimeGone,
    /// A pipeline was run against an entry of the other loader kind. A
    /// contract violation by the embedder; the pipeline fails immediately.
    VariantMismatch,
    /// The entry was already gone when a later phase looked it up.
    LoaderExpired,
    /// The target's property setter faulted while a decoded pair was being
    /// applied; the remaining pairs are not applied.
    SetterFailed,
}

/// What the asynchronous byte fetch resolved to. The embedder awaits the
/// fetch and hands the outcome to the suspended pipeline when resuming it.
#[derive(Clone, PartialEq, Eq, Debug)]
pub enum FetchOutcome {
    /// The fetch yielded these bytes.
    Bytes(Vec<u8>),
    /// The fetch failed; no cause is inspected.
    Failed,
}

/// What one invocation of a form target's property setter came to. Setters
/// may run script-level logic and therefore fault.
#[derive(Clone, Copy, PartialEq, Eq, Structural, Debug)]
pub enum SetterOutcome {
    /// The setter ran to completion.
    Applied,
    /// The setter faulted.
    Fault,
}

} // verus!
