use vstd::pervasive::unreached;
use vstd::pervasive::VecAdditionalExecFns;
use vstd::prelude::*;

use crate::action::{ActionQueue, QueuedAction};
use crate::form::{FormPhase, FormPipeline};
use crate::handle::Handle;
use crate::ids::{NodeId, ObjId, TracedRef};
use crate::loader::{init_broadcasts, Loader};
use crate::movie::{MoviePhase, MoviePipeline};

verus! {

/// One slot of the handle table.
///
/// A slot's generation only ever grows: storing an entry keeps it, removing
/// the entry raises it past the removed handle's stamp. A free slot whose
/// generation has reached `u64::MAX` is retired and never reused, so a
/// generation can never wrap back to a value an old handle still carries.
#[derive(Clone, Copy, Debug)]
pub enum Slot {
    /// No entry stored; the next entry stored here is stamped `generation`.
    Free { generation: u64 },
    /// An entry, live under the handle (this slot's index, `generation`).
    Occupied { generation: u64, loader: Loader },
}

impl Slot {
    /// The generation this slot currently carries.
    pub open spec fn gen_spec(self) -> u64 {
        match self {
            Slot::Free { generation } => generation,
            Slot::Occupied { generation, .. } => generation,
        }
    }

    /// True of a free slot that may still hold a new entry.
    pub open spec fn reusable_spec(self) -> bool {
        self matches Slot::Free { generation } && generation < u64::MAX
    }
}

/// The collector-managed references held by the entries of `slots`, in slot
/// order.
pub open spec fn slots_traced(slots: Seq<Slot>) -> Seq<TracedRef>
    decreases slots.len(),
{
    if slots.len() == 0 {
        Seq::empty()
    } else {
        slots_traced(slots.drop_last()) + match slots.last() {
            Slot::Occupied { loader, .. } => loader.traced_spec(),
            Slot::Free { .. } => Seq::empty(),
        }
    }
}

/// Handles of the entries among the first `k` slots that are movie loads
/// targeting `clip`, in slot order: the entries the completion scan reports
/// as completed.
pub open spec fn matching_handles(slots: Seq<Slot>, k: int, clip: NodeId) -> Seq<Handle>
    decreases k,
{
    if k <= 0 {
        Seq::empty()
    } else {
        matching_handles(slots, k - 1, clip) + match slots[k - 1] {
            Slot::Occupied { generation, loader } => if loader.targets_clip(clip) {
                seq![Handle { index: (k - 1) as usize, generation }]
            } else {
                Seq::empty()
            },
            Slot::Free { .. } => Seq::empty(),
        }
    }
}

/// The deferred `onLoadInit` broadcasts the entries among the first `k` slots
/// enqueue when `clip` reports itself initialized, in slot order.
pub open spec fn init_broadcasts_upto(
    slots: Seq<Slot>,
    k: int,
    clip: NodeId,
    clip_object: Option<ObjId>,
    root: NodeId,
) -> Seq<QueuedAction>
    decreases k,
{
    if k <= 0 {
        Seq::empty()
    } else {
        init_broadcasts_upto(slots, k - 1, clip, clip_object, root) + match slots[k - 1] {
            Slot::Occupied { loader, .. } => init_broadcasts(loader, clip, clip_object, root),
            Slot::Free { .. } => Seq::empty(),
        }
    }
}

/// All deferred broadcasts the completion scan of `m` enqueues for `clip`.
pub open spec fn init_broadcasts_all(
    m: LoadManager,
    clip: NodeId,
    clip_object: Option<ObjId>,
    root: NodeId,
) -> Seq<QueuedAction> {
    init_broadcasts_upto(m.slot_seq(), m.slot_seq().len() as int, clip, clip_object, root)
}

/// True when `h`'s slot lies below `k` and holds, under `h`'s generation, a
/// movie load targeting `clip`.
pub open spec fn is_matching_at(slots: Seq<Slot>, k: int, clip: NodeId, h: Handle) -> bool {
    &&& h.index < k
    &&& slots[h.index as int] matches Slot::Occupied { generation, loader } && generation
        == h.generation && loader.targets_clip(clip)
}

/// A handle is among the matching handles of the first `k` slots exactly when
/// its slot is below `k` and holds, under the handle's generation, a movie
/// load targeting `clip`.
proof fn lemma_matching_handles_iff(slots: Seq<Slot>, k: int, clip: NodeId, h: Handle)
    requires
        0 <= k <= slots.len(),
        slots.len() <= usize::MAX,
    ensures
        matching_handles(slots, k, clip).contains(h) <==> is_matching_at(slots, k, clip, h),
    decreases k,
{
    if k > 0 {
        lemma_matching_handles_iff(slots, k - 1, clip, h);
        let prefix = matching_handles(slots, k - 1, clip);
        let whole = matching_handles(slots, k, clip);
        match slots[k - 1] {
            Slot::Occupied { generation, loader } => {
                if loader.targets_clip(clip) {
                    let hk = Handle { index: (k - 1) as usize, generation };
                    assert(whole.len() == prefix.len() + 1);
                    assert(whole[prefix.len() as int] == hk);
                    if whole.contains(h) {
                        let i = choose|i: int| 0 <= i < whole.len() && whole[i] == h;
                        if i < prefix.len() {
                            assert(prefix[i] == h);
                            assert(prefix.contains(h));
                        } else {
                            assert(h == hk);
                        }
                    }
                    if prefix.contains(h) {
                        let i = choose|i: int| 0 <= i < prefix.len() && prefix[i] == h;
                        assert(whole[i] == h);
                        assert(whole.contains(h));
                    }
                    if h == hk {
                        assert(whole.contains(h));
                    }
                } else {
                    assert(whole =~= prefix);
                }
            },
            Slot::Free { .. } => {
                assert(whole =~= prefix);
            },
        }
    }
}

/// The prefix of `s` one longer than `s.subrange(0, j)` holds exactly the
/// members of that subrange and `s[j]`.
proof fn lemma_subrange_push(s: Seq<Handle>, j: int)
    requires
        0 <= j < s.len(),
    ensures
        forall|x: Handle|
            #[trigger] s.subrange(0, j + 1).contains(x) <==> s.subrange(0, j).contains(x) || x
                == s[j],
{
    assert(s.subrange(0, j + 1) =~= s.subrange(0, j).push(s[j]));
    assert forall|x: Handle| #[trigger]
        s.subrange(0, j + 1).contains(x) implies s.subrange(0, j).contains(x) || x == s[j] by {
        let i = choose|i: int|
            0 <= i < s.subrange(0, j + 1).len() && (#[trigger] s.subrange(0, j + 1)[i]) == x;
        if i < j {
            assert(s.subrange(0, j)[i] == x);
        }
    };
    assert forall|x: Handle|
        s.subrange(0, j).contains(x) || x == s[j] implies #[trigger] s.subrange(
        0,
        j + 1,
    ).contains(x) by {
        if s.subrange(0, j).contains(x) {
            let i = choose|i: int| 0 <= i < j && (#[trigger] s.subrange(0, j)[i]) == x;
            assert(s.subrange(0, j + 1)[i] == x);
        } else {
            assert(s.subrange(0, j + 1)[j] == x);
        }
    };
}

/// The handle table: owns every in-flight loader, indexed by a stable,
/// generation-checked handle.
///
/// One instance exists per runtime and lives for the runtime's lifetime.
/// Handles issued by `add_loader` resolve until their entry is removed;
/// afterwards they are expired for good and can never alias a later entry
/// that reuses the slot.
pub struct LoadManager {
    slots: Vec<Slot>,
}

impl LoadManager {
    /// The table's slots, the mathematical model every contract speaks of.
    pub closed spec fn slot_seq(self) -> Seq<Slot> {
        self.slots@
    }

    /// Number of slots (free, retired or occupied) the table has grown to.
    pub open spec fn table_len(self) -> nat {
        self.slot_seq().len()
    }

    /// The generation slot `i` currently carries.
    pub open spec fn slot_gen(self, i: int) -> u64
        recommends
            0 <= i < self.table_len(),
    {
        self.slot_seq()[i].gen_spec()
    }

    /// What `h` resolves to: the entry stored under exactly this index and
    /// generation, if there is one.
    pub open spec fn lookup(self, h: Handle) -> Option<Loader> {
        if h.index < self.table_len() {
            match self.slot_seq()[h.index as int] {
                Slot::Occupied { generation, loader } => if generation == h.generation {
                    Some(loader)
                } else {
                    None
                },
                Slot::Free { .. } => None,
            }
        } else {
            None
        }
    }

    /// True while `h` resolves to an entry.
    pub open spec fn contains_handle(self, h: Handle) -> bool {
        self.lookup(h) is Some
    }

    /// True once `h`'s slot has moved past `h`'s stamp: the handle is dangling
    /// and will never resolve again.
    pub open spec fn expired(self, h: Handle) -> bool {
        h.index < self.table_len() && self.slot_gen(h.index as int) > h.generation
    }

    /// The table only grows and slot generations only rise: everything any
    /// sequence of table operations can do. Expiry survives it.
    pub open spec fn evolves_to(self, later: LoadManager) -> bool {
        &&& self.table_len() <= later.table_len()
        &&& forall|i: int|
            0 <= i < self.table_len() ==> #[trigger] self.slot_gen(i) <= later.slot_gen(i)
    }

    /// Table well-formedness: an occupied slot's generation is below
    /// `u64::MAX`, so removal can always raise it past the handle's stamp.
    pub open spec fn wf(self) -> bool {
        forall|i: int|
            0 <= i < self.table_len() ==> ((#[trigger] self.slot_seq()[i]) matches Slot::Occupied {
                generation,
                ..
            } ==> generation < u64::MAX)
    }

    /// Construct an empty handle table.
    pub fn new() -> (m: LoadManager)
        ensures
            m.wf(),
            m.table_len() == 0,
            forall|h: Handle| #[trigger] m.lookup(h) is None,
            forall|h: Handle| !(#[trigger] m.expired(h)),
    {
        LoadManager { slots: Vec::new() }
    }

    /// Store a loader, stamp it with the fresh handle of the slot it landed
    /// in, and return that handle.
    ///
    /// The handle is fresh in the strong sense: it resolved to nothing before
    /// this call, and it is not an expired handle of some earlier entry.
    pub fn add_loader(&mut self, loader: Loader) -> (h: Handle)
        requires
            old(self).wf(),
        ensures
            final(self).wf(),
            old(self).evolves_to(*final(self)),
            old(self).lookup(h) is None,
            !old(self).expired(h),
            final(self).lookup(h) == Some(loader.with_handle(h)),
            forall|h2: Handle|
                h2 != h ==> #[trigger] final(self).lookup(h2) == old(self).lookup(h2),
    {
        let mut stamped = loader;
        match find_reusable(&self.slots) {
            Some(i) => {
                let generation = match self.slots[i] {
                    Slot::Free { generation } => generation,
                    Slot::Occupied { .. } => unreached(),
                };
                let handle = Handle { index: i, generation };
                stamped.introduce_loader_handle(handle);
                self.slots.set(i, Slot::Occupied { generation, loader: stamped });
                handle
            },
            None => {
                let handle = Handle { index: self.slots.len(), generation: 0 };
                stamped.introduce_loader_handle(handle);
                self.slots.push(Slot::Occupied { generation: 0, loader: stamped });
                handle
            },
        }
    }

    /// Retrieve a copy of the loader stored under `handle`, if the handle
    /// still resolves.
    pub fn get_loader(&self, handle: Handle) -> (r: Option<Loader>)
        ensures
            r == self.lookup(handle),
    {
        if handle.index < self.slots.len() {
            match self.slots[handle.index] {
                Slot::Occupied { generation, loader } => if generation == handle.generation {
                    Some(loader)
                } else {
                    None
                },
                Slot::Free { .. } => None,
            }
        } else {
            None
        }
    }

    /// Retrieve the loader stored under `handle` for mutation, if the handle
    /// still resolves.
    pub fn get_loader_mut(&mut self, handle: Handle) -> (r: Option<&mut Loader>)
        ensures
            old(self).wf() ==> final(self).wf(),
            old(self).evolves_to(*final(self)),
            final(self).table_len() == old(self).table_len(),
            old(self).lookup(handle) is None ==> r is None && *final(self) == *old(self),
            old(self).lookup(handle) matches Some(l) ==> (r matches Some(lr) && *lr == l
                && final(self).slot_seq() == old(self).slot_seq().update(
                handle.index as int,
                (Slot::Occupied { generation: handle.generation, loader: *final(lr) }),
            )),
    {
        if handle.index < self.slots.len() {
            let hit = match &self.slots[handle.index] {
                Slot::Occupied { generation, .. } => *generation == handle.generation,
                Slot::Free { .. } => false,
            };
            if hit {
                match &mut self.slots[handle.index] {
                    Slot::Occupied { loader, .. } => Some(loader),
                    Slot::Free { .. } => unreached(),
                }
            } else {
                None
            }
        } else {
            None
        }
    }

    /// Remove the entry stored under `handle` and return it.
    ///
    /// Removal is idempotent: a handle that resolves to nothing — never
    /// issued, or already removed — leaves the table exactly as it was and
    /// returns `None`. Removing a live entry expires its handle for good.
    pub fn remove_loader(&mut self, handle: Handle) -> (r: Option<Loader>)
        requires
            old(self).wf(),
        ensures
            final(self).wf(),
            old(self).evolves_to(*final(self)),
            final(self).table_len() == old(self).table_len(),
            r == old(self).lookup(handle),
            final(self).lookup(handle) is None,
            old(self).lookup(handle) is Some ==> final(self).expired(handle),
            old(self).lookup(handle) is None ==> *final(self) == *old(self),
            forall|h2: Handle|
                h2 != handle ==> #[trigger] final(self).lookup(h2) == old(self).lookup(h2),
    {
        if handle.index < self.slots.len() {
            match self.slots[handle.index] {
                Slot::Occupied { generation, loader } => {
                    if generation == handle.generation {
                        assert(generation < u64::MAX);
                        self.slots.set(
                            handle.index,
                            Slot::Free { generation: generation + 1 },
                        );
                        return Some(loader);
                    }
                    None
                },
                Slot::Free { .. } => None,
            }
        } else {
            None
        }
    }

    /// Enumerate every collector-managed reference held by any stored entry,
    /// for the collector's reachability scan.
    pub fn trace(&self) -> (refs: Vec<TracedRef>)
        ensures
            refs@ == slots_traced(self.slot_seq()),
    {
        let mut refs: Vec<TracedRef> = Vec::new();
        let mut i: usize = 0;
        while i < self.slots.len()
            invariant
                i <= self.slots.len(),
                refs@ == slots_traced(self.slot_seq().take(i as int)),
            decreases self.slots.len() - i,
        {
            match &self.slots[i] {
                Slot::Occupied { loader, .. } => {
                    let mut more = loader.trace();
                    refs.append(&mut more);
                },
                Slot::Free { .. } => {},
            }
            proof {
                assert(self.slot_seq().take(i + 1 as int).drop_last() =~= self.slot_seq().take(
                    i as int,
                ));
                assert(self.slot_seq().take(i + 1 as int).last() == self.slot_seq()[i as int]);
            }
            i += 1;
        }
        proof {
            assert(self.slot_seq().take(self.slot_seq().len() as int) =~= self.slot_seq());
        }
        refs
    }

    /// Start a movie load into `target_clip`: store a fresh movie-load entry,
    /// stamped with its own handle, and hand back that handle with the
    /// pipeline the embedder must schedule.
    pub fn load_movie_into_clip(
        &mut self,
        target_clip: NodeId,
        target_broadcaster: Option<ObjId>,
    ) -> (r: (Handle, MoviePipeline))
        requires
            old(self).wf(),
        ensures
            final(self).wf(),
            old(self).evolves_to(*final(self)),
            old(self).lookup(r.0) is None,
            !old(self).expired(r.0),
            final(self).lookup(r.0) == Some(
                (Loader::Movie { self_handle: Some(r.0), target_clip, target_broadcaster }),
            ),
            forall|h2: Handle|
                h2 != r.0 ==> #[trigger] final(self).lookup(h2) == old(self).lookup(h2),
            r.1 == (MoviePipeline { handle: r.0, phase: MoviePhase::Ready }),
    {
        let loader = Loader::Movie { self_handle: None, target_clip, target_broadcaster };
        let handle = self.add_loader(loader);
        let stored = match self.get_loader(handle) {
            Some(l) => l,
            None => unreached(),
        };
        let pipeline = match stored.movie_loader() {
            Ok(p) => p,
            Err(_) => unreached(),
        };
        (handle, pipeline)
    }

    /// Start a form load into `target_object`: store a fresh form-load entry,
    /// stamped with its own handle, and hand back that handle with the
    /// pipeline the embedder must schedule.
    pub fn load_form_into_object(&mut self, target_object: ObjId) -> (r: (Handle, FormPipeline))
        requires
            old(self).wf(),
        ensures
            final(self).wf(),
            old(self).evolves_to(*final(self)),
            old(self).lookup(r.0) is None,
            !old(self).expired(r.0),
            final(self).lookup(r.0) == Some(
                (Loader::Form { self_handle: Some(r.0), target_object }),
            ),
            forall|h2: Handle|
                h2 != r.0 ==> #[trigger] final(self).lookup(h2) == old(self).lookup(h2),
            r.1 == (FormPipeline { handle: r.0, phase: FormPhase::Fetching }),
    {
        let loader = Loader::Form { self_handle: None, target_object };
        let handle = self.add_loader(loader);
        let stored = match self.get_loader(handle) {
            Some(l) => l,
            None => unreached(),
        };
        let pipeline = match stored.form_loader() {
            Ok(p) => p,
            Err(_) => unreached(),
        };
        (handle, pipeline)
    }

    /// The completion scan, invoked by the scene-graph owner whenever
    /// `loaded_clip` finishes first-frame initialization.
    ///
    /// Every entry's initialization-check hook runs over the full table
    /// first; entries reporting completion — the movie loads targeting that
    /// node — are collected and removed only after the iteration, never while
    /// the table is mid-iteration. Each completed entry with a broadcaster
    /// enqueues one deferred `onLoadInit` broadcast, in slot order; every
    /// other entry stays, untouched and still queryable.
    pub fn movie_clip_on_load(
        &mut self,
        loaded_clip: NodeId,
        clip_object: Option<ObjId>,
        root: NodeId,
        queue: &mut ActionQueue,
    )
        requires
            old(self).wf(),
        ensures
            final(self).wf(),
            old(self).evolves_to(*final(self)),
            final(self).table_len() == old(self).table_len(),
            forall|h: Handle|
                #![trigger final(self).lookup(h)]
                match old(self).lookup(h) {
                    Some(l) => if l.targets_clip(loaded_clip) {
                        final(self).lookup(h) is None && final(self).expired(h)
                    } else {
                        final(self).lookup(h) == old(self).lookup(h)
                    },
                    None => final(self).lookup(h) is None,
                },
            final(queue).queued() == old(queue).queued() + init_broadcasts_all(
                *old(self),
                loaded_clip,
                clip_object,
                root,
            ),
    {
        let n = self.slots.len();
        let mut done: Vec<Handle> = Vec::new();
        let mut i: usize = 0;
        while i < n
            invariant
                *self == *old(self),
                n == self.slot_seq().len(),
                i <= n,
                queue.queued() == old(queue).queued() + init_broadcasts_upto(
                    self.slot_seq(),
                    i as int,
                    loaded_clip,
                    clip_object,
                    root,
                ),
                done@ == matching_handles(self.slot_seq(), i as int, loaded_clip),
            decreases n - i,
        {
            match self.slots[i] {
                Slot::Occupied { generation, loader } => {
                    let completed = loader.movie_clip_loaded(
                        loaded_clip,
                        clip_object,
                        root,
                        queue,
                    );
                    if completed {
                        done.push(Handle { index: i, generation });
                    }
                },
                Slot::Free { .. } => {},
            }
            proof {
                assert(queue.queued() =~= old(queue).queued() + init_broadcasts_upto(
                    self.slot_seq(),
                    i as int + 1,
                    loaded_clip,
                    clip_object,
                    root,
                ));
                assert(done@ =~= matching_handles(self.slot_seq(), i as int + 1, loaded_clip));
            }
            i += 1;
        }
        proof {
            assert(init_broadcasts_upto(
                self.slot_seq(),
                n as int,
                loaded_clip,
                clip_object,
                root,
            ) == init_broadcasts_all(*old(self), loaded_clip, clip_object, root));
        }
        let mut j: usize = 0;
        while j < done.len()
            invariant
                self.wf(),
                old(self).evolves_to(*self),
                self.table_len() == old(self).table_len(),
                n == old(self).slot_seq().len(),
                j <= done@.len(),
                done@ == matching_handles(old(self).slot_seq(), n as int, loaded_clip),
                queue.queued() == old(queue).queued() + init_broadcasts_all(
                    *old(self),
                    loaded_clip,
                    clip_object,
                    root,
                ),
                forall|h: Handle|
                    done@.subrange(0, j as int).contains(h) ==> #[trigger] self.lookup(h) is None
                        && self.expired(h),
                forall|h: Handle|
                    !done@.subrange(0, j as int).contains(h) ==> #[trigger] self.lookup(h) == old(
                        self,
                    ).lookup(h),
            decreases done@.len() - j,
        {
            let ghost prestep = *self;
            let h = done[j];
            self.remove_loader(h);
            proof {
                lemma_subrange_push(done@, j as int);
                lemma_matching_handles_iff(old(self).slot_seq(), n as int, loaded_clip, h);
                assert(done@.contains(h)) by {
                    assert(done@[j as int] == h);
                }
                assert forall|h2: Handle|
                    done@.subrange(0, j as int + 1).contains(h2) implies #[trigger] self.lookup(
                    h2,
                ) is None && self.expired(h2) by {
                    if h2 == h {
                        if prestep.lookup(h) is Some {
                            // removal of a live entry expires it
                        } else {
                            // already removed by an earlier duplicate: it was
                            // expired then, and expiry survives evolution
                            assert(done@.subrange(0, j as int).contains(h) || prestep.lookup(h)
                                == old(self).lookup(h));
                            assert(old(self).lookup(h) is Some);
                            assert(done@.subrange(0, j as int).contains(h));
                            lemma_expired_stays_expired(prestep, *self, h);
                        }
                    } else {
                        lemma_expired_stays_expired(prestep, *self, h2);
                    }
                }
                assert forall|h2: Handle|
                    !done@.subrange(0, j as int + 1).contains(h2) implies #[trigger] self.lookup(
                    h2,
                ) == old(self).lookup(h2) by {
                    assert(h2 != h && !done@.subrange(0, j as int).contains(h2));
                }
                lemma_evolves_trans(*old(self), prestep, *self);
            }
            j += 1;
        }
        proof {
            assert(done@.subrange(0, done@.len() as int) =~= done@);
            assert forall|h: Handle|
                #![trigger final(self).lookup(h)]
                match old(self).lookup(h) {
                    Some(l) => if l.targets_clip(loaded_clip) {
                        self.lookup(h) is None && self.expired(h)
                    } else {
                        self.lookup(h) == old(self).lookup(h)
                    },
                    None => self.lookup(h) is None,
                } by {
                lemma_matching_handles_iff(old(self).slot_seq(), n as int, loaded_clip, h);
                match old(self).lookup(h) {
                    Some(l) => {
                        if l.targets_clip(loaded_clip) {
                            assert(done@.contains(h));
                        } else {
                            assert(!done@.contains(h));
                        }
                    },
                    None => {
                        assert(!done@.contains(h));
                    },
                }
            }
        }
    }
}

impl Default for LoadManager {
    /// An empty handle table, exactly as `new` builds it.
    fn default() -> (m: Self)
        ensures
            m.wf(),
            m.table_len() == 0,
            forall|h: Handle| #[trigger] m.lookup(h) is None,
    {
        LoadManager::new()
    }
}

/// True of a free slot that may hold a new entry.
fn slot_reusable(s: &Slot) -> (r: bool)
    ensures
        r == s.reusable_spec(),
{
    match s {
        Slot::Free { generation } => *generation < u64::MAX,
        Slot::Occupied { .. } => false,
    }
}

/// Position of the first slot a new entry may reuse, if any.
fn find_reusable(slots: &Vec<Slot>) -> (r: Option<usize>)
    ensures
        r matches Some(i) ==> i < slots@.len() && slots@[i as int].reusable_spec(),
        r is None ==> forall|j: int| 0 <= j < slots@.len() ==> !(#[trigger] slots@[j]).reusable_spec(),
{
    let mut i: usize = 0;
    while i < slots.len()
        invariant
            i <= slots@.len(),
            forall|j: int| 0 <= j < i ==> !(#[trigger] slots@[j]).reusable_spec(),
        decreases slots@.len() - i,
    {
        if slot_reusable(&slots[i]) {
            return Some(i);
        }
        i += 1;
    }
    None
}

/// Law (handle uniqueness): no two live entries share a handle. Two handles
/// that both resolve and address the same slot are the same handle.
pub proof fn lemma_live_handles_unique(m: LoadManager, h1: Handle, h2: Handle)
    requires
        m.lookup(h1) is Some,
        m.lookup(h2) is Some,
        h1.index == h2.index,
    ensures
        h1 == h2,
{
}

/// Law (staleness, one step): an expired handle resolves to nothing, whatever
/// entry now occupies its slot.
pub proof fn lemma_expired_never_resolves(m: LoadManager, h: Handle)
    requires
        m.expired(h),
    ensures
        m.lookup(h) is None,
{
}

/// Law (staleness, forever): expiry survives any evolution of the table, so a
/// handle expired by removal never resolves to a later-inserted entry that
/// reuses its slot.
pub proof fn lemma_expired_stays_expired(pre: LoadManager, post: LoadManager, h: Handle)
    requires
        pre.evolves_to(post),
        pre.expired(h),
    ensures
        post.expired(h),
{
}

/// Law (staleness, end to end): a handle expired in some state — as removal
/// leaves it — resolves to nothing in every state the table can evolve to,
/// however many inserts and removals lie in between and whatever entry now
/// occupies its slot. Every table operation's contract supplies the
/// `evolves_to` step.
pub proof fn lemma_stale_handle_resolves_to_nothing(
    pre: LoadManager,
    post: LoadManager,
    h: Handle,
)
    requires
        pre.evolves_to(post),
        pre.expired(h),
    ensures
        post.lookup(h) is None,
{
    lemma_expired_stays_expired(pre, post, h);
    lemma_expired_never_resolves(post, h);
}

/// Evolution is transitive, so the two staleness laws chain across any
/// sequence of table operations.
pub proof fn lemma_evolves_trans(a: LoadManager, b: LoadManager, c: LoadManager)
    requires
        a.evolves_to(b),
        b.evolves_to(c),
    ensures
        a.evolves_to(c),
{
}

} // verus!
