use vstd::prelude::*;

use crate::action::{Action, LoadEvent};
use crate::ids::{NodeId, ObjId};
use crate::movie::{
    movie_failure_actions, movie_finish_actions, movie_start_actions, movie_success_actions,
};

verus! {

/// The lifecycle events an action sequence dispatches, in order: the
/// broadcast actions' events, with every other effect dropped.
pub open spec fn broadcast_events(s: Seq<Action>) -> Seq<LoadEvent>
    decreases s.len(),
{
    if s.len() == 0 {
        Seq::empty()
    } else {
        broadcast_events(s.drop_last()) + match s.last() {
            Action::Broadcast { event, .. } => seq![event],
            _ => Seq::empty(),
        }
    }
}

/// Event projection distributes over concatenation of action sequences, so
/// the events of a whole pipeline run are the events of its phases in phase
/// order.
pub proof fn lemma_broadcast_events_add(a: Seq<Action>, b: Seq<Action>)
    ensures
        broadcast_events(a + b) == broadcast_events(a) + broadcast_events(b),
    decreases b.len(),
{
    if b.len() == 0 {
        assert(a + b =~= a);
        assert(broadcast_events(b) + Seq::<LoadEvent>::empty() =~= broadcast_events(b));
        assert(broadcast_events(a) + broadcast_events(b) =~= broadcast_events(a));
    } else {
        lemma_broadcast_events_add(a, b.drop_last());
        assert((a + b).drop_last() =~= a + b.drop_last());
        assert((a + b).last() == b.last());
        assert(broadcast_events(a + b) =~= broadcast_events(a) + broadcast_events(b));
    }
}

/// Registering deferred asset definitions dispatches no event, however many
/// there are.
pub proof fn lemma_register_assets_no_events(ids: Seq<u16>)
    ensures
        broadcast_events(ids.map_values(|id: u16| (Action::RegisterAsset { id }))) == Seq::<
            LoadEvent,
        >::empty(),
    decreases ids.len(),
{
    let m = ids.map_values(|id: u16| (Action::RegisterAsset { id }));
    if ids.len() == 0 {
        assert(m =~= Seq::empty());
    } else {
        lemma_register_assets_no_events(ids.drop_last());
        assert(m.drop_last() =~= ids.drop_last().map_values(
            |id: u16| (Action::RegisterAsset { id }),
        ));
        assert(broadcast_events(m) =~= Seq::empty());
    }
}

/// Law (movie success ordering): with a broadcaster present, a movie load
/// that starts, fetches its bytes and finishes dispatches exactly
/// `onLoadStart`, `onLoadProgress` and `onLoadComplete`, in that order —
/// whatever the byte count and whatever deferred assets the preload yielded.
/// Each broadcast action drains the interpreter's call stack before the next
/// action is performed, so each event's script side effects resolve fully
/// before the next event fires.
pub proof fn lemma_movie_success_event_order(
    clip: NodeId,
    listener: ObjId,
    len: usize,
    ids: Seq<u16>,
)
    ensures
        broadcast_events(
            movie_start_actions(clip, Some(listener)) + movie_success_actions(
                clip,
                Some(listener),
                len,
            ) + movie_finish_actions(clip, Some(listener), ids),
        ) == seq![
            LoadEvent::Start,
            LoadEvent::Progress { loaded: len, total: len },
            LoadEvent::Complete,
        ],
{
    reveal_with_fuel(broadcast_events, 5);
    let start = movie_start_actions(clip, Some(listener));
    let success = movie_success_actions(clip, Some(listener), len);
    let finish = movie_finish_actions(clip, Some(listener), ids);
    lemma_broadcast_events_add(start + success, finish);
    lemma_broadcast_events_add(start, success);
    lemma_register_assets_no_events(ids);
    lemma_broadcast_events_add(
        ids.map_values(|id: u16| (Action::RegisterAsset { id })),
        seq![
            Action::Broadcast { node: clip, listener, event: LoadEvent::Complete },
        ],
    );
    assert(broadcast_events(start) =~= seq![LoadEvent::Start]);
    assert(broadcast_events(success) =~= seq![
        LoadEvent::Progress { loaded: len, total: len },
    ]);
    assert(finish =~= ids.map_values(|id: u16| (Action::RegisterAsset { id })) + seq![
        Action::Broadcast { node: clip, listener, event: LoadEvent::Complete },
    ]);
    assert(broadcast_events(
        seq![Action::Broadcast { node: clip, listener, event: LoadEvent::Complete }],
    ) =~= seq![LoadEvent::Complete]);
    assert(broadcast_events(start + success + finish) =~= seq![
        LoadEvent::Start,
        LoadEvent::Progress { loaded: len, total: len },
        LoadEvent::Complete,
    ]);
}

/// Law (movie failure ordering): with a broadcaster present, a movie load
/// whose fetch fails dispatches exactly `onLoadStart` then `onLoadError`;
/// `onLoadProgress` and `onLoadComplete` never fire.
pub proof fn lemma_movie_failure_event_order(clip: NodeId, listener: ObjId)
    ensures
        broadcast_events(
            movie_start_actions(clip, Some(listener)) + movie_failure_actions(
                clip,
                Some(listener),
            ),
        ) == seq![LoadEvent::Start, LoadEvent::Error],
{
    reveal_with_fuel(broadcast_events, 5);
    let start = movie_start_actions(clip, Some(listener));
    let failure = movie_failure_actions(clip, Some(listener));
    lemma_broadcast_events_add(start, failure);
    assert(broadcast_events(start) =~= seq![LoadEvent::Start]);
    assert(broadcast_events(failure) =~= seq![LoadEvent::Error]);
    assert(broadcast_events(start + failure) =~= seq![LoadEvent::Start, LoadEvent::Error]);
}

/// Law (no broadcaster, no events): without a broadcaster, neither the
/// successful nor the failed movie path dispatches any event at all, while
/// the content effects are unchanged: the target is still unloaded and
/// detached up front, and on success the movie is still attached,
/// instantiated and preloaded.
pub proof fn lemma_no_broadcaster_no_events(clip: NodeId, len: usize, ids: Seq<u16>)
    ensures
        broadcast_events(
            movie_start_actions(clip, None) + movie_success_actions(clip, None, len)
                + movie_finish_actions(clip, None, ids),
        ) == Seq::<LoadEvent>::empty(),
        broadcast_events(movie_start_actions(clip, None) + movie_failure_actions(clip, None))
            == Seq::<LoadEvent>::empty(),
        movie_start_actions(clip, None) == seq![
            Action::Unload { node: clip },
            Action::Clear { node: clip },
        ],
        movie_success_actions(clip, None, len) == seq![
            Action::Attach { node: clip },
            Action::PostInstantiate { node: clip },
            Action::Preload { node: clip },
        ],
        movie_failure_actions(clip, None) == Seq::<Action>::empty(),
{
    reveal_with_fuel(broadcast_events, 5);
    let start = movie_start_actions(clip, None);
    let success = movie_success_actions(clip, None, len);
    let finish = movie_finish_actions(clip, None, ids);
    let failure = movie_failure_actions(clip, None);
    lemma_broadcast_events_add(start + success, finish);
    lemma_broadcast_events_add(start, success);
    lemma_broadcast_events_add(start, failure);
    lemma_register_assets_no_events(ids);
    assert(start =~= seq![Action::Unload { node: clip }, Action::Clear { node: clip }]);
    assert(success =~= seq![
        Action::Attach { node: clip },
        Action::PostInstantiate { node: clip },
        Action::Preload { node: clip },
    ]);
    assert(failure =~= Seq::<Action>::empty());
    assert(finish =~= ids.map_values(|id: u16| (Action::RegisterAsset { id })));
    assert(broadcast_events(start) =~= Seq::<LoadEvent>::empty());
    assert(broadcast_events(success) =~= Seq::<LoadEvent>::empty());
    assert(broadcast_events(start + success + finish) =~= Seq::<LoadEvent>::empty());
    assert(broadcast_events(start + failure) =~= Seq::<LoadEvent>::empty());
}

} // verus!
