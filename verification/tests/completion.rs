use loadpipe::action::{ActionQueue, InitValue, QueuedAction};
use loadpipe::ids::{NodeId, ObjId};
use loadpipe::manager::LoadManager;
use loadpipe::outcome::FetchOutcome;

#[test]
fn initialized_node_purges_its_loader_and_queues_onloadinit() {
    let mut mgr = LoadManager::new();
    let mut queue = ActionQueue::new();
    let root = NodeId(0);

    let (h_a, mut p_a) = mgr.load_movie_into_clip(NodeId(1), Some(ObjId(7)));
    let (h_b, mut p_b) = mgr.load_movie_into_clip(NodeId(2), Some(ObjId(8)));
    let (h_form, _) = mgr.load_form_into_object(ObjId(9));
    p_a.begin(&mut mgr, true).unwrap();
    p_a.resume(&mut mgr, true, &FetchOutcome::Bytes(vec![1])).unwrap();
    p_a.finish(&mut mgr, &Vec::new()).unwrap();
    p_b.begin(&mut mgr, true).unwrap();

    // node 1 reports first-frame initialization
    mgr.movie_clip_on_load(NodeId(1), Some(ObjId(20)), root, &mut queue);

    // exactly one onLoadInit is enqueued, deferred, with the companion object
    let queued = queue.take_all();
    assert_eq!(
        queued,
        vec![QueuedAction {
            target: NodeId(1),
            root,
            listener: ObjId(7),
            argument: InitValue::Object(ObjId(20)),
        }]
    );

    // the completed loader is purged; the others remain queryable
    assert!(mgr.get_loader(h_a).is_none());
    assert!(mgr.get_loader(h_b).is_some());
    assert!(mgr.get_loader(h_form).is_some());
}

#[test]
fn initialized_node_without_broadcaster_queues_nothing() {
    let mut mgr = LoadManager::new();
    let mut queue = ActionQueue::new();
    let (h, mut p) = mgr.load_movie_into_clip(NodeId(4), None);
    p.begin(&mut mgr, true).unwrap();

    mgr.movie_clip_on_load(NodeId(4), None, NodeId(0), &mut queue);
    assert_eq!(queue.take_all(), Vec::new());
    assert!(mgr.get_loader(h).is_none());
}

#[test]
fn unrelated_node_initialization_changes_nothing() {
    let mut mgr = LoadManager::new();
    let mut queue = ActionQueue::new();
    let (h, _) = mgr.load_movie_into_clip(NodeId(1), Some(ObjId(7)));

    mgr.movie_clip_on_load(NodeId(99), None, NodeId(0), &mut queue);
    assert_eq!(queue.take_all(), Vec::new());
    assert!(mgr.get_loader(h).is_some());
}

#[test]
fn companion_defaults_to_undefined() {
    let mut mgr = LoadManager::new();
    let mut queue = ActionQueue::new();
    mgr.load_movie_into_clip(NodeId(1), Some(ObjId(7)));

    mgr.movie_clip_on_load(NodeId(1), None, NodeId(3), &mut queue);
    let queued = queue.take_all();
    assert_eq!(queued.len(), 1);
    assert_eq!(queued[0].argument, InitValue::Undefined);
    assert_eq!(queued[0].root, NodeId(3));
}
