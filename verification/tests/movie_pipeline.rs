use loadpipe::action::{Action, LoadEvent};
use loadpipe::ids::{NodeId, ObjId};
use loadpipe::loader::Loader;
use loadpipe::manager::LoadManager;
use loadpipe::movie::MoviePhase;
use loadpipe::outcome::{FetchOutcome, LoadError};

fn events_of(actions: &[Action]) -> Vec<LoadEvent> {
    actions
        .iter()
        .filter_map(|a| match a {
            Action::Broadcast { event, .. } => Some(*event),
            _ => None,
        })
        .collect()
}

#[test]
fn successful_load_dispatches_start_progress_complete() {
    let mut mgr = LoadManager::new();
    let (handle, mut pipeline) = mgr.load_movie_into_clip(NodeId(1), Some(ObjId(7)));

    let start = pipeline.begin(&mut mgr, true).unwrap();
    assert_eq!(
        start,
        vec![
            Action::Unload { node: NodeId(1) },
            Action::Clear { node: NodeId(1) },
            Action::Broadcast { node: NodeId(1), listener: ObjId(7), event: LoadEvent::Start },
        ]
    );

    let bytes = vec![0x46, 0x57, 0x53, 0x05];
    let resumed = pipeline.resume(&mut mgr, true, &FetchOutcome::Bytes(bytes)).unwrap();
    assert_eq!(
        resumed,
        vec![
            Action::Broadcast {
                node: NodeId(1),
                listener: ObjId(7),
                event: LoadEvent::Progress { loaded: 4, total: 4 },
            },
            Action::Attach { node: NodeId(1) },
            Action::PostInstantiate { node: NodeId(1) },
            Action::Preload { node: NodeId(1) },
        ]
    );

    let finish = pipeline.finish(&mut mgr, &vec![12, 5]).unwrap();
    assert_eq!(
        finish,
        vec![
            Action::RegisterAsset { id: 12 },
            Action::RegisterAsset { id: 5 },
            Action::Broadcast { node: NodeId(1), listener: ObjId(7), event: LoadEvent::Complete },
        ]
    );
    assert_eq!(pipeline.phase, MoviePhase::Done);

    let mut all = start;
    all.extend(resumed);
    all.extend(finish);
    assert_eq!(
        events_of(&all),
        vec![
            LoadEvent::Start,
            LoadEvent::Progress { loaded: 4, total: 4 },
            LoadEvent::Complete,
        ]
    );

    // a successful load stays registered until its node reports initialized
    assert!(mgr.get_loader(handle).is_some());
}

#[test]
fn failed_fetch_dispatches_start_then_error_only() {
    let mut mgr = LoadManager::new();
    let (handle, mut pipeline) = mgr.load_movie_into_clip(NodeId(1), Some(ObjId(7)));

    let start = pipeline.begin(&mut mgr, true).unwrap();
    let failed = pipeline.resume(&mut mgr, true, &FetchOutcome::Failed).unwrap();
    assert_eq!(
        failed,
        vec![Action::Broadcast { node: NodeId(1), listener: ObjId(7), event: LoadEvent::Error }]
    );
    // no progress, no complete, nothing attached
    let mut all = start;
    all.extend(failed);
    assert_eq!(events_of(&all), vec![LoadEvent::Start, LoadEvent::Error]);
    assert!(!all.iter().any(|a| matches!(a, Action::Attach { .. })));
    // the failed load's entry is gone
    assert!(mgr.get_loader(handle).is_none());
}

#[test]
fn no_broadcaster_means_no_events_on_either_path() {
    let mut mgr = LoadManager::new();
    let (_, mut ok_pipeline) = mgr.load_movie_into_clip(NodeId(1), None);
    let start = ok_pipeline.begin(&mut mgr, true).unwrap();
    let resumed = ok_pipeline.resume(&mut mgr, true, &FetchOutcome::Bytes(vec![1, 2])).unwrap();
    let finish = ok_pipeline.finish(&mut mgr, &vec![3]).unwrap();
    assert_eq!(
        start,
        vec![Action::Unload { node: NodeId(1) }, Action::Clear { node: NodeId(1) }]
    );
    assert_eq!(
        resumed,
        vec![
            Action::Attach { node: NodeId(1) },
            Action::PostInstantiate { node: NodeId(1) },
            Action::Preload { node: NodeId(1) },
        ]
    );
    assert_eq!(finish, vec![Action::RegisterAsset { id: 3 }]);

    let (_, mut err_pipeline) = mgr.load_movie_into_clip(NodeId(2), None);
    let start2 = err_pipeline.begin(&mut mgr, true).unwrap();
    let failed = err_pipeline.resume(&mut mgr, true, &FetchOutcome::Failed).unwrap();
    assert_eq!(
        start2,
        vec![Action::Unload { node: NodeId(2) }, Action::Clear { node: NodeId(2) }]
    );
    assert_eq!(failed, Vec::new());
}

#[test]
fn runtime_gone_aborts_without_touching_the_table() {
    let mut mgr = LoadManager::new();
    let (handle, mut pipeline) = mgr.load_movie_into_clip(NodeId(1), Some(ObjId(7)));
    let r = pipeline.begin(&mut mgr, false);
    assert_eq!(r, Err(LoadError::RuntimeGone));
    assert_eq!(pipeline.phase, MoviePhase::Done);
    // no event fired, and the entry is exactly as it was
    assert!(matches!(
        mgr.get_loader(handle),
        Some(Loader::Movie { target_clip: NodeId(1), .. })
    ));

    let (handle2, mut pipeline2) = mgr.load_movie_into_clip(NodeId(2), Some(ObjId(7)));
    pipeline2.begin(&mut mgr, true).unwrap();
    let r2 = pipeline2.resume(&mut mgr, false, &FetchOutcome::Bytes(vec![1]));
    assert_eq!(r2, Err(LoadError::RuntimeGone));
    assert!(mgr.get_loader(handle2).is_some());
}

#[test]
fn expired_entry_fails_the_pipeline_cleanly() {
    let mut mgr = LoadManager::new();
    let (handle, mut pipeline) = mgr.load_movie_into_clip(NodeId(1), Some(ObjId(7)));
    mgr.remove_loader(handle);
    let r = pipeline.begin(&mut mgr, true);
    assert_eq!(r, Err(LoadError::LoaderExpired));
}

#[test]
fn interleaved_loads_each_keep_their_own_order() {
    let mut mgr = LoadManager::new();
    let (_, mut p1) = mgr.load_movie_into_clip(NodeId(1), Some(ObjId(7)));
    let (_, mut p2) = mgr.load_movie_into_clip(NodeId(2), Some(ObjId(8)));

    // the scheduler interleaves the two pipelines freely; each one's own
    // event sequence stays strict
    let mut log1 = p1.begin(&mut mgr, true).unwrap();
    let mut log2 = p2.begin(&mut mgr, true).unwrap();
    log2.extend(p2.resume(&mut mgr, true, &FetchOutcome::Failed).unwrap());
    log1.extend(p1.resume(&mut mgr, true, &FetchOutcome::Bytes(vec![9, 9, 9])).unwrap());
    log1.extend(p1.finish(&mut mgr, &Vec::new()).unwrap());

    assert_eq!(
        events_of(&log1),
        vec![
            LoadEvent::Start,
            LoadEvent::Progress { loaded: 3, total: 3 },
            LoadEvent::Complete,
        ]
    );
    assert_eq!(events_of(&log2), vec![LoadEvent::Start, LoadEvent::Error]);
}

#[test]
fn movie_pipeline_refuses_a_form_entry() {
    let mut mgr = LoadManager::new();
    // a movie pipeline constructed from a form loader is refused at once
    let (_, form_pipeline) = mgr.load_form_into_object(ObjId(5));
    let form_entry = mgr.get_loader(form_pipeline.handle).unwrap();
    assert!(matches!(form_entry.movie_loader(), Err(LoadError::VariantMismatch)));

    // a movie pipeline whose handle resolves to a form entry fails its phase
    let mut stray = Loader::Movie {
        self_handle: None,
        target_clip: NodeId(1),
        target_broadcaster: None,
    };
    stray.introduce_loader_handle(form_pipeline.handle);
    let mut pipeline = stray.movie_loader().unwrap();
    let r = pipeline.begin(&mut mgr, true);
    assert_eq!(r, Err(LoadError::VariantMismatch));
}
