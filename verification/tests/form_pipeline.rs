use loadpipe::action::Action;
use loadpipe::form::FormStep;
use loadpipe::ids::{NodeId, ObjId};
use loadpipe::loader::Loader;
use loadpipe::manager::LoadManager;
use loadpipe::outcome::{FetchOutcome, LoadError, SetterOutcome};

fn set(object: u64, key: &str, value: &str) -> FormStep {
    FormStep::Invoke(Action::SetProperty {
        object: ObjId(object),
        key: key.to_string(),
        value: value.to_string(),
    })
}

#[test]
fn two_pairs_invoke_two_setters_in_order() {
    let mut mgr = LoadManager::new();
    let (handle, mut pipeline) = mgr.load_form_into_object(ObjId(5));
    let data = b"a=1&b=2".to_vec();
    let step1 = pipeline.resume(&mut mgr, true, &FetchOutcome::Bytes(data));
    assert_eq!(step1, set(5, "a", "1"));
    let step2 = pipeline.advance(&mut mgr, SetterOutcome::Applied);
    assert_eq!(step2, set(5, "b", "2"));
    let step3 = pipeline.advance(&mut mgr, SetterOutcome::Applied);
    assert_eq!(step3, FormStep::Finished(Ok(())));
    // the completed load's entry is gone
    assert!(mgr.get_loader(handle).is_none());
}

#[test]
fn duplicate_keys_reinvoke_the_setter_in_document_order() {
    let mut mgr = LoadManager::new();
    let (_, mut pipeline) = mgr.load_form_into_object(ObjId(5));
    let data = b"a=1&a=2".to_vec();
    // both setter calls happen, first value first: the second write is the
    // one observable afterwards on the target
    assert_eq!(pipeline.resume(&mut mgr, true, &FetchOutcome::Bytes(data)), set(5, "a", "1"));
    assert_eq!(pipeline.advance(&mut mgr, SetterOutcome::Applied), set(5, "a", "2"));
    assert_eq!(
        pipeline.advance(&mut mgr, SetterOutcome::Applied),
        FormStep::Finished(Ok(()))
    );
}

#[test]
fn keys_and_values_are_percent_decoded() {
    let mut mgr = LoadManager::new();
    let (_, mut pipeline) = mgr.load_form_into_object(ObjId(5));
    let data = b"a%20b=c+d&empty".to_vec();
    assert_eq!(
        pipeline.resume(&mut mgr, true, &FetchOutcome::Bytes(data)),
        set(5, "a b", "c d")
    );
    // a piece without `=` decodes to a key with an empty value
    assert_eq!(pipeline.advance(&mut mgr, SetterOutcome::Applied), set(5, "empty", ""));
    assert_eq!(
        pipeline.advance(&mut mgr, SetterOutcome::Applied),
        FormStep::Finished(Ok(()))
    );
}

#[test]
fn empty_data_finishes_at_once() {
    let mut mgr = LoadManager::new();
    let (handle, mut pipeline) = mgr.load_form_into_object(ObjId(5));
    let step = pipeline.resume(&mut mgr, true, &FetchOutcome::Bytes(Vec::new()));
    assert_eq!(step, FormStep::Finished(Ok(())));
    assert!(mgr.get_loader(handle).is_none());
}

#[test]
fn fetch_failure_propagates_without_events() {
    let mut mgr = LoadManager::new();
    let (handle, mut pipeline) = mgr.load_form_into_object(ObjId(5));
    let step = pipeline.resume(&mut mgr, true, &FetchOutcome::Failed);
    assert_eq!(step, FormStep::Finished(Err(LoadError::FetchFailed)));
    // the abort happens before the runtime is touched
    assert!(mgr.get_loader(handle).is_some());
}

#[test]
fn setter_fault_aborts_remaining_pairs() {
    let mut mgr = LoadManager::new();
    let (handle, mut pipeline) = mgr.load_form_into_object(ObjId(5));
    let data = b"a=1&b=2&c=3".to_vec();
    assert_eq!(pipeline.resume(&mut mgr, true, &FetchOutcome::Bytes(data)), set(5, "a", "1"));
    let step = pipeline.advance(&mut mgr, SetterOutcome::Fault);
    assert_eq!(step, FormStep::Finished(Err(LoadError::SetterFailed)));
    assert!(mgr.get_loader(handle).is_none());
}

#[test]
fn form_runtime_gone_aborts_silently() {
    let mut mgr = LoadManager::new();
    let (handle, mut pipeline) = mgr.load_form_into_object(ObjId(5));
    let step = pipeline.resume(&mut mgr, false, &FetchOutcome::Bytes(b"a=1".to_vec()));
    assert_eq!(step, FormStep::Finished(Err(LoadError::RuntimeGone)));
    assert!(mgr.get_loader(handle).is_some());
}

#[test]
fn form_expired_during_load_is_its_own_error() {
    let mut mgr = LoadManager::new();
    let (handle, mut pipeline) = mgr.load_form_into_object(ObjId(5));
    mgr.remove_loader(handle);
    let step = pipeline.resume(&mut mgr, true, &FetchOutcome::Bytes(b"a=1".to_vec()));
    assert_eq!(step, FormStep::Finished(Err(LoadError::LoaderExpired)));
}

#[test]
fn form_pipeline_refuses_a_movie_entry() {
    let mut mgr = LoadManager::new();
    let (movie_handle, _) = mgr.load_movie_into_clip(NodeId(1), None);
    let movie_entry = mgr.get_loader(movie_handle).unwrap();
    assert!(matches!(movie_entry.form_loader(), Err(LoadError::VariantMismatch)));

    let mut stray = Loader::Form { self_handle: None, target_object: ObjId(5) };
    stray.introduce_loader_handle(movie_handle);
    let mut pipeline = stray.form_loader().unwrap();
    let step = pipeline.resume(&mut mgr, true, &FetchOutcome::Bytes(b"a=1".to_vec()));
    assert_eq!(step, FormStep::Finished(Err(LoadError::VariantMismatch)));
}
