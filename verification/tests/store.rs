use antispam::errors::LoadError;
use antispam::errors::StorageError;
use antispam::store::ModelStore;

fn fresh_store() -> ModelStore {
    let (store, fresh) = ModelStore::load(None).unwrap();
    assert!(fresh);
    store
}

fn train(store: &mut ModelStore, text: &str, is_spam: bool) {
    let update = store.prepare_train(text, is_spam);
    store.complete_train(update, true).unwrap();
}

#[test]
fn check_never_mutates_durable_state() {
    let store = fresh_store();
    let before = store.durable_image().clone();
    for text in ["hello", "buy now", "meeting at noon", ""] {
        let _ = store.check(text);
    }
    let after = store.durable_image().clone();
    assert_eq!(before, after);
}

#[test]
fn unknown_text_scores_one_half() {
    let store = fresh_store();
    let r = store.check("hello");
    assert!(!r.spam);
    assert_eq!(f32::from_bits(r.score_bits), 0.5);
}

#[test]
fn empty_text_scores_zero() {
    let store = fresh_store();
    let r = store.check("");
    assert!(!r.spam);
    assert_eq!(f32::from_bits(r.score_bits), 0.0);
}

#[test]
fn training_is_reflected_by_the_next_check() {
    let mut store = fresh_store();
    let baseline = store.check("buy now");
    assert!(!baseline.spam);
    let image_before = store.durable_image().clone();
    train(&mut store, "buy now", true);
    let after = store.check("buy now");
    assert!(after.spam);
    assert!(f32::from_bits(after.score_bits) > f32::from_bits(baseline.score_bits));
    assert_ne!(&image_before, store.durable_image());
}

#[test]
fn distinct_examples_all_survive_a_burst_of_trains() {
    let mut store = fresh_store();
    let examples = ["cheap pills", "win lottery", "free crypto", "hot singles", "miracle diet"];
    for example in examples {
        train(&mut store, example, true);
    }
    for example in examples {
        assert!(store.check(example).spam);
    }
}

#[test]
fn failed_durable_write_leaves_committed_model_intact() {
    let mut store = fresh_store();
    train(&mut store, "buy now", true);
    let image_before = store.durable_image().clone();
    let score_before = store.check("buy now").score_bits;
    let update = store.prepare_train("unrelated words", true);
    let r = store.complete_train(update, false);
    assert_eq!(r, Err(StorageError::WriteFailure));
    assert_eq!(&image_before, store.durable_image());
    assert_eq!(store.check("buy now").score_bits, score_before);
    assert!(!store.check("unrelated words").spam);
    let (reloaded, fresh) = ModelStore::load(Some(image_before)).unwrap();
    assert!(!fresh);
    assert!(reloaded.check("buy now").spam);
}

#[test]
fn corrupt_durable_state_refuses_to_load() {
    let r = ModelStore::load(Some(b"not a model".to_vec()));
    assert!(matches!(r, Err(LoadError::CorruptState)));
}

#[test]
fn a_saved_model_reloads_to_the_same_behavior() {
    let mut store = fresh_store();
    train(&mut store, "buy now", true);
    train(&mut store, "meeting today", false);
    let image = store.durable_image().clone();
    let (reloaded, _) = ModelStore::load(Some(image)).unwrap();
    assert_eq!(reloaded.check("buy now"), store.check("buy now"));
    assert_eq!(reloaded.check("meeting today"), store.check("meeting today"));
    assert_eq!(reloaded.durable_image(), store.durable_image());
}
