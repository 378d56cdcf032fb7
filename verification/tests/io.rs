use three_d::io::{LoadState, Loader, WaitStep, POLL_INTERVAL_MILLIS};

#[test]
fn the_poll_interval_is_a_tenth_of_a_second() {
    assert_eq!(POLL_INTERVAL_MILLIS, 100);
}

#[test]
fn a_new_loader_has_no_load_and_nothing_to_wait_for() {
    let loader = Loader::new();
    assert!(!loader.is_loading());
    assert_eq!(loader.wait(), WaitStep::Done);
    assert_eq!(loader.get("model.3d"), None);
}

#[test]
fn waiting_for_all_loads_begins_with_a_sleep() {
    let mut loader = Loader::new();
    assert_eq!(loader.wait_all(), WaitStep::Sleep { millis: 100 });
    loader.start_loading("model.3d");
    assert_eq!(loader.wait_all(), WaitStep::Sleep { millis: 100 });
    loader.finish_loading("model.3d", Ok(vec![1, 2, 3]));
    assert_eq!(loader.wait_all(), WaitStep::Sleep { millis: 100 });
}

#[test]
fn the_caller_waits_while_a_load_has_not_completed() {
    let mut loader = Loader::new();
    loader.start_loading("model.3d");
    loader.start_loading("texture.jpg");
    assert_eq!(loader.get("model.3d"), Some(&LoadState::Loading));
    assert!(loader.is_loading());
    assert_eq!(loader.wait(), WaitStep::Sleep { millis: 100 });
    loader.finish_loading("texture.jpg", Ok(vec![7]));
    assert!(loader.is_loading());
    assert_eq!(loader.wait(), WaitStep::Sleep { millis: 100 });
    loader.finish_loading("model.3d", Ok(vec![1, 2, 3]));
    assert!(!loader.is_loading());
    assert_eq!(loader.wait(), WaitStep::Done);
    assert_eq!(loader.get("model.3d"), Some(&LoadState::Loaded(vec![1, 2, 3])));
    assert_eq!(loader.get("texture.jpg"), Some(&LoadState::Loaded(vec![7])));
    assert_eq!(loader.get("other"), None);
}

#[test]
fn a_failed_load_is_a_completed_load() {
    let mut loader = Loader::new();
    loader.start_loading("missing.png");
    loader.finish_loading("missing.png", Err(String::from("no such file")));
    assert!(!loader.is_loading());
    assert_eq!(loader.wait(), WaitStep::Done);
    assert_eq!(
        loader.get("missing.png"),
        Some(&LoadState::Failed(String::from("no such file")))
    );
}

#[test]
fn an_empty_resource_is_a_completed_load() {
    let mut loader = Loader::new();
    loader.start_loading("empty.bin");
    loader.finish_loading("empty.bin", Ok(vec![]));
    assert_eq!(loader.wait(), WaitStep::Done);
    assert_eq!(loader.get("empty.bin"), Some(&LoadState::Loaded(vec![])));
}

#[test]
fn a_path_has_one_state_and_the_last_one_counts() {
    let mut loader = Loader::new();
    loader.start_loading("a");
    loader.finish_loading("a", Ok(vec![1]));
    loader.finish_loading("a", Ok(vec![2]));
    assert_eq!(loader.get("a"), Some(&LoadState::Loaded(vec![2])));
    // Starting the load again forgets what was loaded.
    loader.start_loading("a");
    assert_eq!(loader.get("a"), Some(&LoadState::Loading));
    assert_eq!(loader.wait(), WaitStep::Sleep { millis: 100 });
    // A result may arrive for a path that was never started.
    loader.finish_loading("b", Ok(vec![3]));
    assert_eq!(loader.get("b"), Some(&LoadState::Loaded(vec![3])));
    assert_eq!(loader.get(""), None);
}
