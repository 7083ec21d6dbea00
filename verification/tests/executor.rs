use cosmic_applet_docker::executor::{
    action_result, remove_container, restart_container, start_container, stop_container, BatchRun,
    RuntimeCall, STOP_TIMEOUT_SECS,
};

#[test]
fn start_makes_a_start_call() {
    match start_container("abc".to_string()) {
        RuntimeCall::Start { id } => assert_eq!(id, "abc"),
        _ => panic!("start makes a start call"),
    }
}

#[test]
fn stop_gives_ten_seconds() {
    assert_eq!(STOP_TIMEOUT_SECS, 10);
    match stop_container("abc".to_string()) {
        RuntimeCall::Stop { id, timeout_secs } => {
            assert_eq!(id, "abc");
            assert_eq!(timeout_secs, 10);
        },
        _ => panic!("stop makes a stop call"),
    }
}

#[test]
fn restart_gives_ten_seconds() {
    match restart_container("abc".to_string()) {
        RuntimeCall::Restart { id, timeout_secs } => {
            assert_eq!(id, "abc");
            assert_eq!(timeout_secs, 10);
        },
        _ => panic!("restart makes a restart call"),
    }
}

#[test]
fn remove_neither_forces_nor_takes_volumes() {
    match remove_container("abc".to_string()) {
        RuntimeCall::Remove { id, force, volumes } => {
            assert_eq!(id, "abc");
            assert!(!force);
            assert!(!volumes);
        },
        _ => panic!("remove makes a remove call"),
    }
}

#[test]
fn call_knows_its_container() {
    assert_eq!(start_container("a".to_string()).id(), "a");
    assert_eq!(stop_container("b".to_string()).id(), "b");
    assert_eq!(restart_container("c".to_string()).id(), "c");
    assert_eq!(remove_container("d".to_string()).id(), "d");
}

#[test]
fn success_reports_the_id() {
    assert_eq!(action_result(stop_container("abc".to_string()), Ok(())), Ok("abc".to_string()));
    assert_eq!(action_result(remove_container("x".to_string()), Ok(())), Ok("x".to_string()));
}

#[test]
fn failure_reports_the_message() {
    assert_eq!(
        action_result(start_container("abc".to_string()), Err("port in use".to_string())),
        Err("port in use".to_string())
    );
}

#[test]
fn empty_batch_reports_success_with_empty_id() {
    let batch = BatchRun::new(Vec::new());
    assert!(batch.finished());
    assert!(batch.next_call().is_none());
    assert_eq!(batch.result(), Ok(String::new()));
}

#[test]
fn batch_runs_in_order_and_reports_the_last_id() {
    let mut batch = BatchRun::new(vec![
        stop_container("a".to_string()),
        stop_container("b".to_string()),
    ]);
    assert!(!batch.finished());
    assert_eq!(batch.next_call().expect("a is first").id(), "a");
    batch.record(Ok(()));
    assert_eq!(batch.next_call().expect("b is second").id(), "b");
    batch.record(Ok(()));
    assert!(batch.finished());
    assert!(batch.next_call().is_none());
    assert_eq!(batch.result(), Ok("b".to_string()));
}

#[test]
fn batch_ends_at_the_first_failure() {
    let mut batch = BatchRun::new(vec![
        start_container("a".to_string()),
        start_container("b".to_string()),
        start_container("c".to_string()),
    ]);
    batch.record(Ok(()));
    batch.record(Err("b failed".to_string()));
    assert!(batch.finished());
    assert!(batch.next_call().is_none());
    batch.record(Ok(()));
    batch.record(Err("later".to_string()));
    assert_eq!(batch.result(), Err("b failed".to_string()));
}

#[test]
fn finished_batch_ignores_further_outcomes() {
    let mut batch = BatchRun::new(vec![start_container("a".to_string())]);
    batch.record(Ok(()));
    batch.record(Err("stray".to_string()));
    assert_eq!(batch.result(), Ok("a".to_string()));
}
