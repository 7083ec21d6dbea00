use cosmic_applet_docker::subscription::{
    container_list_subscription, container_stats_subscription, docker_events_subscription,
    health_subscription, log_streaming_subscription, Source,
};

#[test]
fn inventory_is_polled_fast_while_open() {
    let plan = container_list_subscription(true);
    assert_eq!(plan.id, "docker-list-fast");
    assert_eq!(plan.capacity, 10);
    assert_eq!(plan.interval_secs, Some(3));
    assert!(matches!(plan.source, Source::ContainerList { include_stopped: true }));
}

#[test]
fn inventory_is_polled_slowly_while_closed() {
    let plan = container_list_subscription(false);
    assert_eq!(plan.id, "docker-list-slow");
    assert_eq!(plan.capacity, 10);
    assert_eq!(plan.interval_secs, Some(10));
    assert!(matches!(plan.source, Source::ContainerList { include_stopped: true }));
}

#[test]
fn stats_need_a_container() {
    assert!(container_stats_subscription(Vec::new()).is_none());
}

#[test]
fn stats_are_sampled_every_three_seconds() {
    let plan = container_stats_subscription(vec!["a".to_string(), "b".to_string()])
        .expect("there are containers");
    assert_eq!(plan.id, "docker-stats");
    assert_eq!(plan.capacity, 10);
    assert_eq!(plan.interval_secs, Some(3));
    match plan.source {
        Source::ContainerStats { container_ids, one_shot } => {
            assert_eq!(container_ids, vec!["a".to_string(), "b".to_string()]);
            assert!(one_shot);
        },
        _ => panic!("the stats poller samples"),
    }
}

#[test]
fn health_needs_a_container() {
    assert!(health_subscription(Vec::new()).is_none());
}

#[test]
fn health_is_inspected_every_ten_seconds() {
    let plan = health_subscription(vec!["a".to_string()]).expect("there is a container");
    assert_eq!(plan.id, "docker-health");
    assert_eq!(plan.capacity, 10);
    assert_eq!(plan.interval_secs, Some(10));
    match plan.source {
        Source::Health { container_ids } => assert_eq!(container_ids, vec!["a".to_string()]),
        _ => panic!("the health poller inspects"),
    }
}

#[test]
fn events_are_streamed() {
    let plan = docker_events_subscription();
    assert_eq!(plan.id, "docker-events");
    assert_eq!(plan.capacity, 20);
    assert_eq!(plan.interval_secs, None);
    assert!(matches!(plan.source, Source::LifecycleEvents));
}

#[test]
fn log_is_followed_under_the_container_name() {
    let plan = log_streaming_subscription("abc123".to_string());
    assert_eq!(plan.id, "docker-logs-abc123");
    assert_eq!(plan.capacity, 100);
    assert_eq!(plan.interval_secs, None);
    match plan.source {
        Source::Logs { container_id, tail, follow, stdout, stderr } => {
            assert_eq!(container_id, "abc123");
            assert_eq!(tail, 200);
            assert!(follow);
            assert!(stdout);
            assert!(stderr);
        },
        _ => panic!("the log stream follows a log"),
    }
}
