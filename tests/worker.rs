use camunda_worker::config::{Config, TopicConfig};
use camunda_worker::worker::{Action, Event, Phase, Report, TopicWorker, Transition};

fn worker_with_interval(topic: &str, interval: Option<u64>) -> TopicWorker {
    let config = Config::new(
        "http://localhost:8080/engine-rest".to_string(),
        "demo".to_string(),
        "SECRET-REDACTED".to_string(),
        vec![],
        "worker-1".to_string(),
    );
    let mut t = TopicConfig::new(topic.to_string());
    t.wait_interval = interval;
    TopicWorker::new(&config, &t)
}

fn fetched(ids: &[Option<&str>]) -> Event {
    Event::Fetched { task_ids: ids.iter().map(|i| i.map(|s| s.to_string())).collect() }
}

fn feed(w: &TopicWorker, t: &Transition, e: Event) -> Transition {
    assert!(TopicWorker::accepts(&t.phase, &e));
    w.step(&t.phase, e)
}

#[test]
fn new_worker_takes_topic_settings() {
    let w = worker_with_interval("invoice", Some(7));
    assert_eq!(w.topic, "invoice");
    assert_eq!(w.worker_id, "worker-1");
    assert_eq!(w.lock_duration, Some(60));
    assert_eq!(w.wait_interval, 7);
    assert_eq!(worker_with_interval("x", None).wait_interval, 60);
}

#[test]
fn start_fetches_one_task_of_own_topic() {
    let w = worker_with_interval("invoice", None);
    let t = w.start();
    assert!(matches!(t.phase, Phase::Fetching));
    assert_eq!(t.report, Report::Quiet);
    match t.action {
        Action::Fetch { request } => {
            assert_eq!(request.worker_id, "worker-1");
            assert_eq!(request.max_tasks, Some(1));
            assert_eq!(request.topics.len(), 1);
            assert_eq!(request.topics[0].topic_name, "invoice");
            assert_eq!(request.topics[0].lock_duration, Some(60));
        }
        _ => panic!("expected a fetch"),
    }
}

#[test]
fn successful_handler_completes_task() {
    let w = worker_with_interval("invoice", Some(3));
    let t = w.start();
    let t = feed(&w, &t, fetched(&[Some("task-1")]));
    assert!(matches!(&t.action, Action::Dispatch { task_id } if task_id == "task-1"));
    let t = feed(&w, &t, Event::HandlerSucceeded);
    assert!(matches!(&t.action, Action::Complete { task_id } if task_id == "task-1"));
    let t = feed(&w, &t, Event::DispositionSucceeded);
    assert_eq!(t.report, Report::Completed);
    assert!(matches!(t.action, Action::Wait { seconds: 3 }));
    let t = feed(&w, &t, Event::WaitElapsed);
    assert!(matches!(t.action, Action::Fetch { .. }));
}

#[test]
fn failed_handler_releases_task_and_loop_goes_on() {
    let w = worker_with_interval("invoice", Some(2));
    let t = w.start();
    let t = feed(&w, &t, fetched(&[Some("task-9")]));
    let t = feed(&w, &t, Event::HandlerFailed);
    assert!(matches!(&t.action, Action::Release { task_id } if task_id == "task-9"));
    let t = feed(&w, &t, Event::DispositionSucceeded);
    assert_eq!(t.report, Report::Released);
    assert!(matches!(t.action, Action::Wait { seconds: 2 }));
    // two more whole cycles
    let mut t = t;
    for _ in 0..2 {
        t = feed(&w, &t, Event::WaitElapsed);
        assert!(matches!(t.action, Action::Fetch { .. }));
        t = feed(&w, &t, fetched(&[]));
        assert!(matches!(t.action, Action::Wait { seconds: 2 }));
    }
}

#[test]
fn empty_fetch_is_quiet_and_waits() {
    let w = worker_with_interval("invoice", Some(11));
    let t = feed(&w, &w.start(), fetched(&[]));
    assert_eq!(t.report, Report::Quiet);
    assert!(!t.report.is_error());
    assert!(matches!(t.phase, Phase::Waiting));
    assert!(matches!(t.action, Action::Wait { seconds: 11 }));
}

#[test]
fn fetch_failure_waits_then_fetches_again() {
    let w = worker_with_interval("invoice", Some(4));
    let t = feed(&w, &w.start(), Event::FetchFailed);
    assert_eq!(t.report, Report::FetchFailed);
    assert!(t.report.is_error());
    assert!(matches!(t.action, Action::Wait { seconds: 4 }));
    let t = feed(&w, &t, Event::WaitElapsed);
    assert!(matches!(t.action, Action::Fetch { .. }));
    let t = feed(&w, &t, fetched(&[Some("task-2")]));
    assert!(matches!(&t.action, Action::Dispatch { task_id } if task_id == "task-2"));
}

#[test]
fn task_without_identifier_is_reported() {
    let w = worker_with_interval("invoice", None);
    let t = feed(&w, &w.start(), fetched(&[None]));
    assert_eq!(t.report, Report::MalformedTask);
    assert!(matches!(t.action, Action::Wait { seconds: 60 }));
}

#[test]
fn failed_dispositions_are_errors() {
    let w = worker_with_interval("invoice", Some(1));
    let t = feed(&w, &w.start(), fetched(&[Some("a")]));
    let t = feed(&w, &t, Event::HandlerSucceeded);
    let t = feed(&w, &t, Event::DispositionFailed);
    assert_eq!(t.report, Report::CompleteFailed);
    assert!(t.report.is_error());
    assert!(matches!(t.action, Action::Wait { seconds: 1 }));
    let t = feed(&w, &feed(&w, &t, Event::WaitElapsed), fetched(&[Some("b")]));
    let t = feed(&w, &t, Event::HandlerFailed);
    let t = feed(&w, &t, Event::DispositionFailed);
    assert_eq!(t.report, Report::ReleaseFailed);
    assert!(t.report.is_error());
    assert!(!Report::Released.is_error());
    assert!(!Report::Completed.is_error());
}

#[test]
fn events_out_of_turn_are_not_accepted() {
    let w = worker_with_interval("invoice", None);
    let t = w.start();
    assert!(!TopicWorker::accepts(&t.phase, &Event::HandlerSucceeded));
    assert!(!TopicWorker::accepts(&t.phase, &Event::WaitElapsed));
    let t = feed(&w, &t, fetched(&[Some("a")]));
    assert!(!TopicWorker::accepts(&t.phase, &fetched(&[])));
    assert!(!TopicWorker::accepts(&t.phase, &Event::DispositionSucceeded));
}

#[test]
fn workers_of_two_topics_step_independently() {
    let a = worker_with_interval("slow", Some(5));
    let b = worker_with_interval("fast", Some(1));
    let ta = feed(&a, &a.start(), fetched(&[Some("long-running")]));
    assert!(matches!(ta.phase, Phase::Dispatching { .. }));
    let mut tb = b.start();
    for _ in 0..3 {
        tb = feed(&b, &tb, fetched(&[]));
        tb = feed(&b, &tb, Event::WaitElapsed);
        assert!(matches!(tb.action, Action::Fetch { .. }));
    }
    assert!(matches!(&ta.phase, Phase::Dispatching { task_id } if task_id == "long-running"));
}
