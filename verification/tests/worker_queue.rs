use link_yeeter::task::{Task, TaskResult};
use link_yeeter::worker::{Worker, WorkerAction};

fn task(url: &str) -> (Task, tokio::sync::oneshot::Receiver<TaskResult>) {
    let (tx, rx) = tokio::sync::oneshot::channel::<TaskResult>();
    (Task { url: url.to_owned(), enable_fallback: false, return_channel: tx }, rx)
}

#[test]
fn fresh_worker_is_empty() {
    let w = Worker::new();
    assert_eq!(w.queue_size(), 0);
}

#[test]
fn n_admissions_count_exactly_n() {
    // each admission is a reservation followed by a push; after N of them
    // the observed size is exactly N
    let mut w = Worker::new();
    for i in 0..5u64 {
        let pos = w.tentative_enqueue();
        assert_eq!(u64::try_from(pos).unwrap(), i);
        let (t, _rx) = task(&format!("https://example.com/{i}"));
        w.push(t);
        assert_eq!(u64::try_from(w.queue_size()).unwrap(), i + 1);
    }
    assert_eq!(w.queue_size(), 5);
}

#[test]
fn reservation_is_counted_before_the_push() {
    let mut w = Worker::new();
    let pos = w.tentative_enqueue();
    assert_eq!(pos, 0);
    // the reservation alone already occupies a position
    assert_eq!(w.queue_size(), 1);
    let (t, _rx) = task("https://example.com/a");
    w.push(t);
    // the push reconciles the reservation: still one position
    assert_eq!(w.queue_size(), 1);
}

#[test]
fn queue_size_is_idempotent() {
    let mut w = Worker::new();
    w.tentative_enqueue();
    let (t, _rx) = task("https://example.com/a");
    w.push(t);
    let first = w.queue_size();
    for _ in 0..10 {
        assert_eq!(w.queue_size(), first);
    }
}

#[test]
fn tasks_come_out_in_arrival_order() {
    let mut w = Worker::new();
    let mut receivers = Vec::new();
    for name in ["first", "second", "third"] {
        w.tentative_enqueue();
        let (t, rx) = task(name);
        w.push(t);
        receivers.push(rx);
    }
    for name in ["first", "second", "third"] {
        match w.next_action(false) {
            WorkerAction::Run(t) => {
                assert_eq!(t.url, name);
            }
            _ => panic!("expected a task to run"),
        }
        w.task_finished();
    }
    assert_eq!(w.queue_size(), 0);
}

#[test]
fn a_running_task_still_occupies_a_position() {
    let mut w = Worker::new();
    w.tentative_enqueue();
    let (t, _rx) = task("https://example.com/a");
    w.push(t);
    assert_eq!(w.queue_size(), 1);
    match w.next_action(false) {
        WorkerAction::Run(_) => {}
        _ => panic!("expected a task to run"),
    }
    // dequeued but in flight: still counted
    assert_eq!(w.queue_size(), 1);
    w.task_finished();
    assert_eq!(w.queue_size(), 0);
}

#[test]
fn cancellation_stops_without_touching_the_queue() {
    let mut w = Worker::new();
    for name in ["a", "b", "c"] {
        w.tentative_enqueue();
        let (t, rx) = task(name);
        w.push(t);
        drop(rx);
    }
    // cancellation has priority over a non-empty queue
    assert!(matches!(w.next_action(true), WorkerAction::Stop));
    // the pending tasks are still queryable as queued
    assert_eq!(w.queue_size(), 3);
}

#[test]
fn an_empty_queue_means_waiting() {
    let mut w = Worker::new();
    assert!(matches!(w.next_action(false), WorkerAction::Wait));
    assert_eq!(w.queue_size(), 0);
}
