use scalable_engine::engine::{settle, Engine};
use scalable_engine::task::{all_values, Outcome, Task, Work};

#[test]
fn runs_many_tasks() {
    let engine = Engine::new(4).unwrap();
    let tasks = (0..10).map(|i| Task::ready(i + 1)).collect::<Vec<_>>();
    let results = engine.run_tasks(tasks);
    let values = all_values(&results).unwrap();
    assert_eq!(values, (1..=10).collect::<Vec<i64>>());
}

#[test]
fn batch_smaller_than_the_pool() {
    let engine = Engine::new(4).unwrap();
    let tasks = (0..2).map(|i| Task::ready(i + 1)).collect::<Vec<_>>();
    let results = engine.run_tasks(tasks);
    assert_eq!(all_values(&results), Some(vec![1, 2]));
}

#[test]
fn batch_larger_than_the_pool() {
    let engine = Engine::new(2).unwrap();
    let tasks = (0..16).map(|i| Task::ready(i + 1)).collect::<Vec<_>>();
    let results = engine.run_tasks(tasks);
    assert_eq!(all_values(&results), Some((1..=16).collect::<Vec<i64>>()));
}

#[test]
fn empty_batch_returns_empty_at_once() {
    let engine = Engine::new(1).unwrap();
    let started = std::time::Instant::now();
    let results = engine.run_tasks(Vec::new());
    assert!(results.is_empty());
    assert!(started.elapsed() < std::time::Duration::from_millis(500));
}

#[test]
fn spawn_returns_before_the_task_settles() {
    let engine = Engine::new(2).unwrap();
    let started = std::time::Instant::now();
    let handle = engine.spawn(Task::delayed(400, 99));
    assert!(started.elapsed() < std::time::Duration::from_millis(200));
    assert_eq!(engine.wait(handle), Outcome::Completed(99));
}

#[test]
fn waiting_on_a_failed_task_reports_failure() {
    let engine = Engine::new(2).unwrap();
    let handle = engine.spawn(Task::failing());
    assert_eq!(engine.wait(handle), Outcome::Failed);
}

#[test]
fn one_failing_task_marks_its_own_position() {
    let engine = Engine::new(4).unwrap();
    let tasks = vec![Task::ready(1), Task::failing(), Task::ready(3)];
    let results = engine.run_tasks(tasks);
    assert_eq!(
        results,
        vec![Outcome::Completed(1), Outcome::Failed, Outcome::Completed(3)]
    );
    assert_eq!(all_values(&results), None);
}

#[test]
fn delays_do_not_change_batch_order() {
    let engine = Engine::new(4).unwrap();
    let tasks = vec![Task::delayed(120, 10), Task::delayed(60, 20), Task::ready(30)];
    let results = engine.run_tasks(tasks);
    assert_eq!(all_values(&results), Some(vec![10, 20, 30]));
}

#[test]
fn auto_sizing_matches_the_host_report() {
    let engine = Engine::new_auto().unwrap();
    assert_eq!(engine.worker_count(), num_cpus::get());
}

#[test]
fn worker_count_reports_the_requested_size() {
    let engine = Engine::new(3).unwrap();
    assert_eq!(engine.worker_count(), 3);
}

#[test]
fn step_settles_the_work_directly() {
    assert_eq!(Task::ready(7).step(), Outcome::Completed(7));
    assert_eq!(Task::failing().step(), Outcome::Failed);
    let slow = Task {
        delay_ms: 5,
        work: Work::Produce(-2),
    };
    assert_eq!(slow.step(), Outcome::Completed(-2));
}

#[test]
fn all_values_needs_every_completion() {
    assert_eq!(all_values(&vec![]), Some(vec![]));
    assert_eq!(
        all_values(&vec![Outcome::Completed(4), Outcome::Completed(5)]),
        Some(vec![4, 5])
    );
    assert_eq!(all_values(&vec![Outcome::Completed(4), Outcome::Failed]), None);
}

#[test]
fn settle_keeps_a_reported_output() {
    assert_eq!(settle(Ok(Outcome::Completed(3))), Outcome::Completed(3));
    assert_eq!(settle(Ok(Outcome::Failed)), Outcome::Failed);
}
