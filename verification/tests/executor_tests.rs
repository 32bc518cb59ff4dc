use moss::error::ErrorKind;
use moss::executor::Executor;
use moss::task::{Task, TaskIdGen, TaskWaker, Work};

#[test]
fn submitted_tasks_all_polled_before_idle() {
    let mut gen = TaskIdGen::new();
    let mut ex = Executor::new(10);
    let mut ids = Vec::new();
    for _ in 0..3 {
        let id = gen.fresh();
        ids.push(id);
        ex.spawn(Task::new(id, Work::CountDown { remaining: 0 }))
            .unwrap();
    }
    assert!(!ex.is_idle());
    ex.run_ready_tasks();
    // every immediately-ready task was polled once and dropped
    assert_eq!(ex.task_count(), 0);
    assert!(ex.is_idle());
    for id in ids {
        assert!(!ex.contains_task(id));
    }
}

#[test]
fn ready_task_never_polled_again() {
    let mut ex = Executor::new(10);
    ex.spawn(Task::new(0, Work::CountDown { remaining: 0 })).unwrap();
    ex.run_ready_tasks();
    assert!(!ex.contains_task(0));
    // a stale duplicate wake for the completed task is skipped
    ex.wake(&TaskWaker::new(0));
    ex.run_ready_tasks();
    assert!(!ex.contains_task(0));
    assert_eq!(ex.task_count(), 0);
}

#[test]
fn wake_is_never_lost() {
    let mut ex = Executor::new(10);
    ex.spawn(Task::new(5, Work::CountDown { remaining: 2 })).unwrap();
    ex.run_ready_tasks();
    // suspended after its first poll; a wake pushed while the executor
    // is otherwise busy shows up in the next drain
    assert_eq!(ex.task_count(), 1);
    ex.wake(&TaskWaker::new(5));
    assert!(!ex.is_idle());
    ex.run_ready_tasks();
    assert!(ex.contains_task(5));
    ex.wake(&TaskWaker::new(5));
    ex.run_ready_tasks();
    // third poll completed it
    assert!(!ex.contains_task(5));
    assert_eq!(ex.task_count(), 0);
}

#[test]
fn submit_beyond_capacity_fails_without_corrupting_table() {
    let mut gen = TaskIdGen::new();
    let mut ex = Executor::new(100);
    for _ in 0..100 {
        let id = gen.fresh();
        assert!(ex.spawn(Task::new(id, Work::Never)).is_ok());
    }
    let id = gen.fresh();
    let r = ex.spawn(Task::new(id, Work::Never));
    assert_eq!(r, Err(ErrorKind::TaskQueueIsFull));
    assert_eq!(ex.task_count(), 100);
    // the first hundred remain pollable
    ex.run_ready_tasks();
    assert_eq!(ex.task_count(), 100);
    assert!(!ex.contains_task(id));
}

#[test]
fn three_task_scenario() {
    let mut ex = Executor::new(10);
    // one completes at once, one suspends once, one never completes
    ex.spawn(Task::new(1, Work::CountDown { remaining: 0 })).unwrap();
    ex.spawn(Task::new(2, Work::CountDown { remaining: 1 })).unwrap();
    ex.spawn(Task::new(3, Work::Never)).unwrap();
    ex.run_ready_tasks();
    assert_eq!(ex.task_count(), 2);
    assert!(!ex.contains_task(1));
    assert!(ex.contains_task(2));
    assert!(ex.contains_task(3));
    // the once-suspended task's wake fires
    ex.wake(&TaskWaker::new(2));
    ex.run_ready_tasks();
    assert_eq!(ex.task_count(), 1);
    assert!(!ex.contains_task(2));
    assert!(ex.contains_task(3));
}

#[test]
fn id_generator_is_monotonic() {
    let mut gen = TaskIdGen::new();
    let a = gen.fresh();
    let b = gen.fresh();
    let c = gen.fresh();
    assert_eq!((a, b, c), (0, 1, 2));
}
