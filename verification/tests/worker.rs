use race_pool::order::check_sorted;
use race_pool::worker::{Variant, Worker, WorkerState};

fn sorted_copy(items: &Vec<isize>) -> Vec<isize> {
    let mut copy = items.clone();
    copy.sort();
    copy
}

fn search(input: Vec<isize>, variant: Variant, limit: usize) -> WorkerState {
    let mut state = WorkerState::Running(Worker::new(input, variant));
    for _ in 0..limit {
        state = match state {
            WorkerState::Running(worker) => worker.step(false),
            stopped => return stopped,
        };
    }
    state
}

#[test]
fn new_worker_holds_the_input() {
    let worker = Worker::new(vec![3, 1, 2], Variant::Leaking);
    assert_eq!(worker.items(), &vec![3, 1, 2]);
}

#[test]
fn worker_on_sorted_input_publishes_at_once() {
    let worker = Worker::new(vec![1, 2, 3], Variant::Leaking);
    match worker.step(false) {
        WorkerState::Publishing(value) => assert_eq!(value, vec![1, 2, 3]),
        _ => panic!("a worker whose copy is in order publishes it"),
    }
}

#[test]
fn worker_on_empty_input_publishes_at_once() {
    let worker = Worker::new(Vec::new(), Variant::Joining);
    match worker.step(false) {
        WorkerState::Publishing(value) => assert_eq!(value, Vec::<isize>::new()),
        _ => panic!("the empty list is in order"),
    }
}

#[test]
fn sorted_copy_is_published_even_when_cancelled() {
    let worker = Worker::new(vec![1, 2, 3], Variant::Joining);
    match worker.step(true) {
        WorkerState::Publishing(value) => assert_eq!(value, vec![1, 2, 3]),
        _ => panic!("publishing comes before the signal"),
    }
}

#[test]
fn joining_worker_stops_when_cancelled() {
    let worker = Worker::new(vec![2, 1], Variant::Joining);
    assert!(matches!(worker.step(true), WorkerState::Cancelled));
}

#[test]
fn leaking_worker_ignores_the_signal() {
    let worker = Worker::new(vec![3, 2, 1], Variant::Leaking);
    match worker.step(true) {
        WorkerState::Running(next) => {
            assert_eq!(sorted_copy(next.items()), vec![1, 2, 3]);
        },
        _ => panic!("a leaking worker goes on until its copy is in order"),
    }
}

#[test]
fn joining_worker_goes_on_while_the_signal_is_lowered() {
    let worker = Worker::new(vec![3, 2, 1], Variant::Joining);
    match worker.step(false) {
        WorkerState::Running(next) => {
            assert_eq!(sorted_copy(next.items()), vec![1, 2, 3]);
        },
        _ => panic!("a worker out of order and not cancelled goes on"),
    }
}

#[test]
fn iterations_keep_the_elements() {
    let input = vec![5, 3, 5, -2, 0, 3, 9, 9];
    let mut worker = Worker::new(input.clone(), Variant::Leaking);
    for _ in 0..200 {
        worker = match worker.step(false) {
            WorkerState::Running(next) => next,
            WorkerState::Publishing(value) => {
                assert_eq!(value, sorted_copy(&input));
                return;
            },
            WorkerState::Cancelled => panic!("a leaking worker is never cancelled"),
        };
        assert_eq!(sorted_copy(worker.items()), sorted_copy(&input));
    }
}

#[test]
fn iterations_rearrange_the_copy() {
    let input: Vec<isize> = (0..40).rev().collect();
    let worker = Worker::new(input.clone(), Variant::Leaking);
    match worker.step(false) {
        WorkerState::Running(next) => {
            assert_ne!(next.items(), &input);
            assert_eq!(sorted_copy(next.items()), sorted_copy(&input));
        },
        _ => panic!("a descending list is out of order"),
    }
}

#[test]
fn search_on_sorted_input_publishes_without_a_budget() {
    let worker = Worker::new(vec![-3, 0, 0, 8], Variant::Leaking);
    match worker.search(0) {
        WorkerState::Publishing(value) => assert_eq!(value, vec![-3, 0, 0, 8]),
        _ => panic!("a copy in order is published as it is"),
    }
}

#[test]
fn search_without_a_budget_leaves_the_copy_alone() {
    let worker = Worker::new(vec![3, 1, 2], Variant::Leaking);
    match worker.search(0) {
        WorkerState::Running(next) => assert_eq!(next.items(), &vec![3, 1, 2]),
        _ => panic!("nothing can be found without a rearrangement"),
    }
}

#[test]
fn search_finds_the_order_of_a_short_list() {
    let worker = Worker::new(vec![4, 3, 2, 1], Variant::Leaking);
    match worker.search(1_000_000) {
        WorkerState::Publishing(value) => assert_eq!(value, vec![1, 2, 3, 4]),
        _ => panic!("four elements fall into order within the budget"),
    }
}

#[test]
fn search_that_runs_out_hands_back_a_worker_out_of_order() {
    let input: Vec<isize> = (0..30).rev().collect();
    let worker = Worker::new(input.clone(), Variant::Leaking);
    match worker.search(3) {
        WorkerState::Running(next) => {
            assert!(!check_sorted(next.items()));
            assert_ne!(next.items(), &input);
            assert_eq!(sorted_copy(next.items()), sorted_copy(&input));
        },
        _ => panic!("thirty elements do not fall into order in three rearrangements"),
    }
}

#[test]
fn search_never_ends_cancelled() {
    let worker = Worker::new(vec![2, 1], Variant::Joining);
    match worker.search(1_000) {
        WorkerState::Publishing(value) => assert_eq!(value, vec![1, 2]),
        WorkerState::Running(_) => panic!("a pair falls into order within the budget"),
        WorkerState::Cancelled => panic!("a search does not read the signal"),
    }
}

#[test]
fn worker_finds_the_order_of_a_pair() {
    match search(vec![2, 1], Variant::Leaking, 10_000) {
        WorkerState::Publishing(value) => assert_eq!(value, vec![1, 2]),
        _ => panic!("two elements fall into order within a few iterations"),
    }
}

#[test]
fn worker_finds_the_order_of_a_short_list() {
    match search(vec![4, 3, 2, 1], Variant::Joining, 1_000_000) {
        WorkerState::Publishing(value) => {
            assert!(check_sorted(&value));
            assert_eq!(value, vec![1, 2, 3, 4]);
        },
        _ => panic!("four elements fall into order within the limit"),
    }
}
