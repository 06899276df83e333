use race_pool::outcome::SharedOutcome;
use race_pool::pool::{Directive, RacePool};
use race_pool::signal::CancellationSignal;
use race_pool::worker::{Variant, Worker, WorkerState};

#[derive(Debug, PartialEq)]
enum WorkerEnd {
    Won,
    Late,
    Cancelled,
}

enum Lane {
    Running(Worker),
    Ended(WorkerEnd),
}

struct Race {
    variant: Variant,
    slot: SharedOutcome<Vec<isize>>,
    signal: CancellationSignal,
    lanes: Vec<Lane>,
    iterations: usize,
    iterations_under_signal: usize,
}

impl Race {
    fn turn(&mut self, index: usize) {
        let lane = std::mem::replace(&mut self.lanes[index], Lane::Ended(WorkerEnd::Late));
        self.lanes[index] = match lane {
            Lane::Running(worker) => {
                self.iterations += 1;
                let cancelled = match self.variant {
                    Variant::Joining => self.signal.is_raised(),
                    Variant::Leaking => false,
                };
                if cancelled {
                    self.iterations_under_signal += 1;
                }
                match worker.step(cancelled) {
                    WorkerState::Running(next) => Lane::Running(next),
                    WorkerState::Publishing(value) => {
                        if self.slot.try_fill(value) {
                            Lane::Ended(WorkerEnd::Won)
                        } else {
                            Lane::Ended(WorkerEnd::Late)
                        }
                    },
                    WorkerState::Cancelled => Lane::Ended(WorkerEnd::Cancelled),
                }
            },
            ended => ended,
        };
    }

    fn wait_for(&mut self, index: usize) {
        while matches!(self.lanes[index], Lane::Running(_)) {
            self.turn(index);
        }
    }

    fn live(&self) -> usize {
        self.lanes.iter().filter(|lane| matches!(lane, Lane::Running(_))).count()
    }

    fn ends(&self) -> Vec<&WorkerEnd> {
        let mut ends = Vec::new();
        for lane in self.lanes.iter() {
            if let Lane::Ended(end) = lane {
                ends.push(end);
            }
        }
        ends
    }
}

struct Finished {
    value: Vec<isize>,
    handed_over: usize,
    joined: usize,
    live_at_cancel: usize,
    race: Race,
}

fn run(input: Vec<isize>, variant: Variant, worker_count: usize) -> Finished {
    let mut pool = match RacePool::new(variant, worker_count) {
        Ok(pool) => pool,
        Err(_) => panic!("a race needs at least one worker"),
    };
    let mut race = Race {
        variant,
        slot: SharedOutcome::new(),
        signal: CancellationSignal::new(),
        lanes: Vec::new(),
        iterations: 0,
        iterations_under_signal: 0,
    };
    let mut joined = 0;
    let mut live_at_cancel = 0;
    loop {
        match pool.directive() {
            Directive::Spawn => {
                race.lanes.push(Lane::Running(Worker::new(input.clone(), variant)));
                assert!(pool.worker_spawned());
            },
            Directive::Poll => {
                for index in 0..race.lanes.len() {
                    race.turn(index);
                }
                assert!(pool.observe(&race.slot));
            },
            Directive::Cancel => {
                assert!(race.slot.is_filled());
                live_at_cancel = race.live();
                assert!(pool.cancel(&mut race.signal));
            },
            Directive::Join => {
                race.wait_for(joined);
                joined += 1;
                assert!(pool.worker_joined());
            },
            Directive::Return => break,
        }
    }
    match pool.into_result() {
        Ok((value, handed_over)) => Finished { value, handed_over, joined, live_at_cancel, race },
        Err(_) => panic!("the pool said that the race was over"),
    }
}

#[test]
fn leaking_race_of_four_sorts_a_pair() {
    let finished = run(vec![2, 1], Variant::Leaking, 4);
    assert_eq!(finished.value, vec![1, 2]);
}

#[test]
fn joining_race_of_four_sorts_a_pair() {
    let finished = run(vec![2, 1], Variant::Joining, 4);
    assert_eq!(finished.value, vec![1, 2]);
}

#[test]
fn leaking_race_hands_over_every_worker() {
    let mut finished = run(vec![3, 1, 2], Variant::Leaking, 4);
    assert_eq!(finished.value, vec![1, 2, 3]);
    assert_eq!(finished.handed_over, 4);
    assert_eq!(finished.joined, 0);
    assert_eq!(finished.race.lanes.len(), 4);
    assert!(!finished.race.signal.is_raised());
    for index in 0..4 {
        finished.race.wait_for(index);
    }
    let ends = finished.race.ends();
    assert_eq!(ends.len(), 4);
    assert_eq!(ends.iter().filter(|end| ***end == WorkerEnd::Won).count(), 1);
    assert_eq!(ends.iter().filter(|end| ***end == WorkerEnd::Cancelled).count(), 0);
    assert_eq!(finished.race.slot.peek(), Some(&vec![1, 2, 3]));
}

#[test]
fn joining_race_leaves_no_worker_behind() {
    let finished = run(vec![4, 3, 2, 1], Variant::Joining, 4);
    assert_eq!(finished.value, vec![1, 2, 3, 4]);
    assert_eq!(finished.handed_over, 0);
    assert_eq!(finished.joined, 4);
    assert_eq!(finished.race.live(), 0);
    assert!(finished.race.signal.is_raised());
    let ends = finished.race.ends();
    assert_eq!(ends.len(), 4);
    assert_eq!(ends.iter().filter(|end| ***end == WorkerEnd::Won).count(), 1);
}

#[test]
fn single_worker_on_sorted_input_returns_it_unchanged() {
    let leaking = run(vec![1, 2, 3], Variant::Leaking, 1);
    assert_eq!(leaking.value, vec![1, 2, 3]);
    assert_eq!(leaking.handed_over, 1);
    assert_eq!(leaking.race.iterations, 1);
    assert_eq!(leaking.race.ends(), vec![&WorkerEnd::Won]);
    let joining = run(vec![1, 2, 3], Variant::Joining, 1);
    assert_eq!(joining.value, vec![1, 2, 3]);
    assert_eq!(joining.race.iterations, 1);
    assert_eq!(joining.race.ends(), vec![&WorkerEnd::Won]);
}

#[test]
fn losers_of_a_joining_race_stop_within_one_iteration() {
    let finished = run(vec![6, 5, 4, 3, 2, 1, 0], Variant::Joining, 3);
    assert_eq!(finished.value, vec![0, 1, 2, 3, 4, 5, 6]);
    assert!(finished.live_at_cancel <= 2);
    assert_eq!(finished.race.iterations_under_signal, finished.live_at_cancel);
    assert_eq!(finished.race.live(), 0);
}

#[test]
fn every_race_returns_a_sorted_rearrangement() {
    let inputs: Vec<Vec<isize>> = vec![
        vec![],
        vec![0],
        vec![1, 0],
        vec![2, 2, 1],
        vec![3, -1, 2, 0],
        vec![5, 4, 3, 2, 1],
    ];
    for input in inputs {
        let mut expected = input.clone();
        expected.sort();
        for worker_count in 1..4 {
            let leaking = run(input.clone(), Variant::Leaking, worker_count);
            assert_eq!(leaking.value, expected);
            assert_eq!(leaking.handed_over, worker_count);
            let joining = run(input.clone(), Variant::Joining, worker_count);
            assert_eq!(joining.value, expected);
            assert_eq!(joining.handed_over, 0);
        }
    }
}
