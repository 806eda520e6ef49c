use texworker::report::Reporter;
use texworker::schedule::{submit_input, PassError, PassState, TexReducer};
use texworker::task::{CommandSpec, InputEntry, TaskExecution, WorkerDriver};
use texworker::{InputId, WorkerError};

struct OneLineDriver;

impl WorkerDriver for OneLineDriver {
    type Item = usize;

    fn init_command(&self, cmd: &mut CommandSpec, entry: &InputEntry, task_num: usize) {
        cmd.arg("first-pass-impl".to_string());
        cmd.arg(entry.path.clone());
        cmd.arg(task_num.to_string());
    }

    fn send_stdin(&self, _stdin: &mut Vec<u8>) -> Result<(), String> {
        Ok(())
    }

    fn process_output_record(&mut self, _line: &str, _status: &mut Reporter) {}

    fn finish(self) -> usize {
        1
    }
}

struct CountingReducer {
    next: usize,
    processed: Vec<InputId>,
    reject_all: bool,
}

impl CountingReducer {
    fn new() -> Self {
        CountingReducer { next: 0, processed: Vec::new(), reject_all: false }
    }
}

impl TexReducer for CountingReducer {
    type Worker = OneLineDriver;

    fn assign_input_id(&mut self, _input_name: String) -> InputId {
        let id = InputId(self.next);
        self.next += 1;
        id
    }

    fn make_worker(&mut self) -> OneLineDriver {
        OneLineDriver
    }

    fn process_item(&mut self, id: InputId, _item: usize) -> Result<(), WorkerError<()>> {
        self.processed.push(id);
        if self.reject_all {
            Err(WorkerError::Specific(()))
        } else {
            Ok(())
        }
    }
}

fn run_task(task: TaskExecution<OneLineDriver>, name: &str, exit_success: bool, escalate: bool)
    -> Result<(InputId, usize), WorkerError<()>> {
    let mut status = Reporter::new(name.to_string());
    let mut task = task;
    task.note_line("pedia:record", &mut status);
    if escalate {
        task.note_line("pedia:general-error", &mut status);
    }
    task.settle(exit_success, &mut status)
}

#[test]
fn two_specific_failures_out_of_ten() {
    let mut state = PassState::new();
    let mut red = CountingReducer::new();

    let mut pending = Vec::new();
    for i in 0..10usize {
        let entry = InputEntry { path: format!("inputs/{}.tex", i) };
        let (id, task) = submit_input(&mut state, &mut red, &entry);
        assert_eq!(id, InputId(i));
        pending.push((i, task));
    }
    assert_eq!(state.num_tasks(), 10);

    for (i, task) in pending {
        let fails = i == 3 || i == 6;
        let outcome = run_task(task, &format!("inputs/{}.tex", i), !fails, false);
        let verdict = state.handle_outcome(&mut red, outcome);
        if fails {
            assert!(matches!(verdict, Err(WorkerError::Specific(()))));
        } else {
            assert!(verdict.is_ok());
        }
        assert!(!state.given_up(), "a specific failure must not stop the pass");
    }

    assert_eq!(state.num_handled(), 10);
    assert_eq!(state.num_failures(), 2);
    assert!(!state.given_up());

    let mut seen = red.processed.clone();
    seen.sort();
    let expected: Vec<InputId> =
        (0..10usize).filter(|i| *i != 3 && *i != 6).map(InputId).collect();
    assert_eq!(seen, expected, "each surviving identity is processed exactly once");

    match state.conclude() {
        Ok(_) => panic!("a pass with failures must fail"),
        Err(e) => {
            assert_eq!(e, PassError { n_failures: 2, n_tasks: 10 });
            assert_eq!(e.message(), "2 out of 10 build inputs failed");
        }
    }
}

#[test]
fn all_ten_succeed() {
    let mut state = PassState::new();
    let mut red = CountingReducer::new();
    let mut pending = Vec::new();
    for i in 0..10usize {
        let entry = InputEntry { path: format!("inputs/{}.tex", i) };
        let (_, task) = submit_input(&mut state, &mut red, &entry);
        pending.push((i, task));
    }
    // Completion order differs from discovery order.
    pending.reverse();
    for (i, task) in pending {
        let outcome = run_task(task, &format!("inputs/{}.tex", i), true, false);
        assert!(state.handle_outcome(&mut red, outcome).is_ok());
    }
    assert_eq!(state.conclude(), Ok(10));
    assert_eq!(red.processed.len(), 10);
    let mut seen = red.processed.clone();
    seen.sort();
    assert_eq!(seen, (0..10usize).map(InputId).collect::<Vec<_>>());
}

#[test]
fn spawn_failure_stops_submission_early() {
    let mut state = PassState::new();
    let mut red = CountingReducer::new();

    let discovered: Vec<String> = (0..10usize).map(|i| format!("inputs/{}.tex", i)).collect();
    let mut walked = 0usize;
    for (i, name) in discovered.iter().enumerate() {
        walked += 1;
        let entry = InputEntry { path: name.clone() };
        let (_, task) = submit_input(&mut state, &mut red, &entry);
        // Input number three cannot even spawn its worker.
        let outcome = if i == 2 {
            let mut status = Reporter::new(name.clone());
            Err(task.fail_spawn(&mut status, "spawn failed".to_string()))
        } else {
            run_task(task, name, true, false)
        };
        let verdict = state.handle_outcome(&mut red, outcome);
        if matches!(verdict, Err(WorkerError::General(()))) {
            break;
        }
    }

    assert_eq!(walked, 3, "no input after the third is discovered");
    assert_eq!(red.next, 3, "no identity beyond the third is assigned");
    assert!(state.given_up());
    assert_eq!(state.num_tasks(), 3);
    assert_eq!(state.num_handled(), 3);
    assert!(state.num_failures() >= 1);
    match state.conclude() {
        Ok(_) => panic!("the aborted pass must fail"),
        Err(e) => {
            assert_eq!(e.n_failures, 1);
            assert_eq!(e.n_tasks, 3);
            assert_eq!(e.message(), "1 out of 3 build inputs failed");
        }
    }
}

#[test]
fn escalation_during_drain_counts_but_cannot_resubmit() {
    let mut state = PassState::new();
    let mut red = CountingReducer::new();
    let mut pending = Vec::new();
    for i in 0..4usize {
        let entry = InputEntry { path: format!("inputs/{}.tex", i) };
        let (_, task) = submit_input(&mut state, &mut red, &entry);
        pending.push((i, task));
    }
    // All four are already dispatched; the drain sees one escalated failure.
    for (i, task) in pending {
        let escalate = i == 1;
        let outcome = run_task(task, &format!("inputs/{}.tex", i), true, escalate);
        let _ = state.handle_outcome(&mut red, outcome);
    }
    assert_eq!(state.num_handled(), 4);
    assert_eq!(state.num_failures(), 1);
    assert!(state.given_up());
    assert_eq!(red.processed.len(), 3);
    match state.conclude() {
        Err(e) => assert_eq!(e.message(), "1 out of 4 build inputs failed"),
        Ok(_) => panic!("the pass must fail"),
    }
}

#[test]
fn reducer_rejections_count_as_failures() {
    let mut state = PassState::new();
    let mut red = CountingReducer::new();
    red.reject_all = true;
    let mut pending = Vec::new();
    for i in 0..2usize {
        let entry = InputEntry { path: format!("inputs/{}.tex", i) };
        let (_, task) = submit_input(&mut state, &mut red, &entry);
        pending.push((i, task));
    }
    for (i, task) in pending {
        let outcome = run_task(task, &format!("inputs/{}.tex", i), true, false);
        let verdict = state.handle_outcome(&mut red, outcome);
        assert!(matches!(verdict, Err(WorkerError::Specific(()))));
        assert!(!state.given_up(), "a specific rejection must not stop the pass");
    }
    assert_eq!(state.num_failures(), 2);
    match state.conclude() {
        Err(e) => assert_eq!(e.message(), "2 out of 2 build inputs failed"),
        Ok(_) => panic!("the pass must fail"),
    }
}

#[test]
fn empty_pass_concludes_with_zero() {
    let state = PassState::new();
    assert_eq!(state.conclude(), Ok(0));
}

#[test]
fn pass_error_message_formats_counts() {
    let e = PassError { n_failures: 120, n_tasks: 345 };
    assert_eq!(e.message(), "120 out of 345 build inputs failed");
    let one = PassError { n_failures: 1, n_tasks: 1 };
    assert_eq!(one.message(), "1 out of 1 build inputs failed");
}
