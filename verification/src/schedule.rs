//! Per-pass scheduling state: the counters and the early-abort rule of the
//! loop that dispatches tasks to the worker pool and drains their outcomes.
//!
//! The loop itself lives outside the library, next to the thread pool and the
//! result channel; it calls into [`PassState`] for every decision: recording
//! a submission, absorbing one completed outcome (which hands a successful
//! item to the pass's reducer), deciding whether to keep dispatching, and
//! concluding the pass. A ghost trace of submissions, processed identities,
//! and the moment of giving up carries the laws: an identity is processed at
//! most once, and nothing is submitted after the pass has given up.

use vstd::prelude::*;
use vstd::string::*;

use crate::task::{TaskExecution, InputEntry, WorkerDriver};
use crate::text::{decimal_of, decimal_string};
use crate::{InputId, WorkerError};

verus! {

/// The per-pass aggregator: assigns identities, manufactures drivers, and
/// consumes completed results one at a time on the scheduling thread — the
/// sole synchronization point for the pass-global state it owns.
pub trait TexReducer {
    /// The driver type this reducer manufactures.
    type Worker: WorkerDriver;

    /// Assigns the identity of one discovered input. Called exactly once per
    /// input, in discovery order; the identities must be unique within the
    /// pass.
    fn assign_input_id(&mut self, input_name: String) -> InputId;

    /// Manufactures the driver for the next task.
    fn make_worker(&mut self) -> Self::Worker;

    /// Consumes one completed item. Must report any failure detail itself
    /// before returning: only the bare severity crosses back to the caller.
    fn process_item(
        &mut self,
        id: InputId,
        item: <Self::Worker as WorkerDriver>::Item,
    ) -> Result<(), WorkerError<()>>;
}

/// One step in the history of a pass, as the ghost trace records it.
pub enum PassEvent {
    /// A task for this identity was handed to the pool.
    Submitted(InputId),
    /// A successful outcome for this identity was handed to the reducer.
    Processed(InputId),
    /// An environment-wide failure was observed: dispatching stops.
    GaveUp,
}

/// The identities submitted so far, in discovery order.
pub open spec fn submitted_ids(trace: Seq<PassEvent>) -> Seq<InputId>
    decreases trace.len(),
{
    if trace.len() == 0 {
        Seq::empty()
    } else {
        let rest = submitted_ids(trace.drop_last());
        match trace.last() {
            PassEvent::Submitted(id) => rest.push(id),
            _ => rest,
        }
    }
}

/// The identities whose items were handed to the reducer, in completion
/// order.
pub open spec fn processed_ids(trace: Seq<PassEvent>) -> Seq<InputId>
    decreases trace.len(),
{
    if trace.len() == 0 {
        Seq::empty()
    } else {
        let rest = processed_ids(trace.drop_last());
        match trace.last() {
            PassEvent::Processed(id) => rest.push(id),
            _ => rest,
        }
    }
}

/// Whether the pass has given up at some point of its history.
pub open spec fn has_given_up(trace: Seq<PassEvent>) -> bool
    decreases trace.len(),
{
    if trace.len() == 0 {
        false
    } else {
        has_given_up(trace.drop_last()) || trace.last() is GaveUp
    }
}

/// No submission stands after the pass gave up.
pub open spec fn no_submission_after_giving_up(trace: Seq<PassEvent>) -> bool {
    forall|i: int, j: int|
        0 <= i < j < trace.len() && (#[trigger] trace[i]) is GaveUp ==> !((#[trigger] trace[j])
            is Submitted)
}

/// Unfolding step: one more event extends the trace projections in the
/// obvious way.
proof fn lemma_trace_push(trace: Seq<PassEvent>, ev: PassEvent)
    ensures
        submitted_ids(trace.push(ev)) == (match ev {
            PassEvent::Submitted(id) => submitted_ids(trace).push(id),
            _ => submitted_ids(trace),
        }),
        processed_ids(trace.push(ev)) == (match ev {
            PassEvent::Processed(id) => processed_ids(trace).push(id),
            _ => processed_ids(trace),
        }),
        has_given_up(trace.push(ev)) == (has_given_up(trace) || ev is GaveUp),
        no_submission_after_giving_up(trace) && !(ev is Submitted)
            ==> no_submission_after_giving_up(trace.push(ev)),
        no_submission_after_giving_up(trace) && !has_given_up(trace)
            ==> no_submission_after_giving_up(trace.push(ev)),
{
    let full = trace.push(ev);
    assert(full.drop_last() =~= trace);
    assert(full.last() == ev);
    if no_submission_after_giving_up(trace) && !(ev is Submitted) {
        assert forall|i: int, j: int|
            0 <= i < j < full.len() && (#[trigger] full[i]) is GaveUp implies !((#[trigger] full[j])
            is Submitted) by {
            if j < trace.len() {
                assert(trace[i] is GaveUp);
                assert(!(trace[j] is Submitted));
            }
        }
    }
    if no_submission_after_giving_up(trace) && !has_given_up(trace) {
        lemma_no_give_up_anywhere(trace);
        assert forall|i: int, j: int|
            0 <= i < j < full.len() && (#[trigger] full[i]) is GaveUp implies !((#[trigger] full[j])
            is Submitted) by {
            if j < trace.len() {
                assert(trace[i] is GaveUp);
                assert(!(trace[j] is Submitted));
            } else {
                assert(i < trace.len());
                assert(!(trace[i] is GaveUp));
            }
        }
    }
}

/// A history that never gave up holds no give-up event at any index.
proof fn lemma_no_give_up_anywhere(trace: Seq<PassEvent>)
    requires
        !has_given_up(trace),
    ensures
        forall|i: int| 0 <= i < trace.len() ==> !(#[trigger] trace[i] is GaveUp),
    decreases trace.len(),
{
    if trace.len() > 0 {
        lemma_no_give_up_anywhere(trace.drop_last());
        assert forall|i: int| 0 <= i < trace.len() implies !(#[trigger] trace[i] is GaveUp) by {
            if i < trace.len() - 1 {
                assert(trace.drop_last()[i] == trace[i]);
            } else {
                assert(trace[i] == trace.last());
            }
        }
    }
}

/// A sequence without duplicates stays that way when an element not yet in
/// it is pushed.
proof fn lemma_no_duplicates_push<A>(s: Seq<A>, x: A)
    requires
        s.no_duplicates(),
        !s.contains(x),
    ensures
        s.push(x).no_duplicates(),
{
    let t = s.push(x);
    assert forall|i: int, j: int|
        0 <= i < t.len() && 0 <= j < t.len() && i != j implies t[i] != t[j] by {
        if i < s.len() && j < s.len() {
            assert(t[i] == s[i] && t[j] == s[j]);
        } else if i == s.len() {
            assert(t[j] == s[j]);
            if s[j] == x {
                assert(s.contains(x));
            }
        } else {
            assert(t[i] == s[i]);
            if s[i] == x {
                assert(s.contains(x));
            }
        }
    }
}

/// The pass-level failure raised when the pass concludes with a nonzero
/// failure count. It reports counts only: each individual failure was already
/// reported at its point of detection.
#[derive(Clone, Copy, Debug, PartialEq, Eq, Structural)]
pub struct PassError {
    pub n_failures: usize,
    pub n_tasks: usize,
}

/// The summary line of a failed pass.
pub open spec fn failure_message_of(n_failures: nat, n_tasks: nat) -> Seq<char> {
    decimal_of(n_failures) + " out of "@ + decimal_of(n_tasks) + " build inputs failed"@
}

impl PassError {
    /// Renders the summary line, e.g. `2 out of 10 build inputs failed`.
    pub fn message(&self) -> (s: String)
        ensures
            s@ == failure_message_of(self.n_failures as nat, self.n_tasks as nat),
    {
        let mut s = decimal_string(self.n_failures);
        s.append(" out of ");
        let total = decimal_string(self.n_tasks);
        s.append(total.as_str());
        s.append(" build inputs failed");
        s
    }
}

/// The scheduling state of one pass: how many tasks were handed to the pool,
/// how many outcomes were consumed, how many of those failed, and whether an
/// environment-wide failure has stopped dispatching.
pub struct PassState {
    n_tasks: usize,
    n_handled: usize,
    n_failures: usize,
    gave_up: bool,
    trace: Ghost<Seq<PassEvent>>,
}

impl PassState {
    /// Tasks handed to the pool so far.
    pub closed spec fn n_tasks(&self) -> usize {
        self.n_tasks
    }

    /// Outcomes consumed so far.
    pub closed spec fn n_handled(&self) -> usize {
        self.n_handled
    }

    /// Consumed outcomes that were failures, of either severity.
    pub closed spec fn n_failures(&self) -> usize {
        self.n_failures
    }

    /// Whether dispatching has stopped for an environment-wide failure.
    pub closed spec fn gave_up(&self) -> bool {
        self.gave_up
    }

    /// The history of the pass.
    pub closed spec fn trace(&self) -> Seq<PassEvent> {
        self.trace@
    }

    /// What every reachable scheduling state satisfies: the counters tally
    /// the trace, each consumed outcome is a processed identity or a counted
    /// failure, identities are processed at most once and only after
    /// submission, and no submission follows the give-up.
    pub open spec fn inv(&self) -> bool {
        &&& self.n_failures() <= self.n_handled() <= self.n_tasks()
        &&& submitted_ids(self.trace()).len() == self.n_tasks()
        &&& processed_ids(self.trace()).no_duplicates()
        &&& forall|k: int|
            0 <= k < processed_ids(self.trace()).len() ==> submitted_ids(self.trace()).contains(
                #[trigger] processed_ids(self.trace())[k],
            )
        &&& processed_ids(self.trace()).len() <= self.n_handled()
        &&& self.n_handled() <= processed_ids(self.trace()).len() + self.n_failures()
        &&& self.gave_up() == has_given_up(self.trace())
        &&& no_submission_after_giving_up(self.trace())
    }

    /// A fresh pass: nothing submitted, nothing consumed, still dispatching.
    pub fn new() -> (s: PassState)
        ensures
            s.inv(),
            s.n_tasks() == 0,
            s.n_handled() == 0,
            s.n_failures() == 0,
            !s.gave_up(),
            s.trace() == Seq::<PassEvent>::empty(),
    {
        PassState {
            n_tasks: 0,
            n_handled: 0,
            n_failures: 0,
            gave_up: false,
            trace: Ghost(Seq::empty()),
        }
    }

    /// Records that a task for `id` was handed to the pool. Only a pass that
    /// has not given up submits.
    pub fn record_submission(&mut self, id: InputId)
        requires
            old(self).inv(),
            !old(self).gave_up(),
            old(self).n_tasks() < usize::MAX,
        ensures
            final(self).inv(),
            final(self).n_tasks() == old(self).n_tasks() + 1,
            final(self).n_handled() == old(self).n_handled(),
            final(self).n_failures() == old(self).n_failures(),
            !final(self).gave_up(),
            final(self).trace() == old(self).trace().push(PassEvent::Submitted(id)),
            submitted_ids(final(self).trace()) == submitted_ids(old(self).trace()).push(id),
            processed_ids(final(self).trace()) == processed_ids(old(self).trace()),
    {
        proof {
            lemma_trace_push(self.trace@, PassEvent::Submitted(id));
            let subs = submitted_ids(self.trace@);
            let procs = processed_ids(self.trace@);
            assert forall|k: int| 0 <= k < procs.len() implies subs.push(id).contains(
                procs[k],
            ) by {
                assert(subs.contains(procs[k]));
                let w = choose|w: int| 0 <= w < subs.len() && subs[w] == procs[k];
                assert(subs.push(id)[w] == procs[k]);
            }
        }
        self.n_tasks = self.n_tasks + 1;
        self.trace = Ghost(self.trace@.push(PassEvent::Submitted(id)));
    }

    /// Consumes one completed outcome. A successful outcome hands its item to
    /// the reducer; the returned verdict combines the task's outcome with the
    /// reducer's response, as the pass counts it: every failed verdict is
    /// counted, an environment-wide one — the task's or the reducer's — makes
    /// the pass give up, and dispatching may go on just while the pass has
    /// not given up.
    ///
    /// The caller owes one outcome per submitted task, each identity at most
    /// once: that is the result channel's delivery discipline.
    pub fn handle_outcome<R: TexReducer>(
        &mut self,
        red: &mut R,
        outcome: Result<(InputId, <R::Worker as WorkerDriver>::Item), WorkerError<()>>,
    ) -> (verdict: Result<(), WorkerError<()>>)
        requires
            old(self).inv(),
            old(self).n_handled() < old(self).n_tasks(),
            outcome matches Ok(p) ==> submitted_ids(old(self).trace()).contains(p.0)
                && !processed_ids(old(self).trace()).contains(p.0),
        ensures
            final(self).inv(),
            final(self).n_tasks() == old(self).n_tasks(),
            final(self).n_handled() == old(self).n_handled() + 1,
            submitted_ids(final(self).trace()) == submitted_ids(old(self).trace()),
            outcome matches Ok(p) ==> processed_ids(final(self).trace()) == processed_ids(
                old(self).trace(),
            ).push(p.0),
            outcome is Err ==> processed_ids(final(self).trace()) == processed_ids(
                old(self).trace(),
            ),
            outcome matches Err(WorkerError::General(_)) ==> verdict == Err::<(), WorkerError<()>>(
                WorkerError::General(()),
            ),
            outcome matches Err(WorkerError::Specific(_)) ==> verdict == Err::<
                (),
                WorkerError<()>,
            >(WorkerError::Specific(())),
            verdict is Ok ==> outcome is Ok,
            verdict is Err ==> final(self).n_failures() == old(self).n_failures() + 1,
            verdict is Ok ==> final(self).n_failures() == old(self).n_failures(),
            final(self).gave_up() == (old(self).gave_up() || verdict matches Err(
                WorkerError::General(_),
            )),
    {
        self.n_handled = self.n_handled + 1;
        match outcome {
            Ok((id, item)) => {
                proof {
                    lemma_trace_push(self.trace@, PassEvent::Processed(id));
                    lemma_no_duplicates_push(processed_ids(self.trace@), id);
                }
                self.trace = Ghost(self.trace@.push(PassEvent::Processed(id)));
                match red.process_item(id, item) {
                    Ok(()) => Ok(()),
                    Err(WorkerError::General(())) => {
                        proof {
                            lemma_trace_push(self.trace@, PassEvent::GaveUp);
                        }
                        self.n_failures = self.n_failures + 1;
                        self.gave_up = true;
                        self.trace = Ghost(self.trace@.push(PassEvent::GaveUp));
                        Err(WorkerError::General(()))
                    },
                    Err(WorkerError::Specific(())) => {
                        self.n_failures = self.n_failures + 1;
                        Err(WorkerError::Specific(()))
                    },
                }
            },
            Err(WorkerError::General(())) => {
                proof {
                    lemma_trace_push(self.trace@, PassEvent::GaveUp);
                }
                self.n_failures = self.n_failures + 1;
                self.gave_up = true;
                self.trace = Ghost(self.trace@.push(PassEvent::GaveUp));
                Err(WorkerError::General(()))
            },
            Err(WorkerError::Specific(())) => {
                self.n_failures = self.n_failures + 1;
                Err(WorkerError::Specific(()))
            },
        }
    }

    /// Concludes the pass once every outcome has been consumed: the number of
    /// processed inputs on success, the failure counts otherwise.
    pub fn conclude(self) -> (r: Result<usize, PassError>)
        requires
            self.n_handled() == self.n_tasks(),
        ensures
            (r is Ok) == (self.n_failures() == 0),
            r matches Ok(n) ==> n == self.n_tasks(),
            r matches Err(e) ==> e.n_failures == self.n_failures() && e.n_tasks == self.n_tasks(),
    {
        if self.n_failures == 0 {
            Ok(self.n_tasks)
        } else {
            Err(PassError { n_failures: self.n_failures, n_tasks: self.n_tasks })
        }
    }

    /// Tasks handed to the pool so far.
    pub fn num_tasks(&self) -> (n: usize)
        ensures
            n == self.n_tasks(),
    {
        self.n_tasks
    }

    /// Outcomes consumed so far.
    pub fn num_handled(&self) -> (n: usize)
        ensures
            n == self.n_handled(),
    {
        self.n_handled
    }

    /// Consumed outcomes that were failures.
    pub fn num_failures(&self) -> (n: usize)
        ensures
            n == self.n_failures(),
    {
        self.n_failures
    }

    /// Whether dispatching has stopped for an environment-wide failure.
    pub fn given_up(&self) -> (g: bool)
        ensures
            g == self.gave_up(),
    {
        self.gave_up
    }
}

/// One submission step of the scheduling loop: asks the reducer for this
/// input's identity and a fresh driver, records the submission, and returns
/// the identity with the execution to hand to a pool thread.
pub fn submit_input<R: TexReducer>(state: &mut PassState, red: &mut R, entry: &InputEntry) -> (t: (
    InputId,
    TaskExecution<R::Worker>,
))
    requires
        old(state).inv(),
        !old(state).gave_up(),
        old(state).n_tasks() < usize::MAX,
    ensures
        final(state).inv(),
        final(state).n_tasks() == old(state).n_tasks() + 1,
        final(state).n_handled() == old(state).n_handled(),
        final(state).n_failures() == old(state).n_failures(),
        !final(state).gave_up(),
        submitted_ids(final(state).trace()) == submitted_ids(old(state).trace()).push(t.0),
        processed_ids(final(state).trace()) == processed_ids(old(state).trace()),
        t.1.inv(),
        t.1.task_id() == t.0,
        !t.1.escalated(),
        t.1.lines() == Seq::<Seq<char>>::empty(),
{
    let id = red.assign_input_id(entry.path.clone());
    let worker = red.make_worker();
    state.record_submission(id);
    (id, TaskExecution::new(worker, id))
}

/// Law: in any reachable scheduling state, an identity was processed at most
/// once and only after being submitted; once every outcome of a pass with no
/// failures has been consumed, exactly as many identities were processed as
/// tasks were submitted — and, when the reducer assigned unique identities,
/// those are exactly the submitted ones, each processed exactly once.
pub proof fn lemma_identities_processed_once(s: PassState)
    requires
        s.inv(),
    ensures
        processed_ids(s.trace()).no_duplicates(),
        forall|k: int|
            0 <= k < processed_ids(s.trace()).len() ==> submitted_ids(s.trace()).contains(
                #[trigger] processed_ids(s.trace())[k],
            ),
        s.n_handled() == s.n_tasks() && s.n_failures() == 0 ==> processed_ids(s.trace()).len()
            == s.n_tasks(),
        s.n_handled() == s.n_tasks() && s.n_failures() == 0 && submitted_ids(
            s.trace(),
        ).no_duplicates() ==> processed_ids(s.trace()).to_set() == submitted_ids(
            s.trace(),
        ).to_set(),
{
    broadcast use vstd::set::group_set_axioms;

    let procs = processed_ids(s.trace());
    let subs = submitted_ids(s.trace());
    if s.n_handled() == s.n_tasks() && s.n_failures() == 0 && subs.no_duplicates() {
        procs.unique_seq_to_set();
        subs.unique_seq_to_set();
        assert forall|x: InputId| procs.to_set().contains(x) implies subs.to_set().contains(
            x,
        ) by {
            assert(procs.contains(x));
            let k = choose|k: int| 0 <= k < procs.len() && procs[k] == x;
            assert(subs.contains(procs[k]));
        }
        assert forall|x: InputId| subs.to_set().contains(x) implies procs.to_set().contains(
            x,
        ) by {
            if !procs.to_set().contains(x) {
                let smaller = subs.to_set().remove(x);
                assert(procs.to_set().subset_of(smaller));
                vstd::set_lib::lemma_len_subset(procs.to_set(), smaller);
                assert(smaller.len() == subs.to_set().len() - 1);
                assert(false);
            }
        }
        assert(procs.to_set() =~= subs.to_set());
    }
}

/// Law: once the pass has given up, no submission follows in its history.
pub proof fn lemma_no_submission_after_give_up(s: PassState, i: int, j: int)
    requires
        s.inv(),
        0 <= i < j < s.trace().len(),
        s.trace()[i] is GaveUp,
    ensures
        !(s.trace()[j] is Submitted),
{
}

} // verus!
