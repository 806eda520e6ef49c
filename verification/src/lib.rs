//! Worker-pool orchestration core for a document build that must run its
//! typesetting engine in isolated subprocesses.
//!
//! The library holds the decision logic of that orchestration: the line
//! protocol spoken on a worker's standard output, the per-task lifecycle
//! (classifying spawn, input, and exit outcomes), and the per-pass scheduling
//! state (failure tallies and the early-abort rule). The surrounding process
//! plumbing — spawning, pipes, the thread pool, the result channel — lives
//! outside, handing this library plain values and acting on its decisions.

use std::io::Write;
use vstd::prelude::*;

pub mod protocol;
pub mod report;
pub mod schedule;
pub mod task;
pub mod text;

verus! {

/// Identity of one discovered build input, unique within a pass.
///
/// Assigned exactly once per input, in discovery order, by the pass's
/// reducer; used to correlate a completed result (which may arrive in any
/// order) back to its originating input.
#[derive(Clone, Copy, Debug, PartialEq, Eq, PartialOrd, Ord, Hash, Structural)]
pub struct InputId(pub usize);

/// A failure classified by how far its blast radius reaches.
///
/// This tag is the only error information that crosses a thread boundary;
/// rich detail is always reported at the point of detection.
#[derive(Debug, PartialEq, Eq)]
pub enum WorkerError<T> {
    /// An environmental error not specific to one input: other tasks are
    /// probably going to fail too, so the build should stop dispatching
    /// new work.
    General(T),

    /// An error scoped to a single input: that input's output is absent,
    /// but the build keeps going to report as many problems as it can.
    Specific(T),
}

/// Relies on `std::io::Stdout::write_fmt` (through `writeln`): prints one
/// line to the process's standard output — the stream on which a worker
/// process speaks the protocol to the orchestrator that spawned it.
#[verifier::external_body]
fn print_line(line: &str) {
    let mut out = std::io::stdout();
    let _ = writeln!(out, "{}", line);
}

/// Resolves a worker-mode result at the top of a worker process: a general
/// failure first announces itself on standard output with the protocol's
/// escalation line, so that the orchestrator stops dispatching; either kind
/// of failure then surfaces its payload for ordinary reporting, and the
/// worker exits nonzero through it.
pub fn resolve_worker_result<T, E>(r: Result<T, WorkerError<E>>) -> (out: Result<T, E>)
    ensures
        (out is Ok) == (r is Ok),
        r matches Ok(v) ==> out == Ok::<T, E>(v),
        r matches Err(WorkerError::General(e)) ==> out == Err::<T, E>(e),
        r matches Err(WorkerError::Specific(e)) ==> out == Err::<T, E>(e),
{
    match r {
        Ok(v) => Ok(v),
        Err(WorkerError::General(e)) => {
            let line = protocol::escalation_line();
            print_line(line.as_str());
            Err(e)
        },
        Err(WorkerError::Specific(e)) => Err(e),
    }
}

/// Worker-side sugar over [`resolve_worker_result`].
pub trait WorkerResultExt<T, E>: Sized {
    /// The classified result this value stands for.
    spec fn classified(self) -> Result<T, WorkerError<E>>;

    /// Unwraps one classification level, announcing a general failure on
    /// standard output first: the severity tag is dropped from the value and
    /// crosses only as the protocol's escalation line.
    fn unwrap_for_worker(self) -> (r: Result<T, E>)
        ensures
            (r is Ok) == (self.classified() is Ok),
            self.classified() matches Ok(v) ==> r == Ok::<T, E>(v),
            self.classified() matches Err(WorkerError::General(e)) ==> r == Err::<T, E>(e),
            self.classified() matches Err(WorkerError::Specific(e)) ==> r == Err::<T, E>(e),
    ;
}

impl<T, E> WorkerResultExt<T, E> for Result<T, WorkerError<E>> {
    open spec fn classified(self) -> Result<T, WorkerError<E>> {
        self
    }

    fn unwrap_for_worker(self) -> (r: Result<T, E>) {
        resolve_worker_result(self)
    }
}

} // verus!
