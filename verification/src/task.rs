//! One task's lifecycle: how a single worker subprocess is configured, fed,
//! read, and classified.
//!
//! The process plumbing (spawning, pipes, waiting) lives outside the library;
//! it drives a [`TaskExecution`] by handing it the events of the lifecycle —
//! a spawn failure, an input failure, each line of worker output, and finally
//! the exit status. The execution keeps the protocol state and settles the
//! task's outcome by the combination rule: the exit status alone never
//! decides severity; only the in-band escalation token marks a failure as
//! environment-wide, and the token is honored even over a successful exit.

use vstd::prelude::*;

use crate::protocol::{
    classify_line, escalated_after, is_chatter, is_escalation, is_record, lemma_folds_push,
    payload_of, records_of, LineClass,
};
use crate::report::{NoticeLevel, NoticeModel, Reporter};
use crate::{InputId, WorkerError};

verus! {

/// One discovered build input, as the library sees it: the path that names it
/// in identity assignment and in error messages.
#[derive(Clone, Debug)]
pub struct InputEntry {
    pub path: String,
}

/// The re-invocation command for one worker subprocess: the path of the
/// program to run again (the orchestrating executable itself) and the
/// arguments that put it in worker mode on one specific input.
///
/// The program is not a driver's to choose — a driver only appends arguments
/// — so the field stays private behind a read-only accessor.
#[derive(Clone, Debug)]
pub struct CommandSpec {
    program: String,
    pub args: Vec<String>,
}

impl CommandSpec {
    /// The program to run.
    pub closed spec fn program_view(&self) -> Seq<char> {
        self.program@
    }

    /// The argument list as a sequence of character sequences.
    pub closed spec fn args_view(&self) -> Seq<Seq<char>> {
        self.args@.map_values(|a: String| a@)
    }

    /// A command running `program` with no arguments yet.
    pub fn new(program: String) -> (c: CommandSpec)
        ensures
            c.program_view() == program@,
            c.args_view() == Seq::<Seq<char>>::empty(),
    {
        let c = CommandSpec { program, args: Vec::new() };
        proof {
            assert(c.args_view() =~= Seq::<Seq<char>>::empty());
        }
        c
    }

    /// The program to run.
    pub fn program(&self) -> (p: &String)
        ensures
            p@ == self.program_view(),
    {
        &self.program
    }

    /// Appends one argument.
    pub fn arg(&mut self, a: String)
        ensures
            final(self).program_view() == old(self).program_view(),
            final(self).args_view() == old(self).args_view().push(a@),
    {
        let ghost av = a@;
        self.args.push(a);
        proof {
            assert(self.args_view() =~= old(self).args_view().push(av));
        }
    }
}

/// The per-task strategy object: how to configure one worker subprocess,
/// feed it its input, interpret its streamed records, and produce the
/// finished result value.
pub trait WorkerDriver: Sized {
    /// The value returned to the orchestrating thread on success.
    type Item;

    /// Populates the re-invocation command: the arguments that select worker
    /// mode, name the specific input, and carry the task index.
    fn init_command(&self, cmd: &mut CommandSpec, entry: &InputEntry, task_num: usize);

    /// Writes the task's payload into the buffer destined for the worker's
    /// standard input. An error is scoped to this input alone; the string
    /// carries the detail to report.
    fn send_stdin(&self, stdin: &mut Vec<u8>) -> Result<(), String>;

    /// Consumes one protocol record (marker already stripped), mutating the
    /// driver's accumulation state.
    fn process_output_record(&mut self, line: &str, status: &mut Reporter);

    /// Finishes the task, producing the result value. Called only when the
    /// worker exited successfully and never escalated.
    fn finish(self) -> Self::Item;
}

/// The state of one task between spawn and settlement: the driver, the
/// input's identity, and the pending failure classification, which starts
/// input-specific and is only ever escalated by the in-band token.
pub struct TaskExecution<W: WorkerDriver> {
    driver: W,
    id: InputId,
    escalated: bool,
    lines: Ghost<Seq<Seq<char>>>,
    records: Ghost<Seq<Seq<char>>>,
}

impl<W: WorkerDriver> TaskExecution<W> {
    /// The identity of the input handled by the task.
    pub closed spec fn task_id(&self) -> InputId {
        self.id
    }

    /// Whether the escalation token has been seen.
    pub closed spec fn escalated(&self) -> bool {
        self.escalated
    }

    /// Every line of worker output seen so far, in order.
    pub closed spec fn lines(&self) -> Seq<Seq<char>> {
        self.lines@
    }

    /// The record payloads handed to the driver so far, in order.
    pub closed spec fn records(&self) -> Seq<Seq<char>> {
        self.records@
    }

    /// The protocol state is exactly the fold of the lines seen: the task is
    /// escalated just when some line carried the token, and the driver was
    /// handed just the record payloads, in order.
    pub open spec fn inv(&self) -> bool {
        &&& self.escalated() == escalated_after(self.lines())
        &&& self.records() == records_of(self.lines())
    }

    /// A fresh execution: no output seen, classification still
    /// input-specific.
    pub fn new(driver: W, id: InputId) -> (t: Self)
        ensures
            t.inv(),
            t.task_id() == id,
            !t.escalated(),
            t.lines() == Seq::<Seq<char>>::empty(),
            t.records() == Seq::<Seq<char>>::empty(),
    {
        TaskExecution {
            driver,
            id,
            escalated: false,
            lines: Ghost(Seq::empty()),
            records: Ghost(Seq::empty()),
        }
    }

    /// Builds the re-invocation command: the orchestrator's own path as the
    /// program, the arguments filled in by the driver.
    pub fn build_command(&self, self_path: &str, entry: &InputEntry, task_num: usize) -> (cmd:
        CommandSpec)
        ensures
            cmd.program_view() == self_path@,
    {
        let mut cmd = CommandSpec::new(self_path.to_owned());
        self.driver.init_command(&mut cmd, entry, task_num);
        // The call above has no contract, so nothing is known of the borrowed
        // command afterwards; the program is not the driver's to choose, so
        // re-pin it.
        cmd.program = self_path.to_owned();
        cmd
    }

    /// Writes the task's payload into the buffer bound for the worker's
    /// standard input, via the driver.
    pub fn render_input(&self, stdin: &mut Vec<u8>) -> (r: Result<(), String>) {
        self.driver.send_stdin(stdin)
    }

    /// The task could not even spawn its worker: an environmental failure —
    /// other tasks are probably going to fail the same way.
    pub fn fail_spawn(self, status: &mut Reporter, cause: String) -> (e: WorkerError<()>)
        ensures
            e == WorkerError::<()>::General(()),
            final(status).log() == old(status).log().push(
                NoticeModel {
                    level: NoticeLevel::Error,
                    text: "failed to relaunch self as TeX worker"@,
                    detail: Some(cause@),
                },
            ),
            final(status).ctx() == old(status).ctx(),
    {
        status.error_with("failed to relaunch self as TeX worker", cause);
        WorkerError::General(())
    }

    /// The task could not deliver its input to the worker: a failure scoped
    /// to this one input.
    pub fn fail_input(self, status: &mut Reporter, cause: String) -> (e: WorkerError<()>)
        ensures
            e == WorkerError::<()>::Specific(()),
            final(status).log() == old(status).log().push(
                NoticeModel {
                    level: NoticeLevel::Error,
                    text: "failed to send input to TeX worker"@,
                    detail: Some(cause@),
                },
            ),
            final(status).ctx() == old(status).ctx(),
    {
        status.error_with("failed to send input to TeX worker", cause);
        WorkerError::Specific(())
    }

    /// Takes in one line of worker output. The escalation token escalates the
    /// pending classification (and never de-escalates it); any other prefixed
    /// line is forwarded, minus the marker, to the driver; an unprefixed line
    /// earns exactly one warning and changes no protocol state.
    pub fn note_line(&mut self, line: &str, status: &mut Reporter)
        requires
            old(self).inv(),
        ensures
            final(self).inv(),
            final(self).task_id() == old(self).task_id(),
            final(self).lines() == old(self).lines().push(line@),
            final(self).escalated() == (old(self).escalated() || is_escalation(line@)),
            final(self).records() == if is_record(line@) {
                old(self).records().push(payload_of(line@))
            } else {
                old(self).records()
            },
            is_chatter(line@) ==> final(status).log() == old(status).log().push(
                NoticeModel {
                    level: NoticeLevel::Warning,
                    text: "unexpected stdout content"@,
                    detail: Some(line@),
                },
            ) && final(status).ctx() == old(status).ctx(),
            is_escalation(line@) ==> *final(status) == *old(status),
    {
        proof {
            lemma_folds_push(self.lines@, line@);
        }
        self.lines = Ghost(self.lines@.push(line@));
        match classify_line(line) {
            LineClass::Escalation => {
                self.escalated = true;
            },
            LineClass::Record(payload) => {
                self.records = Ghost(self.records@.push(payload@));
                self.driver.process_output_record(payload.as_str(), status);
            },
            LineClass::Chatter => {
                status.warning_with("unexpected stdout content", line.to_owned());
            },
        }
    }

    /// Settles the task once the worker has exited, combining the exit status
    /// with the pending classification: a clean exit with no escalation is
    /// the only success; a clean exit after the token is an anomaly, warned
    /// about and failed as environment-wide; a failing exit keeps whatever
    /// classification the output established, input-specific by default.
    pub fn settle(self, exit_success: bool, status: &mut Reporter) -> (r: Result<
        (InputId, W::Item),
        WorkerError<()>,
    >)
        ensures
            (r is Ok) == (exit_success && !self.escalated()),
            r matches Ok(p) ==> p.0 == self.task_id(),
            self.escalated() ==> r == Err::<(InputId, W::Item), WorkerError<()>>(
                WorkerError::General(()),
            ),
            !exit_success && !self.escalated() ==> r == Err::<
                (InputId, W::Item),
                WorkerError<()>,
            >(WorkerError::Specific(())),
            exit_success && self.escalated() ==> final(status).log() == old(status).log().push(
                NoticeModel {
                    level: NoticeLevel::Warning,
                    text: "TeX worker had a successful exit code but reported failure"@,
                    detail: None,
                },
            ) && final(status).ctx() == old(status).ctx(),
            !(exit_success && self.escalated()) ==> *final(status) == *old(status),
    {
        let TaskExecution { driver, id, escalated, .. } = self;
        if exit_success {
            if !escalated {
                Ok((id, driver.finish()))
            } else {
                status.warning("TeX worker had a successful exit code but reported failure");
                Err(WorkerError::General(()))
            }
        } else {
            if escalated {
                Err(WorkerError::General(()))
            } else {
                Err(WorkerError::Specific(()))
            }
        }
    }
}

} // verus!
