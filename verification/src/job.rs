//! The single slot of the job under supervision, what a request to cancel
//! does to it, and how a finished job is reported.

use vstd::prelude::*;
use vstd::string::*;
use crate::text::{chars_of, strip_bounds, stripped, Strip};

verus! {

/// The slot as the contracts see it.
pub struct JobState {
    /// Whether a job holds the slot.
    pub active: bool,
    /// The identifier of the job's process, once the system has given one.
    pub process_id: Option<u32>,
    /// Where the job was last known to write its result.
    pub recorded_output_path: Option<Seq<char>>,
    /// Whether the job was asked to stop.
    pub cancel_requested: bool,
}

/// What a request to cancel asks of the outside: a process to stop and a
/// file to delete if it is there.
pub struct CancelPlan {
    pub terminate: Option<u32>,
    pub delete: Option<Seq<char>>,
}

/// How a job ended, as the contracts see it.
pub enum Outcome {
    Succeeded { output_path: Seq<char> },
    Cancelled,
    Failed { exit_code: Option<i32>, diagnostic_text: Seq<char> },
}

/// The slot with no job in it.
pub open spec fn idle() -> JobState {
    JobState {
        active: false,
        process_id: None,
        recorded_output_path: None,
        cancel_requested: false,
    }
}

/// The slot after a job was accepted: the job's process is not known yet
/// and its expected output replaces whatever was recorded. A request to
/// cancel that is still pending stays pending.
pub open spec fn started(s: JobState, expected_output: Option<Seq<char>>) -> JobState {
    JobState {
        active: true,
        process_id: None,
        recorded_output_path: expected_output,
        cancel_requested: s.cancel_requested,
    }
}

/// The slot after the job's process was launched.
pub open spec fn launched(s: JobState, process_id: Option<u32>) -> JobState {
    if s.active {
        JobState { process_id, ..s }
    } else {
        s
    }
}

/// The slot after the tool announced where it writes.
pub open spec fn announced(s: JobState, path: Seq<char>) -> JobState {
    if s.active {
        JobState { recorded_output_path: Some(path), ..s }
    } else {
        s
    }
}

/// The slot after a request to cancel: an idle slot stays as it is; a job
/// is marked and its process identifier is given up to the request.
pub open spec fn cancelled(s: JobState) -> JobState {
    if s.active {
        JobState { process_id: None, cancel_requested: true, ..s }
    } else {
        s
    }
}

/// What a request to cancel asks of the outside.
pub open spec fn cancel_plan(s: JobState) -> CancelPlan {
    if s.active {
        CancelPlan { terminate: s.process_id, delete: s.recorded_output_path }
    } else {
        CancelPlan { terminate: None, delete: None }
    }
}

/// How a job that has exited is reported. A pending request to cancel
/// decides before the exit status does.
pub open spec fn outcome_of(
    s: JobState,
    exit_success: bool,
    exit_code: Option<i32>,
    output_path: Seq<char>,
    diagnostic_text: Seq<char>,
) -> Outcome {
    if s.cancel_requested {
        Outcome::Cancelled
    } else if exit_success {
        Outcome::Succeeded { output_path }
    } else {
        Outcome::Failed { exit_code, diagnostic_text }
    }
}

/// The file to delete once a job has exited: the recorded output of a job
/// that was cancelled, and nothing else.
pub open spec fn cleanup_of(s: JobState) -> Option<Seq<char>> {
    if s.cancel_requested {
        s.recorded_output_path
    } else {
        None
    }
}

/// The slot after the job's process has exited and its outcome was
/// decided: the job no longer holds the slot and no request to cancel is
/// pending. What was recorded of the job stays until the slot is released.
pub open spec fn resolved(s: JobState) -> JobState {
    JobState { active: false, cancel_requested: false, ..s }
}

/// Only a job that holds the slot can be asked to stop.
pub open spec fn well_formed(s: JobState) -> bool {
    !s.active ==> !s.cancel_requested
}

/// How a job ended.
#[derive(Clone, Debug, PartialEq, Eq)]
pub enum TerminalOutcome {
    /// The tool ran to its end; the result is at `output_path`.
    Succeeded { output_path: String },
    /// The job was asked to stop.
    Cancelled,
    /// The tool failed by itself.
    Failed { exit_code: Option<i32>, diagnostic_text: String },
}

impl View for TerminalOutcome {
    type V = Outcome;

    open spec fn view(&self) -> Outcome {
        match *self {
            TerminalOutcome::Succeeded { output_path } => Outcome::Succeeded {
                output_path: output_path@,
            },
            TerminalOutcome::Cancelled => Outcome::Cancelled,
            TerminalOutcome::Failed { exit_code, diagnostic_text } => Outcome::Failed {
                exit_code,
                diagnostic_text: diagnostic_text@,
            },
        }
    }
}

/// The text of an optional string.
pub open spec fn text_of(s: Option<String>) -> Option<Seq<char>> {
    match s {
        Some(t) => Some(t@),
        None => None,
    }
}

/// What a request to cancel asks of the caller.
#[derive(Clone, Debug, PartialEq, Eq)]
pub struct CancelAction {
    /// The process to stop.
    pub terminate: Option<u32>,
    /// The file to delete if it is there.
    pub delete: Option<String>,
}

impl View for CancelAction {
    type V = CancelPlan;

    open spec fn view(&self) -> CancelPlan {
        CancelPlan { terminate: self.terminate, delete: text_of(self.delete) }
    }
}

/// The report of a finished job.
#[derive(Clone, Debug, PartialEq, Eq)]
pub struct Completion {
    /// The one outcome of the job.
    pub outcome: TerminalOutcome,
    /// The file to delete if it is there.
    pub delete: Option<String>,
}

/// The slot of the one job under supervision.
pub struct JobSlot {
    active: bool,
    process_id: Option<u32>,
    recorded_output_path: Option<String>,
    cancel_requested: bool,
}

/// A copy of an optional string.
fn copy_of(s: &Option<String>) -> (r: Option<String>)
    ensures
        text_of(r) == text_of(*s),
{
    match s {
        Some(t) => Some(t.clone()),
        None => None,
    }
}

impl View for JobSlot {
    type V = JobState;

    closed spec fn view(&self) -> JobState {
        JobState {
            active: self.active,
            process_id: self.process_id,
            recorded_output_path: text_of(self.recorded_output_path),
            cancel_requested: self.cancel_requested,
        }
    }
}

impl JobSlot {
    /// The slot with no job in it.
    pub fn new() -> (r: Self)
        ensures
            r@ == idle(),
    {
        JobSlot {
            active: false,
            process_id: None,
            recorded_output_path: None,
            cancel_requested: false,
        }
    }

    /// Whether a job holds the slot.
    pub fn is_active(&self) -> (r: bool)
        ensures
            r == self@.active,
    {
        self.active
    }

    /// The identifier of the job's process.
    pub fn process_id(&self) -> (r: Option<u32>)
        ensures
            r == self@.process_id,
    {
        self.process_id
    }

    /// Where the job was last known to write its result.
    pub fn recorded_output_path(&self) -> (r: Option<String>)
        ensures
            text_of(r) == self@.recorded_output_path,
    {
        copy_of(&self.recorded_output_path)
    }

    /// Whether the job was asked to stop.
    pub fn cancel_requested(&self) -> (r: bool)
        ensures
            r == self@.cancel_requested,
    {
        self.cancel_requested
    }

    /// Accepts a job, before its process is confirmed to run. A job that
    /// still holds the slot loses it: its process identifier and recorded
    /// output are overwritten.
    pub fn start(&mut self, expected_output: Option<String>)
        ensures
            final(self)@ == started(old(self)@, text_of(expected_output)),
            well_formed(final(self)@),
    {
        self.active = true;
        self.process_id = None;
        self.recorded_output_path = expected_output;
    }

    /// Records the process of the job, or that the system gave no
    /// identifier for it. Without a job the slot stays as it is.
    pub fn set_process(&mut self, process_id: Option<u32>)
        ensures
            final(self)@ == launched(old(self)@, process_id),
            well_formed(old(self)@) ==> well_formed(final(self)@),
    {
        if self.active {
            self.process_id = process_id;
        }
    }

    /// Records where the tool says it writes, in place of what was recorded
    /// before. Without a job the slot stays as it is.
    pub fn record_output(&mut self, path: String)
        ensures
            final(self)@ == announced(old(self)@, path@),
            well_formed(old(self)@) ==> well_formed(final(self)@),
    {
        if self.active {
            self.recorded_output_path = Some(path);
        }
    }

    /// Gives the slot up after the process could not be started.
    pub fn spawn_failed(&mut self)
        ensures
            final(self)@ == idle(),
    {
        self.active = false;
        self.process_id = None;
        self.recorded_output_path = None;
        self.cancel_requested = false;
    }

    /// Asks the job to stop and says what the caller has to do for it.
    /// Without a job nothing changes and nothing is asked.
    pub fn cancel(&mut self) -> (action: CancelAction)
        ensures
            final(self)@ == cancelled(old(self)@),
            action@ == cancel_plan(old(self)@),
            well_formed(old(self)@) ==> well_formed(final(self)@),
    {
        if self.active {
            let action = CancelAction {
                terminate: self.process_id,
                delete: copy_of(&self.recorded_output_path),
            };
            self.cancel_requested = true;
            self.process_id = None;
            action
        } else {
            CancelAction { terminate: None, delete: None }
        }
    }

    /// Decides how the job whose process has exited is reported. The
    /// request to cancel is read once and cleared: if it was pending the job
    /// counts as cancelled whatever the exit status says, and its recorded
    /// output is to be deleted. Otherwise the exit status decides, and
    /// nothing is deleted. From here on a request to cancel finds no job.
    pub fn resolve(
        &mut self,
        exit_success: bool,
        exit_code: Option<i32>,
        output_path: String,
        diagnostic_text: String,
    ) -> (done: Completion)
        ensures
            done.outcome@ == outcome_of(
                old(self)@,
                exit_success,
                exit_code,
                output_path@,
                diagnostic_text@,
            ),
            text_of(done.delete) == cleanup_of(old(self)@),
            final(self)@ == resolved(old(self)@),
            well_formed(final(self)@),
    {
        let was_cancelled = self.cancel_requested;
        self.active = false;
        self.cancel_requested = false;
        if was_cancelled {
            Completion {
                outcome: TerminalOutcome::Cancelled,
                delete: copy_of(&self.recorded_output_path),
            }
        } else if exit_success {
            Completion { outcome: TerminalOutcome::Succeeded { output_path }, delete: None }
        } else {
            Completion {
                outcome: TerminalOutcome::Failed { exit_code, diagnostic_text },
                delete: None,
            }
        }
    }

    /// Clears the slot, once the outcome of its job has been handed on.
    pub fn release(&mut self)
        ensures
            final(self)@ == idle(),
    {
        self.active = false;
        self.process_id = None;
        self.recorded_output_path = None;
        self.cancel_requested = false;
    }
}

/// A second request to cancel, right after a first, changes nothing more
/// and names no process to stop: at most it asks again for the deletion of
/// the same file.
pub proof fn lemma_cancel_twice(s: JobState)
    ensures
        cancelled(cancelled(s)) == cancelled(s),
        cancel_plan(cancelled(s)).terminate is None,
        cancel_plan(cancelled(s)).delete == cancel_plan(s).delete,
        !s.active ==> cancelled(s) == s && cancel_plan(s) == (CancelPlan {
            terminate: None,
            delete: None,
        }),
{
}

/// A job that ends as cancelled has its last recorded output deleted, also
/// where the process exited with success.
pub proof fn lemma_cancelled_output_is_deleted(
    s: JobState,
    exit_success: bool,
    exit_code: Option<i32>,
    output_path: Seq<char>,
    diagnostic_text: Seq<char>,
)
    ensures
        s.cancel_requested <==> outcome_of(s, exit_success, exit_code, output_path, diagnostic_text)
            is Cancelled,
        outcome_of(s, exit_success, exit_code, output_path, diagnostic_text) is Cancelled
            ==> cleanup_of(s) == s.recorded_output_path,
{
}

/// A job that ends as succeeded has nothing deleted: success and
/// cancellation exclude each other, only cancellation deletes, and a
/// request to cancel that comes after the outcome was decided names no file.
pub proof fn lemma_succeeded_output_is_kept(
    s: JobState,
    exit_success: bool,
    exit_code: Option<i32>,
    output_path: Seq<char>,
    diagnostic_text: Seq<char>,
)
    ensures
        outcome_of(s, exit_success, exit_code, output_path, diagnostic_text) is Succeeded ==> {
            &&& !s.cancel_requested
            &&& exit_success
            &&& cleanup_of(s) is None
            &&& outcome_of(s, exit_success, exit_code, output_path, diagnostic_text)
                == (Outcome::Succeeded { output_path })
        },
        !(outcome_of(s, exit_success, exit_code, output_path, diagnostic_text) is Cancelled)
            ==> cleanup_of(s) is None,
        cancel_plan(resolved(s)) == (CancelPlan { terminate: None, delete: None }),
        cancelled(resolved(s)) == resolved(s),
{
}

/// A job accepted into a slot that no job holds is not asked to stop.
pub proof fn lemma_fresh_job_runs(s: JobState, expected_output: Option<Seq<char>>)
    requires
        well_formed(s),
        !s.active,
    ensures
        started(s, expected_output) == (JobState {
            active: true,
            process_id: None,
            recorded_output_path: expected_output,
            cancel_requested: false,
        }),
{
}

/// A job accepted while another holds the slot takes the slot over: the
/// first job's process identifier and recorded output are gone, and a
/// request to cancel now reaches the second job only.
pub proof fn lemma_start_overwrites(
    s: JobState,
    first_process: Option<u32>,
    first_output: Seq<char>,
    second_output: Option<Seq<char>>,
)
    requires
        s.active,
    ensures
        started(announced(launched(s, first_process), first_output), second_output).process_id
            is None,
        started(
            announced(launched(s, first_process), first_output),
            second_output,
        ).recorded_output_path == second_output,
        cancel_plan(
            started(announced(launched(s, first_process), first_output), second_output),
        ) == (CancelPlan { terminate: None, delete: second_output }),
{
}

/// The number of bytes from which the diagnostic buffer takes no more.
pub const DIAGNOSTIC_CAP: usize = 16384;

/// The start of a tool's diagnostic output, kept for the report of a
/// failure. Lines are appended until the buffer has reached its cap; what
/// was taken is never dropped.
pub struct DiagnosticBuffer {
    text: String,
}

impl View for DiagnosticBuffer {
    type V = Seq<char>;

    closed spec fn view(&self) -> Seq<char> {
        self.text@
    }
}

/// Whether a buffer that holds `held` still takes a line: its length in
/// bytes, as the machine counts it, is below the cap.
pub open spec fn takes_more(held: Seq<char>) -> bool {
    (vstd::utf8::encode_utf8(held).len() as usize) < DIAGNOSTIC_CAP
}

/// The buffer after a line was offered.
pub open spec fn appended(held: Seq<char>, line: Seq<char>) -> Seq<char> {
    if takes_more(held) {
        held + line + seq!['\n']
    } else {
        held
    }
}

impl DiagnosticBuffer {
    /// An empty buffer.
    pub fn new() -> (r: Self)
        ensures
            r@ == Seq::<char>::empty(),
    {
        DiagnosticBuffer { text: String::new() }
    }

    /// Offers a line: it is taken whole, with a line feed after it, unless
    /// the buffer has reached its cap.
    pub fn append(&mut self, line: &str)
        ensures
            final(self)@ == appended(old(self)@, line@),
            old(self)@.is_prefix_of(final(self)@),
    {
        if self.text.as_str().len() < DIAGNOSTIC_CAP {
            self.text.append(line);
            self.text.append("\n");
            proof {
                reveal_strlit("\n");
                assert("\n"@ =~= seq!['\n']);
                assert(self.text@ =~= old(self)@ + line@ + seq!['\n']);
            }
        }
    }

    /// What the buffer holds, without the white space at its ends.
    pub fn trimmed(&self) -> (r: String)
        ensures
            r@ == stripped(self@, Strip::WhiteSpace),
    {
        let chars = chars_of(self.text.as_str());
        let (lo, hi) = strip_bounds(&chars, 0, chars.len(), Strip::WhiteSpace);
        assert(chars@.subrange(0, chars.len() as int) =~= chars@);
        self.text.as_str().substring_char(lo, hi).to_owned()
    }
}

} // verus!
