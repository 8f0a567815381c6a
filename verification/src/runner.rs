//! The execution engine.
//!
//! The runner drives jobs as a small-step machine: every call to [`Runner::next`]
//! advances the run by one decision and hands back an [`Action`] — notices to
//! report plus one operation for the driver to perform (render a template,
//! spawn a command, read or write a file).  The driver answers with the
//! matching [`Event`] and calls [`Runner::next`] again, until the operation is
//! [`Op::Done`].  All decisions — run-once gates, dependency order, iteration,
//! error policy — are made here; the driver only performs effects.

use vstd::prelude::*;

use crate::bindings::Bindings;
use crate::config::{config_valid, has_job, job_ok, names_unique, Config};
use crate::context::{same_context, TemplateData};
use crate::job::{nonempty_segments, range_value_seq, IterPlan, Iteration, Job, LogOutput, Step};
use crate::text::str_eq;
use crate::value::Value;

verus! {

/// Appending a frame and dropping it again is the identity; lets the
/// transition contracts relate the stack around a push.
pub broadcast proof fn lemma_push_drop_last<T>(s: Seq<T>, x: T)
    ensures
        #[trigger] s.push(x).drop_last() == s,
{
    assert(s.push(x).drop_last() =~= s);
}

/// Appending keeps every present element and adds the appended one; lets the
/// notice claims survive later notices.
pub broadcast proof fn lemma_push_preserves_contains<T>(s: Seq<T>, x: T, y: T)
    requires
        s.contains(y) || x == y,
    ensures
        #[trigger] s.push(x).contains(y),
{
    if x == y {
        assert(s.push(x)[s.len() as int] == y);
    } else {
        let i = choose|i: int| 0 <= i < s.len() && s[i] == y;
        assert(s.push(x)[i] == y);
    }
}

/// Where a spawned command's standard output goes.
#[derive(PartialEq, Eq, Debug)]
pub enum LogTarget {
    /// Inherit the engine's own standard output.
    Inherit,
    /// Discard the output.
    Discard,
    /// Append to the file at the given (already rendered) path, creating it
    /// if absent.
    Append(String),
}

/// One operation the driver must perform before the run can go on.
pub enum Op {
    /// Nothing to perform; answer with [`Event::Ack`].
    Proceed,
    /// Render `template` against `data`; answer with [`Event::Rendered`].
    Render { template: String, data: TemplateData },
    /// Spawn a platform shell running `body` under the given environment and
    /// working directory, route its output to `log`, wait for it, and answer
    /// with [`Event::CommandDone`] telling whether it exited successfully.
    RunCommand { body: String, env: Bindings<String>, dir: Option<String>, log: LogTarget },
    /// Load the iteration file at `path`, which must hold an array of values;
    /// answer with [`Event::IterValues`].
    ReadIters { path: String },
    /// Read the text file at `path`; answer with [`Event::TextRead`].
    ReadText { path: String },
    /// Write `content` to `path`, creating missing parent directories; answer
    /// with [`Event::Written`].
    WriteText { path: String, content: String },
    /// The run is over with the given overall result; no answer is expected.
    Done { ok: bool },
}

/// The driver's answer to the last operation.
pub enum Event {
    /// Answer to [`Op::Proceed`].
    Ack,
    /// Answer to [`Op::Render`]: the rendered text, or the render error.
    Rendered(Result<String, String>),
    /// Answer to [`Op::RunCommand`]: whether the command exited successfully.
    CommandDone(bool),
    /// Answer to [`Op::ReadIters`]: the values, or the fault (an unreadable
    /// file, or a root that is not an array).
    IterValues(Result<Vec<Value>, String>),
    /// Answer to [`Op::ReadText`]: the file's text, or the read error.
    TextRead(Result<String, String>),
    /// Answer to [`Op::WriteText`]: whether the write succeeded.
    Written(bool),
}

/// The kind of event an operation expects.
#[derive(PartialEq, Eq, Structural, Clone, Copy)]
pub enum EventKind {
    Ack,
    Rendered,
    CommandDone,
    IterValues,
    TextRead,
    Written,
}

/// The kind of an event.
pub open spec fn event_kind(ev: Event) -> EventKind {
    match ev {
        Event::Ack => EventKind::Ack,
        Event::Rendered(_) => EventKind::Rendered,
        Event::CommandDone(_) => EventKind::CommandDone,
        Event::IterValues(_) => EventKind::IterValues,
        Event::TextRead(_) => EventKind::TextRead,
        Event::Written(_) => EventKind::Written,
    }
}

/// The kind of event that answers an operation; for [`Op::Done`] no answer
/// is expected.
pub open spec fn op_answer_kind(op: Op) -> EventKind {
    match op {
        Op::Proceed => EventKind::Ack,
        Op::Render { .. } => EventKind::Rendered,
        Op::RunCommand { .. } => EventKind::CommandDone,
        Op::ReadIters { .. } => EventKind::IterValues,
        Op::ReadText { .. } => EventKind::TextRead,
        Op::WriteText { .. } => EventKind::Written,
        Op::Done { .. } => EventKind::Ack,
    }
}

/// Something the engine decided that the driver may want to report.
#[derive(PartialEq, Eq, Debug)]
pub enum Notice {
    /// A job is being loaded.
    LoadingJob { job: String },
    /// The job was skipped: its gate refused the run.
    AlreadyExecuted,
    /// A command step is about to be executed; carries the command template.
    StepStart { command: String },
    /// A step failed and the job gives up.
    StepFailed,
    /// The job's message for the current iteration, rendered.
    Message { text: String },
    /// A template transform runs from `input` to `output` (rendered paths).
    Template { input: String, output: String },
    /// A render call failed.
    RenderFailed { error: String },
    /// Dry-run: the command would have run with this rendered body.
    DryRun { body: String },
    /// The iteration file could not be loaded.
    BadIterationFile { path: String },
    /// A template transform failed while reading or writing a file.
    TemplateFailed,
}

/// What the driver gets from one step: notices to report, then one operation
/// to perform.
pub struct Action {
    pub notes: Vec<Notice>,
    pub op: Op,
}

/// Progress of one shell command execution.
pub enum CmdState {
    /// Waiting for the render of the command body.
    AwaitBody,
    /// Waiting for the render of the log-file path template.
    AwaitLogPath { body: String },
    /// Waiting for the spawned command to exit.
    AwaitExit,
}

/// The event kind a command in the given state expects.
pub open spec fn cmd_expected(cs: CmdState) -> EventKind {
    match cs {
        CmdState::AwaitBody => EventKind::Rendered,
        CmdState::AwaitLogPath { .. } => EventKind::Rendered,
        CmdState::AwaitExit => EventKind::CommandDone,
    }
}

/// Progress of one template transform.
pub enum TplPhase {
    /// Waiting for the render of the input path; holds the output path
    /// template.
    AwaitIn { out_template: String },
    /// Waiting for the render of the output path; holds the rendered input
    /// path.
    AwaitOut { input: String },
    /// Waiting for the input file's text; holds the rendered output path.
    AwaitText { output: String },
    /// Waiting for the render of the file's contents.
    AwaitRendered { output: String },
    /// Waiting for the write of the rendered contents.
    AwaitWritten,
}

/// The event kind a template transform in the given phase expects.
pub open spec fn tpl_expected(tp: TplPhase) -> EventKind {
    match tp {
        TplPhase::AwaitIn { .. } => EventKind::Rendered,
        TplPhase::AwaitOut { .. } => EventKind::Rendered,
        TplPhase::AwaitText { .. } => EventKind::TextRead,
        TplPhase::AwaitRendered { .. } => EventKind::Rendered,
        TplPhase::AwaitWritten => EventKind::Written,
    }
}

/// Progress within the iteration loop of a job.
pub enum Stage {
    /// About to begin iteration `it`: refresh the context, then emit the
    /// message, run the template transforms and run the steps.
    Begin,
    /// Waiting for the render of the job's message.
    AwaitMessage,
    /// About to start template transform `t` (or the steps, when none is
    /// left).
    TplNext { t: usize },
    /// A template transform in flight.
    Tpl { t: usize, tp: TplPhase },
    /// About to start step `s` (or the next iteration, when none is left).
    StepNext { s: usize },
    /// A command step in flight.
    StepCmd { s: usize, cmd: CmdState },
    /// A job-reference step running as a child frame.
    StepChild { s: usize },
}

/// Progress of one job run.
pub enum Phase {
    /// Decide whether the job runs: guard conditions when declared, the
    /// run-once flag otherwise.
    GateStart,
    /// Guard condition `idx` in flight; `all_ok` collects the outcomes so
    /// far.
    GateCmd { idx: usize, all_ok: bool, cmd: CmdState },
    /// About to run dependency `idx` (or the iterations, when none is left).
    DepNext { idx: usize },
    /// A command dependency in flight.
    DepCmd { idx: usize, cmd: CmdState },
    /// A job-reference dependency running as a child frame.
    DepChild { idx: usize },
    /// About to resolve the iteration policy.
    IterResolve,
    /// Waiting for the iteration file's values; holds the file's path.
    AwaitIterFile { path: String },
    /// The iteration loop.
    Iters { plan: IterPlan, it: usize, stage: Stage },
}

/// One job run on the call stack.
pub struct Frame {
    /// Index of the job being run.
    pub job: usize,
    /// The template context of this run.
    pub data: TemplateData,
    /// Where the run stands.
    pub phase: Phase,
    /// Outcome of the last evaluated unit of this run; the job's overall
    /// result when it survives to the end.
    pub last_ok: bool,
}

/// Whether a phase is waiting for a child frame's result.
pub open spec fn waiting(p: Phase) -> bool {
    ||| p matches Phase::DepChild { .. }
    ||| p matches Phase::Iters { stage: Stage::StepChild { .. }, .. }
}

/// The event kind a frame in the given phase expects.
pub open spec fn phase_expected(p: Phase) -> EventKind {
    match p {
        Phase::GateStart => EventKind::Ack,
        Phase::GateCmd { cmd, .. } => cmd_expected(cmd),
        Phase::DepNext { .. } => EventKind::Ack,
        Phase::DepCmd { cmd, .. } => cmd_expected(cmd),
        Phase::DepChild { .. } => EventKind::Ack,
        Phase::IterResolve => EventKind::Ack,
        Phase::AwaitIterFile { .. } => EventKind::IterValues,
        Phase::Iters { stage, .. } => match stage {
            Stage::Begin => EventKind::Ack,
            Stage::AwaitMessage => EventKind::Rendered,
            Stage::TplNext { .. } => EventKind::Ack,
            Stage::Tpl { tp, .. } => tpl_expected(tp),
            Stage::StepNext { .. } => EventKind::Ack,
            Stage::StepCmd { cmd, .. } => cmd_expected(cmd),
            Stage::StepChild { .. } => EventKind::Ack,
        },
    }
}

/// The iteration counter as an iteration value, saturating at the integer
/// bound.
pub open spec fn counter_value(it: int) -> Value {
    if it <= i64::MAX {
        Value::Int(it as i64)
    } else {
        Value::Int(i64::MAX)
    }
}

/// The context's iteration value agrees with the plan: absent for a single
/// run, the counter for an infinite loop, the current element for a list.
pub open spec fn iter_set(plan: IterPlan, it: int, iter: Option<Value>) -> bool {
    match plan {
        IterPlan::Once => it == 0 && iter is None,
        IterPlan::Infinite => iter == Some(counter_value(it)),
        IterPlan::Values(vs) => 0 <= it < vs@.len() && iter == Some(vs@[it]),
        IterPlan::FromFile(_) => false,
    }
}

/// The iteration counter stays within the plan: within the list for list
/// plans, at most one for a single run.
pub open spec fn it_in_plan(plan: IterPlan, it: int) -> bool {
    match plan {
        IterPlan::Once => 0 <= it <= 1,
        IterPlan::Infinite => 0 <= it,
        IterPlan::Values(vs) => 0 <= it <= vs@.len(),
        IterPlan::FromFile(_) => false,
    }
}

/// Well-formedness of one frame against the job set.
pub open spec fn frame_ok(jobs: Seq<Job>, cdir: Seq<char>, f: Frame) -> bool {
    &&& f.job < jobs.len()
    &&& f.data.job@ == jobs[f.job as int].name@
    &&& f.data.config_dir@ == cdir
    &&& (jobs[f.job as int].dir matches Some(d) ==> (f.data.dir matches Some(e) && e@ == d@))
    &&& match f.phase {
        Phase::GateStart => true,
        Phase::GateCmd { idx, .. } => jobs[f.job as int].when matches Some(w) && idx < w@.len(),
        Phase::DepNext { .. } => true,
        Phase::DepCmd { idx, .. } => jobs[f.job as int].depends matches Some(d) && idx < d@.len(),
        Phase::DepChild { idx } => jobs[f.job as int].depends matches Some(d) && idx < d@.len(),
        Phase::IterResolve => true,
        Phase::AwaitIterFile { .. } => jobs[f.job as int].steps is Some,
        Phase::Iters { plan, it, stage } => {
            &&& jobs[f.job as int].steps is Some
            &&& !(plan matches IterPlan::FromFile(_))
            &&& it_in_plan(plan, it as int)
            &&& match stage {
                Stage::Begin => true,
                Stage::AwaitMessage => jobs[f.job as int].message is Some && iter_set(
                    plan,
                    it as int,
                    f.data.iter,
                ),
                Stage::TplNext { .. } => iter_set(plan, it as int, f.data.iter),
                Stage::Tpl { t, .. } => jobs[f.job as int].templates matches Some(ts) && t
                    < ts@.len() && iter_set(plan, it as int, f.data.iter),
                Stage::StepNext { .. } => iter_set(plan, it as int, f.data.iter),
                Stage::StepCmd { s, .. } => s < jobs[f.job as int].steps->0@.len() && iter_set(
                    plan,
                    it as int,
                    f.data.iter,
                ),
                Stage::StepChild { s } => s < jobs[f.job as int].steps->0@.len() && iter_set(
                    plan,
                    it as int,
                    f.data.iter,
                ),
            }
        },
    }
}

/// The validated job set: unique names, and every job well-formed against the
/// set.
pub open spec fn jobs_valid(jobs: Seq<Job>) -> bool {
    &&& names_unique(jobs)
    &&& forall|i: int| 0 <= i < jobs.len() ==> job_ok(jobs, #[trigger] jobs[i])
}

/// The Runner is in charge of running all jobs.
pub struct Runner {
    /// Global environment variables.
    pub env: Bindings<String>,
    /// Global properties.
    pub props: Bindings<Value>,
    /// List of jobs to execute.
    pub jobs: Vec<Job>,
    /// Whether to execute the commands or just report them.
    pub dry_mode: bool,
    /// Global log output.
    pub log: LogOutput,
    /// Directory where the configuration is read from.
    pub config_dir: String,
    /// The run-once flag of every job, by job index.
    pub completed: Vec<bool>,
    /// The stack of job runs in flight; every frame but the last waits for a
    /// child.
    pub stack: Vec<Frame>,
    /// Top-level jobs still to run, in reverse order.
    pub queue: Vec<usize>,
    /// A finished frame's result, not yet delivered to its parent.
    pub pending: Option<bool>,
    /// Whether the active run was started for all jobs (failures between
    /// top-level jobs are then not escalated).
    pub all_jobs: bool,
}

impl Runner {
    /// The machine's invariant.
    pub open spec fn machine_ok(&self) -> bool {
        &&& self.completed@.len() == self.jobs@.len()
        &&& jobs_valid(self.jobs@)
        &&& forall|i: int| 0 <= i < self.queue@.len() ==> #[trigger] self.queue@[i] < self.jobs@.len()
        &&& forall|i: int|
            0 <= i < self.stack@.len() ==> frame_ok(
                self.jobs@,
                self.config_dir@,
                #[trigger] self.stack@[i],
            )
        &&& forall|i: int|
            0 <= i < self.stack@.len() - 1 ==> waiting(#[trigger] self.stack@[i].phase)
        &&& (self.pending is Some && self.stack@.len() > 0 ==> waiting(
            self.stack@.last().phase,
        ))
        &&& (self.pending is None && self.stack@.len() > 0 ==> !waiting(
            self.stack@.last().phase,
        ))
    }

    /// A run is in flight.
    pub open spec fn active(&self) -> bool {
        self.stack@.len() > 0 || self.queue@.len() > 0 || self.pending is Some
    }

    /// The machine is between runs.
    pub open spec fn idle(&self) -> bool {
        !self.active()
    }

    /// The event kind the machine expects next.
    pub open spec fn spec_expected(&self) -> EventKind {
        if self.pending is Some {
            EventKind::Ack
        } else if self.stack@.len() == 0 {
            EventKind::Ack
        } else {
            phase_expected(self.stack@.last().phase)
        }
    }

    /// The fixed part of the machine: everything but the flags, the stack and
    /// the queue.
    pub open spec fn same_setup(&self, other: &Runner) -> bool {
        &&& self.jobs == other.jobs
        &&& self.env.pairs@ == other.env.pairs@
        &&& self.props.pairs@ == other.props.pairs@
        &&& self.dry_mode == other.dry_mode
        &&& self.log == other.log
        &&& self.config_dir == other.config_dir
    }

    /// The event kind the machine expects next; the driver may use this to
    /// check its answer before handing it in.
    pub fn expected_event(&self) -> (k: EventKind)
        requires
            self.active(),
        ensures
            k == self.spec_expected(),
    {
        if self.pending.is_some() {
            EventKind::Ack
        } else if self.stack.len() == 0 {
            EventKind::Ack
        } else {
            let fr = &self.stack[self.stack.len() - 1];
            match &fr.phase {
                Phase::GateStart => EventKind::Ack,
                Phase::GateCmd { cmd, .. } => cmd_expected_exec(cmd),
                Phase::DepNext { .. } => EventKind::Ack,
                Phase::DepCmd { cmd, .. } => cmd_expected_exec(cmd),
                Phase::DepChild { .. } => EventKind::Ack,
                Phase::IterResolve => EventKind::Ack,
                Phase::AwaitIterFile { .. } => EventKind::IterValues,
                Phase::Iters { stage, .. } => match stage {
                    Stage::Begin => EventKind::Ack,
                    Stage::AwaitMessage => EventKind::Rendered,
                    Stage::TplNext { .. } => EventKind::Ack,
                    Stage::Tpl { tp, .. } => match tp {
                        TplPhase::AwaitIn { .. } => EventKind::Rendered,
                        TplPhase::AwaitOut { .. } => EventKind::Rendered,
                        TplPhase::AwaitText { .. } => EventKind::TextRead,
                        TplPhase::AwaitRendered { .. } => EventKind::Rendered,
                        TplPhase::AwaitWritten => EventKind::Written,
                    },
                    Stage::StepNext { .. } => EventKind::Ack,
                    Stage::StepCmd { cmd, .. } => cmd_expected_exec(cmd),
                    Stage::StepChild { .. } => EventKind::Ack,
                },
            }
        }
    }

    /// Create a new runner from a validated configuration.
    ///
    /// A healthcheck of the configuration must have succeeded before.
    pub fn from_config(config: Config, config_dir: String) -> (r: Runner)
        requires
            config_valid(&config),
        ensures
            r.machine_ok(),
            r.idle(),
            r.jobs == config.jobs,
            r.env.pairs@ == config.env.pairs@,
            r.props.pairs@ == config.props.pairs@,
            r.dry_mode == false,
            r.config_dir == config_dir,
            r.log == (match config.log {
                Some(l) => l,
                None => LogOutput::ToStdout(true),
            }),
            r.completed@.len() == config.jobs@.len(),
            forall|i: int| 0 <= i < r.completed@.len() ==> !(#[trigger] r.completed@[i]),
    {
        let log = match &config.log {
            Some(output) => output.clone(),
            None => LogOutput::ToStdout(true),
        };
        let n = config.jobs.len();
        let mut completed: Vec<bool> = Vec::new();
        let mut i: usize = 0;
        while i < n
            invariant
                i <= n,
                completed@.len() == i,
                forall|k: int| 0 <= k < i ==> !(#[trigger] completed@[k]),
            decreases n - i,
        {
            completed.push(false);
            i = i + 1;
        }
        Runner {
            env: config.env,
            props: config.props,
            jobs: config.jobs,
            dry_mode: false,
            log,
            config_dir,
            completed,
            stack: Vec::new(),
            queue: Vec::new(),
            pending: None,
            all_jobs: false,
        }
    }

    /// Get a job from a name; `None` if the job does not exist.
    pub fn get_job(&self, name: &str) -> (r: Option<&Job>)
        ensures
            r matches Some(j) ==> j.name@ == name@ && (exists|i: int|
                0 <= i < self.jobs@.len() && self.jobs@[i] == *j),
            r is None ==> !has_job(self.jobs@, name@),
    {
        match self.get_job_index(name) {
            Some(i) => Some(&self.jobs[i]),
            None => None,
        }
    }

    /// The index of the job with the given name.
    pub fn get_job_index(&self, name: &str) -> (r: Option<usize>)
        ensures
            r matches Some(i) ==> i < self.jobs@.len() && self.jobs@[i as int].name@ == name@,
            r is None ==> !has_job(self.jobs@, name@),
    {
        let mut i: usize = 0;
        while i < self.jobs.len()
            invariant
                i <= self.jobs@.len(),
                forall|k: int| 0 <= k < i ==> #[trigger] self.jobs@[k].name@ != name@,
            decreases self.jobs@.len() - i,
        {
            if str_eq(self.jobs[i].name.as_str(), name) {
                return Some(i);
            }
            i = i + 1;
        }
        None
    }

    /// A list of all available job names.
    pub fn get_job_names(&self) -> (r: Vec<String>)
        ensures
            r@.len() == self.jobs@.len(),
            forall|i: int| 0 <= i < r@.len() ==> (#[trigger] r@[i])@ == self.jobs@[i].name@,
    {
        let mut r: Vec<String> = Vec::new();
        let mut i: usize = 0;
        while i < self.jobs.len()
            invariant
                i <= self.jobs@.len(),
                r@.len() == i,
                forall|k: int| 0 <= k < i ==> (#[trigger] r@[k])@ == self.jobs@[k].name@,
            decreases self.jobs@.len() - i,
        {
            r.push(self.jobs[i].name.clone());
            i = i + 1;
        }
        r
    }

    /// Resolve a path; a path is treated as a template and rendered by the
    /// driver, so it passes through unchanged here.
    pub fn resolve_path<'a>(&'a self, path: &'a str) -> (r: &'a str)
        ensures
            r@ == path@,
    {
        path
    }

    /// Whether the run-once flag permits running job `j`: it does until the
    /// job has been attempted.
    pub fn should_run_flag(&self, j: usize) -> (b: bool)
        requires
            j < self.completed@.len(),
        ensures
            b == !self.completed@[j as int],
    {
        !self.completed[j]
    }
}

/// Once a job has been marked attempted, no later machine step unsets the
/// flag: within one engine run, the run-once gate refuses the job forever
/// after.
pub proof fn lemma_attempted_is_final(pre: Runner, post: Runner, j: int)
    requires
        post.advanced(pre),
        0 <= j < pre.completed@.len(),
        pre.completed@[j],
    ensures
        post.completed@[j],
{
}

/// In a single-run job, once the iteration has begun, no iteration value is
/// exposed in the template context.
pub proof fn lemma_single_run_no_iter(r: Runner, i: int)
    requires
        r.machine_ok(),
        0 <= i < r.stack@.len(),
        r.stack@[i].phase matches Phase::Iters { plan: IterPlan::Once, stage, .. },
        !(r.stack@[i].phase->stage matches Stage::Begin),
    ensures
        r.stack@[i].data.iter is None,
{
    assert(frame_ok(r.jobs@, r.config_dir@, r.stack@[i]));
}

/// The event kind a command in the given state expects.
fn cmd_expected_exec(cs: &CmdState) -> (k: EventKind)
    ensures
        k == cmd_expected(*cs),
{
    match cs {
        CmdState::AwaitBody => EventKind::Rendered,
        CmdState::AwaitLogPath { .. } => EventKind::Rendered,
        CmdState::AwaitExit => EventKind::CommandDone,
    }
}

/// The run-once flags only move from unset to set.
pub open spec fn completed_monotone(a: Seq<bool>, b: Seq<bool>) -> bool {
    a.len() == b.len() && forall|i: int| 0 <= i < a.len() ==> (a[i] ==> #[trigger] b[i])
}

/// The machine is consuming the failure of a spawned command step.
pub open spec fn step_failure_case(pre: Runner, ev: Event) -> bool {
    &&& pre.pending is None
    &&& pre.stack@.len() > 0
    &&& pre.stack@.last().phase matches Phase::Iters {
        stage: Stage::StepCmd { cmd: CmdState::AwaitExit, .. },
        ..
    }
    &&& ev == Event::CommandDone(false)
}

/// The machine is deciding, for a job without guard conditions, whether the
/// job runs.
pub open spec fn flag_gate_case(pre: Runner, ev: Event) -> bool {
    &&& pre.pending is None
    &&& pre.stack@.len() > 0
    &&& pre.stack@.last().phase matches Phase::GateStart
    &&& pre.jobs@[pre.stack@.last().job as int].when is None
}

/// A job without guard conditions is skipped once it has been attempted: its
/// frame leaves the stack at the decision and the caller is told the run
/// succeeded, with nothing executed and no flag changed.
pub open spec fn gate_skips_attempted(pre: Runner, ev: Event, post: Runner) -> bool {
    (flag_gate_case(pre, ev) && pre.completed@[pre.stack@.last().job as int]) ==> {
        &&& post.stack@ == pre.stack@.drop_last()
        &&& post.pending == Some(true)
        &&& post.completed@ == pre.completed@
    }
}

/// A job without guard conditions runs while it has not been attempted: the
/// decision moves the run on to the job's dependencies.
pub open spec fn gate_admits_unattempted(pre: Runner, ev: Event, post: Runner) -> bool {
    (flag_gate_case(pre, ev) && !pre.completed@[pre.stack@.last().job as int]) ==> {
        &&& post.stack@ == pre.stack@.drop_last().push(
            Frame {
                job: pre.stack@.last().job,
                data: pre.stack@.last().data,
                phase: Phase::DepNext { idx: 0 },
                last_ok: pre.stack@.last().last_ok,
            },
        )
        &&& post.pending is None
        &&& post.completed@ == pre.completed@
    }
}

/// A frame whose command is waiting for the render of its body.
pub open spec fn awaiting_body(p: Phase) -> bool {
    ||| p matches Phase::GateCmd { cmd: CmdState::AwaitBody, .. }
    ||| p matches Phase::DepCmd { cmd: CmdState::AwaitBody, .. }
    ||| p matches Phase::Iters { stage: Stage::StepCmd { cmd: CmdState::AwaitBody, .. }, .. }
}

/// In dry mode a successfully rendered command body is reported instead of
/// spawned.
pub open spec fn dry_run_reports(pre: Runner, ev: Event, r: Action) -> bool {
    (pre.pending is None && pre.stack@.len() > 0 && pre.dry_mode && awaiting_body(
        pre.stack@.last().phase,
    )) ==> match ev {
        Event::Rendered(res) => match res {
            Ok(body) => r.notes@.contains(Notice::DryRun { body }),
            Err(_) => true,
        },
        _ => true,
    }
}

/// A job with guard conditions always evaluates them — the run-once flag is
/// not consulted: the first condition's command is started, and a job with
/// an empty condition list runs.
pub open spec fn gate_guards_start(pre: Runner, ev: Event, post: Runner, r: Action) -> bool {
    (pre.pending is None && pre.stack@.len() > 0 && pre.jobs@[pre.stack@.last().job as int].when
        is Some && pre.stack@.last().phase matches Phase::GateStart) ==> ({
        let f = pre.stack@.last();
        let conds = pre.jobs@[f.job as int].when->0;
        &&& post.completed@ == pre.completed@
        &&& post.pending is None
        &&& keeps_top_except_phase(pre, post)
        &&& if conds@.len() == 0 {
            post.stack@.last().phase == (Phase::DepNext { idx: 0 })
        } else {
            &&& post.stack@.last().phase == (Phase::GateCmd {
                idx: 0,
                all_ok: true,
                cmd: CmdState::AwaitBody,
            })
            &&& (r.op matches Op::Render { template, data } && template@ == conds@[0]@
                && same_context(data, f.data))
        }
    })
}

/// Guard conditions run as commands, every one of them, in declared order;
/// the job runs exactly when all of them succeeded, and is otherwise skipped
/// with a successful result and an untouched flag.
pub open spec fn gate_conditions_chain(pre: Runner, ev: Event, post: Runner, r: Action) -> bool {
    (pre.pending is None && pre.stack@.len() > 0 && pre.stack@.last().phase matches Phase::GateCmd {
        ..
    }) ==> ({
        let f = pre.stack@.last();
        let job = pre.jobs@[f.job as int];
        let conds = job.when->0;
        match f.phase {
            Phase::GateCmd { idx, all_ok, cmd } => match cmd_finish(cmd, ev, pre.dry_mode) {
                None => {
                    &&& keeps_top_except_phase(pre, post)
                    &&& post.stack@.last().phase == (Phase::GateCmd {
                        idx,
                        all_ok,
                        cmd: cmd_next_state(cmd, ev, job.log, pre.log),
                    })
                    &&& cmd_op_ok(cmd, ev, f.data, job.log, pre.log, r.op)
                    &&& post.completed@ == pre.completed@
                    &&& post.pending is None
                },
                Some(ok) => {
                    let all2 = all_ok && ok;
                    if idx + 1 < conds@.len() {
                        &&& keeps_top_except_phase(pre, post)
                        &&& post.stack@.last().phase == (Phase::GateCmd {
                            idx: (idx + 1) as usize,
                            all_ok: all2,
                            cmd: CmdState::AwaitBody,
                        })
                        &&& (r.op matches Op::Render { template, data } && template@ == conds@[idx
                            + 1]@ && same_context(data, f.data))
                        &&& post.completed@ == pre.completed@
                        &&& post.pending is None
                    } else if all2 {
                        &&& keeps_top_except_phase(pre, post)
                        &&& post.stack@.last().phase == (Phase::DepNext { idx: 0 })
                        &&& post.completed@ == pre.completed@
                        &&& post.pending is None
                    } else {
                        &&& post.stack@ == pre.stack@.drop_last()
                        &&& post.pending == Some(true)
                        &&& post.completed@ == pre.completed@
                    }
                },
            },
            _ => true,
        }
    })
}

/// Dependencies run before the job's own iterations, in declared order: an
/// exhausted list moves on to the iteration policy, and a command
/// dependency's command is started against the job's context.
pub open spec fn dep_chain_advances(pre: Runner, ev: Event, post: Runner, r: Action) -> bool {
    (pre.pending is None && pre.stack@.len() > 0 && pre.stack@.last().phase matches Phase::DepNext {
        ..
    }) ==> ({
        let f = pre.stack@.last();
        let job = pre.jobs@[f.job as int];
        match f.phase {
            Phase::DepNext { idx } => {
                if job.depends is Some && idx < job.depends->0@.len() {
                    match job.depends->0@[idx as int] {
                        Step::Command(c) => {
                            &&& keeps_top_except_phase(pre, post)
                            &&& post.stack@.last().phase == (Phase::DepCmd {
                                idx,
                                cmd: CmdState::AwaitBody,
                            })
                            &&& (r.op matches Op::Render { template, data } && template@ == c@
                                && same_context(data, f.data))
                            &&& post.completed@ == pre.completed@
                            &&& post.pending is None
                        },
                        Step::Job { .. } => true,
                    }
                } else {
                    &&& keeps_top_except_phase(pre, post)
                    &&& post.stack@.last().phase == (Phase::IterResolve)
                    &&& post.completed@ == pre.completed@
                    &&& post.pending is None
                }
            },
            _ => true,
        }
    })
}

/// A command dependency's outcome is observed but never aborts the job: the
/// run moves to the next dependency whatever the outcome was.
pub open spec fn dep_command_observed(pre: Runner, ev: Event, post: Runner, r: Action) -> bool {
    (pre.pending is None && pre.stack@.len() > 0 && pre.stack@.last().phase matches Phase::DepCmd {
        ..
    }) ==> ({
        let f = pre.stack@.last();
        let job = pre.jobs@[f.job as int];
        match f.phase {
            Phase::DepCmd { idx, cmd } => match cmd_finish(cmd, ev, pre.dry_mode) {
                None => {
                    &&& keeps_top_except_phase(pre, post)
                    &&& post.stack@.last().phase == (Phase::DepCmd {
                        idx,
                        cmd: cmd_next_state(cmd, ev, job.log, pre.log),
                    })
                    &&& cmd_op_ok(cmd, ev, f.data, job.log, pre.log, r.op)
                    &&& post.completed@ == pre.completed@
                    &&& post.pending is None
                },
                Some(_) => {
                    &&& keeps_top_except_phase(pre, post)
                    &&& post.stack@.last().phase == (Phase::DepNext { idx: (idx + 1) as usize })
                    &&& post.completed@ == pre.completed@
                    &&& post.pending is None
                },
            },
            _ => true,
        }
    })
}

/// Whether the iteration plan is exhausted at counter `it`: after the single
/// run, past the last listed value, and never for an infinite loop.
pub open spec fn iter_done(plan: IterPlan, it: int) -> bool {
    match plan {
        IterPlan::Once => it >= 1,
        IterPlan::Infinite => false,
        IterPlan::Values(vs) => it >= vs@.len(),
        IterPlan::FromFile(_) => true,
    }
}

/// When the iteration plan is exhausted, the job ends: it is marked
/// attempted, its frame leaves the stack, and the outcome of its last
/// evaluated unit is handed to the caller.  In particular a single-run job
/// runs exactly one iteration, and an infinite loop never ends this way.
pub open spec fn iterations_end(pre: Runner, ev: Event, post: Runner) -> bool {
    (pre.pending is None && pre.stack@.len() > 0 && (match pre.stack@.last().phase {
        Phase::Iters { plan, it, stage: Stage::Begin } => iter_done(plan, it as int),
        _ => false,
    })) ==> {
        &&& post.stack@ == pre.stack@.drop_last()
        &&& post.completed@ == pre.completed@.update(pre.stack@.last().job as int, true)
        &&& post.pending == Some(pre.stack@.last().last_ok)
    }
}

/// A dependency job's failure aborts the parent before its own steps, and a
/// dependency job's success moves the parent to its next dependency.
pub open spec fn dep_result_propagates(pre: Runner, ev: Event, post: Runner) -> bool {
    (pre.pending matches Some(b) && pre.stack@.len() > 0 && pre.stack@.last().phase matches
    Phase::DepChild { .. }) ==> {
        match (pre.pending, pre.stack@.last().phase) {
            (Some(b), Phase::DepChild { idx }) => {
                if !b {
                    &&& post.stack@ == pre.stack@.drop_last()
                    &&& post.pending == Some(false)
                    &&& post.completed@ == pre.completed@
                } else {
                    &&& post.stack@ == pre.stack@.drop_last().push(
                        Frame {
                            job: pre.stack@.last().job,
                            data: pre.stack@.last().data,
                            phase: Phase::DepNext { idx: (idx + 1) as usize },
                            last_ok: pre.stack@.last().last_ok,
                        },
                    )
                    &&& post.pending is None
                    &&& post.completed@ == pre.completed@
                }
            },
            _ => true,
        }
    }
}

/// Everything of the top frame but its phase is kept: same depth, same
/// frames underneath, same job, context and recorded outcome.
pub open spec fn keeps_top_except_phase(pre: Runner, post: Runner) -> bool {
    &&& post.stack@.len() == pre.stack@.len()
    &&& post.stack@.drop_last() == pre.stack@.drop_last()
    &&& post.stack@.last().job == pre.stack@.last().job
    &&& post.stack@.last().data == pre.stack@.last().data
    &&& post.stack@.last().last_ok == pre.stack@.last().last_ok
}

/// With no frame on the stack and jobs still queued, the next queued job is
/// dequeued and begun — whatever result the job before it delivered, so a
/// failure never stops a run over all jobs.  The new frame starts at the
/// gate with the global bindings and the job's own merged on top.
pub open spec fn queue_starts_job(pre: Runner, ev: Event, post: Runner) -> bool {
    (pre.stack@.len() == 0 && pre.queue@.len() > 0) ==> ({
        let q = pre.queue@.last();
        &&& post.queue@ == pre.queue@.drop_last()
        &&& post.stack@.len() == 1
        &&& post.stack@.last().job == q
        &&& post.stack@.last().phase == Phase::GateStart
        &&& post.stack@.last().last_ok == true
        &&& post.stack@.last().data.env.pairs@ == pre.env.pairs@ + pre.jobs@[q as int].env.pairs@
        &&& post.stack@.last().data.props.pairs@ == pre.props.pairs@
            + pre.jobs@[q as int].props.pairs@
        &&& post.stack@.last().data.iter is None
        &&& post.completed@ == pre.completed@
        &&& post.pending is None
    })
}

/// With nothing on the stack and nothing queued, a delivered result ends the
/// run: a singly-started run reports that result, a run over all jobs
/// reports success, and the machine is idle again.
pub open spec fn run_done(pre: Runner, ev: Event, post: Runner, r: Action) -> bool {
    (pre.pending is Some && pre.stack@.len() == 0 && pre.queue@.len() == 0) ==> ({
        &&& r.op == (Op::Done {
            ok: if pre.all_jobs {
                true
            } else {
                pre.pending->0
            },
        })
        &&& post.idle()
        &&& post.completed@ == pre.completed@
    })
}

/// Resolving the iteration policy: a job without steps concludes attempted
/// and successful at once; otherwise the plan is exactly what
/// [`Job::resolve_iters`] gives for the declared policy, a file-backed
/// policy asks the driver for the declared file, and the iterations start at
/// counter zero.
pub open spec fn iter_resolve_steps(pre: Runner, ev: Event, post: Runner, r: Action) -> bool {
    (pre.pending is None && pre.stack@.len() > 0 && pre.stack@.last().phase matches
    Phase::IterResolve) ==> ({
        let f = pre.stack@.last();
        let job = pre.jobs@[f.job as int];
        if job.steps is None {
            &&& post.stack@ == pre.stack@.drop_last()
            &&& post.completed@ == pre.completed@.update(f.job as int, true)
            &&& post.pending == Some(true)
        } else {
            &&& post.completed@ == pre.completed@
            &&& post.pending is None
            &&& keeps_top_except_phase(pre, post)
            &&& match job.iters {
                Iteration::Loop(l) => post.stack@.last().phase == (Phase::Iters {
                    plan: if l {
                        IterPlan::Infinite
                    } else {
                        IterPlan::Once
                    },
                    it: 0,
                    stage: Stage::Begin,
                }),
                Iteration::Values(v) => match post.stack@.last().phase {
                    Phase::Iters { plan, it, stage } => plan matches IterPlan::Values(w) && w@
                        == v@ && it == 0 && stage == Stage::Begin,
                    _ => false,
                },
                Iteration::Range { from, to, by } => ({
                    let start = (if from is Some { from->0 as int } else { 0 });
                    let step = (if by is Some { by->0 as int } else { 1 });
                    match post.stack@.last().phase {
                        Phase::Iters { plan, it, stage } => plan matches IterPlan::Values(w) && w@
                            == range_value_seq(start, to as int, step) && it == 0 && stage
                            == Stage::Begin,
                        _ => false,
                    }
                }),
                Iteration::File(p) => (match post.stack@.last().phase {
                    Phase::AwaitIterFile { path } => path@ == p@,
                    _ => false,
                }) && (r.op matches Op::ReadIters { path: p2 } && p2@ == p@),
            }
        }
    })
}

/// The driver's answer for an iteration file: the loaded values become the
/// plan, starting at counter zero; a load fault fails the job without
/// marking it attempted.
pub open spec fn iter_file_loaded(pre: Runner, ev: Event, post: Runner) -> bool {
    (pre.pending is None && pre.stack@.len() > 0 && pre.stack@.last().phase matches
    Phase::AwaitIterFile { .. }) ==> match ev {
        Event::IterValues(res) => match res {
            Ok(vals) => {
                &&& keeps_top_except_phase(pre, post)
                &&& post.stack@.last().phase == (Phase::Iters {
                    plan: IterPlan::Values(vals),
                    it: 0,
                    stage: Stage::Begin,
                })
                &&& post.completed@ == pre.completed@
                &&& post.pending is None
            },
            Err(_) => {
                &&& post.stack@ == pre.stack@.drop_last()
                &&& post.pending == Some(false)
                &&& post.completed@ == pre.completed@
            },
        },
        _ => true,
    }
}

/// The bindings a job reference hands its child: the caller's own, with the
/// declared overrides appended (so the overrides win).
pub open spec fn with_overrides<V>(base: Seq<(String, V)>, over: Option<Bindings<V>>) -> Seq<
    (String, V),
> {
    match over {
        Some(b) => base + b.pairs@,
        None => base,
    }
}

/// A job-reference step starts a child run of exactly the referenced job,
/// under the caller's context with the declared overrides merged on top; the
/// caller waits for the child's result.
pub open spec fn jobref_step_spawns_child(pre: Runner, ev: Event, post: Runner) -> bool {
    (pre.pending is None && pre.stack@.len() > 0 && (match pre.stack@.last().phase {
        Phase::Iters { stage: Stage::StepNext { s }, .. } => s
            < pre.jobs@[pre.stack@.last().job as int].steps->0@.len()
            && pre.jobs@[pre.stack@.last().job as int].steps->0@[s as int] matches Step::Job { .. },
        _ => false,
    })) ==> {
        match pre.stack@.last().phase {
            Phase::Iters { plan, it, stage: Stage::StepNext { s } } => {
                match pre.jobs@[pre.stack@.last().job as int].steps->0@[s as int] {
                    Step::Job { job: target, props, env } => {
                        &&& post.stack@.len() == pre.stack@.len() + 1
                        &&& post.stack@.last().phase == Phase::GateStart
                        &&& post.jobs@[post.stack@.last().job as int].name@ == target@
                        &&& post.stack@[post.stack@.len() - 2].phase == (Phase::Iters {
                            plan,
                            it,
                            stage: Stage::StepChild { s },
                        })
                        &&& post.stack@.last().data.env.pairs@ == with_overrides(
                            pre.stack@.last().data.env.pairs@,
                            env,
                        )
                        &&& post.stack@.last().data.props.pairs@ == with_overrides(
                            pre.stack@.last().data.props.pairs@,
                            props,
                        )
                        &&& post.completed@ == pre.completed@
                    },
                    _ => true,
                }
            },
            _ => true,
        }
    }
}

/// A job-reference dependency starts a child run of exactly the referenced
/// job, under the caller's context with the declared overrides merged on
/// top; the caller waits for the child's result.
pub open spec fn jobref_dep_spawns_child(pre: Runner, ev: Event, post: Runner) -> bool {
    (pre.pending is None && pre.stack@.len() > 0 && (match pre.stack@.last().phase {
        Phase::DepNext { idx } => pre.jobs@[pre.stack@.last().job as int].depends matches Some(d)
            && idx < d@.len() && d@[idx as int] matches Step::Job { .. },
        _ => false,
    })) ==> {
        match pre.stack@.last().phase {
            Phase::DepNext { idx } => {
                match pre.jobs@[pre.stack@.last().job as int].depends->0@[idx as int] {
                    Step::Job { job: target, props, env } => {
                        &&& post.stack@.len() == pre.stack@.len() + 1
                        &&& post.stack@.last().phase == Phase::GateStart
                        &&& post.jobs@[post.stack@.last().job as int].name@ == target@
                        &&& post.stack@[post.stack@.len() - 2].phase == (Phase::DepChild { idx })
                        &&& post.stack@.last().data.env.pairs@ == with_overrides(
                            pre.stack@.last().data.env.pairs@,
                            env,
                        )
                        &&& post.stack@.last().data.props.pairs@ == with_overrides(
                            pre.stack@.last().data.props.pairs@,
                            props,
                        )
                        &&& post.completed@ == pre.completed@
                    },
                    _ => true,
                }
            },
            _ => true,
        }
    }
}

/// The iteration value the context receives at counter `it`: none for a
/// single run, the counter for an infinite loop, the listed element for a
/// value list.
pub open spec fn iter_value_at(plan: IterPlan, it: int) -> Option<Value> {
    match plan {
        IterPlan::Once => None,
        IterPlan::Infinite => Some(counter_value(it)),
        IterPlan::Values(vs) => Some(vs@[it]),
        IterPlan::FromFile(_) => None,
    }
}

/// The context after the per-iteration refresh: the iteration value for
/// counter `it`, the job's directory when it declares one, everything else
/// kept.
pub open spec fn refreshed_data(
    pre_data: TemplateData,
    job: Job,
    plan: IterPlan,
    it: int,
) -> TemplateData {
    TemplateData {
        dir: match job.dir {
            Some(d) => Some(d),
            None => pre_data.dir,
        },
        iter: iter_value_at(plan, it),
        ..pre_data
    }
}

/// Beginning an iteration that still has work: the context is refreshed,
/// then the message is rendered against it when one is declared, else the
/// template transforms start.  The frame stays, so in particular an
/// infinite plan is never concluded here.
pub open spec fn begin_iteration(pre: Runner, ev: Event, post: Runner, r: Action) -> bool {
    (pre.pending is None && pre.stack@.len() > 0 && pre.stack@.last().phase matches Phase::Iters {
        stage: Stage::Begin,
        ..
    }) ==> ({
        let f = pre.stack@.last();
        let job = pre.jobs@[f.job as int];
        match f.phase {
            Phase::Iters { plan, it, stage: Stage::Begin } => if iter_done(plan, it as int) {
                true  // covered by `iterations_end`
            } else {
                let d2 = refreshed_data(f.data, job, plan, it as int);
                &&& post.completed@ == pre.completed@
                &&& post.pending is None
                &&& post.stack@ == pre.stack@.drop_last().push(
                    Frame {
                        job: f.job,
                        data: d2,
                        phase: Phase::Iters {
                            plan,
                            it,
                            stage: if job.message is Some {
                                Stage::AwaitMessage
                            } else {
                                Stage::TplNext { t: 0 }
                            },
                        },
                        last_ok: f.last_ok,
                    },
                )
                &&& (job.message matches Some(m) ==> (r.op matches Op::Render { template, data }
                    && template@ == m@ && same_context(data, d2)))
            },
            _ => true,
        }
    })
}

/// How a failed unit (message, transform or step) of the current iteration
/// concludes: under `ignore_errors` the run continues at `cont` with the
/// failure recorded, otherwise the job is marked attempted and the failure
/// propagates.
pub open spec fn unit_fail_post(pre: Runner, post: Runner, cont: Stage) -> bool {
    let f = pre.stack@.last();
    let job = pre.jobs@[f.job as int];
    match f.phase {
        Phase::Iters { plan, it, .. } => if job.ignore_errors {
            &&& post.stack@ == pre.stack@.drop_last().push(
                Frame {
                    job: f.job,
                    data: f.data,
                    phase: Phase::Iters { plan, it, stage: cont },
                    last_ok: false,
                },
            )
            &&& post.completed@ == pre.completed@
            &&& post.pending is None
        } else {
            &&& post.stack@ == pre.stack@.drop_last()
            &&& post.completed@ == pre.completed@.update(f.job as int, true)
            &&& post.pending == Some(false)
        },
        _ => false,
    }
}

/// The rendered message is reported and the template transforms start; a
/// message render failure counts as a failed unit.
pub open spec fn message_emitted(pre: Runner, ev: Event, post: Runner, r: Action) -> bool {
    (pre.pending is None && pre.stack@.len() > 0 && pre.stack@.last().phase matches Phase::Iters {
        stage: Stage::AwaitMessage,
        ..
    }) ==> ({
        let f = pre.stack@.last();
        match ev {
            Event::Rendered(res) => match res {
                Ok(text) => match f.phase {
                    Phase::Iters { plan, it, .. } => {
                        &&& post.stack@ == pre.stack@.drop_last().push(
                            Frame {
                                job: f.job,
                                data: f.data,
                                phase: Phase::Iters { plan, it, stage: Stage::TplNext { t: 0 } },
                                last_ok: f.last_ok,
                            },
                        )
                        &&& post.completed@ == pre.completed@
                        &&& post.pending is None
                        &&& r.notes@.contains(Notice::Message { text })
                    },
                    _ => false,
                },
                Err(_) => unit_fail_post(pre, post, Stage::TplNext { t: 0 }),
            },
            _ => true,
        }
    })
}

/// The next template transform starts — its input-path render is emitted and
/// the output-path template is held — or, with none left, the steps start.
pub open spec fn transform_next(pre: Runner, ev: Event, post: Runner, r: Action) -> bool {
    (pre.pending is None && pre.stack@.len() > 0 && pre.stack@.last().phase matches Phase::Iters {
        stage: Stage::TplNext { .. },
        ..
    }) ==> ({
        let f = pre.stack@.last();
        let job = pre.jobs@[f.job as int];
        match f.phase {
            Phase::Iters { plan, it, stage: Stage::TplNext { t } } => if job.templates is Some && t
                < job.templates->0@.len() {
                let segs = nonempty_segments(job.templates->0@[t as int]@);
                &&& post.completed@ == pre.completed@
                &&& post.pending is None
                &&& keeps_top_except_phase(pre, post)
                &&& (match post.stack@.last().phase {
                    Phase::Iters {
                        plan: p2,
                        it: i2,
                        stage: Stage::Tpl { t: t2, tp: TplPhase::AwaitIn { out_template } },
                    } => p2 == plan && i2 == it && t2 == t && out_template@ == segs[1],
                    _ => false,
                })
                &&& (r.op matches Op::Render { template, data } && template@ == segs[0]
                    && same_context(data, f.data))
            } else {
                &&& keeps_top_except_phase(pre, post)
                &&& post.stack@.last().phase == (Phase::Iters {
                    plan,
                    it,
                    stage: Stage::StepNext { s: 0 },
                })
                &&& post.completed@ == pre.completed@
                &&& post.pending is None
            },
            _ => true,
        }
    })
}

/// One template transform advances: input path, output path, input text,
/// rendered contents, write — each operation carrying exactly the previous
/// answers — and any failure counts as a failed unit of the iteration.
pub open spec fn transform_advances(pre: Runner, ev: Event, post: Runner, r: Action) -> bool {
    (pre.pending is None && pre.stack@.len() > 0 && pre.stack@.last().phase matches Phase::Iters {
        stage: Stage::Tpl { .. },
        ..
    }) ==> ({
        let f = pre.stack@.last();
        match f.phase {
            Phase::Iters { plan, it, stage: Stage::Tpl { t, tp } } => {
                let cont = Stage::TplNext { t: (t + 1) as usize };
                match tp {
                    TplPhase::AwaitIn { out_template } => match ev {
                        Event::Rendered(res) => match res {
                            Ok(input) => {
                                &&& top_stage_becomes(
                                    pre,
                                    post,
                                    Stage::Tpl { t, tp: TplPhase::AwaitOut { input } },
                                )
                                &&& (r.op matches Op::Render { template, data } && template
                                    == out_template && same_context(data, f.data))
                                &&& post.completed@ == pre.completed@
                                &&& post.pending is None
                            },
                            Err(_) => unit_fail_post(pre, post, cont),
                        },
                        _ => true,
                    },
                    TplPhase::AwaitOut { input } => match ev {
                        Event::Rendered(res) => match res {
                            Ok(output) => {
                                &&& top_stage_becomes(
                                    pre,
                                    post,
                                    Stage::Tpl { t, tp: TplPhase::AwaitText { output } },
                                )
                                &&& (r.op matches Op::ReadText { path } && path == input)
                                &&& post.completed@ == pre.completed@
                                &&& post.pending is None
                            },
                            Err(_) => unit_fail_post(pre, post, cont),
                        },
                        _ => true,
                    },
                    TplPhase::AwaitText { output } => match ev {
                        Event::TextRead(res) => match res {
                            Ok(content) => {
                                &&& top_stage_becomes(
                                    pre,
                                    post,
                                    Stage::Tpl { t, tp: TplPhase::AwaitRendered { output } },
                                )
                                &&& (r.op matches Op::Render { template, data } && template
                                    == content && same_context(data, f.data))
                                &&& post.completed@ == pre.completed@
                                &&& post.pending is None
                            },
                            Err(_) => unit_fail_post(pre, post, cont),
                        },
                        _ => true,
                    },
                    TplPhase::AwaitRendered { output } => match ev {
                        Event::Rendered(res) => match res {
                            Ok(text) => {
                                &&& top_stage_becomes(
                                    pre,
                                    post,
                                    Stage::Tpl { t, tp: TplPhase::AwaitWritten },
                                )
                                &&& (r.op matches Op::WriteText { path, content } && path == output
                                    && content == text)
                                &&& post.completed@ == pre.completed@
                                &&& post.pending is None
                            },
                            Err(_) => unit_fail_post(pre, post, cont),
                        },
                        _ => true,
                    },
                    TplPhase::AwaitWritten => match ev {
                        Event::Written(okw) => if okw {
                            &&& post.stack@ == pre.stack@.drop_last().push(
                                Frame {
                                    job: f.job,
                                    data: f.data,
                                    phase: Phase::Iters { plan, it, stage: cont },
                                    last_ok: true,
                                },
                            )
                            &&& post.completed@ == pre.completed@
                            &&& post.pending is None
                        } else {
                            unit_fail_post(pre, post, cont)
                        },
                        _ => true,
                    },
                }
            },
            _ => true,
        }
    })
}

/// The top frame of `post` is the top frame of `pre` at the same iteration,
/// moved to stage `st`.
pub open spec fn top_stage_becomes(pre: Runner, post: Runner, st: Stage) -> bool {
    let f = pre.stack@.last();
    match f.phase {
        Phase::Iters { plan, it, .. } => post.stack@ == pre.stack@.drop_last().push(
            Frame {
                job: f.job,
                data: f.data,
                phase: Phase::Iters { plan, it, stage: st },
                last_ok: f.last_ok,
            },
        ),
        _ => false,
    }
}

/// The next step starts — a command step's render is emitted against the
/// job's context — or, with none left, the iteration concludes and the
/// counter advances by one (saturating at the machine's bound).
pub open spec fn step_chain_advances(pre: Runner, ev: Event, post: Runner, r: Action) -> bool {
    (pre.pending is None && pre.stack@.len() > 0 && pre.stack@.last().phase matches Phase::Iters {
        stage: Stage::StepNext { .. },
        ..
    }) ==> ({
        let f = pre.stack@.last();
        let job = pre.jobs@[f.job as int];
        match f.phase {
            Phase::Iters { plan, it, stage: Stage::StepNext { s } } => if s
                >= job.steps->0@.len() {
                let it2 = if it < usize::MAX {
                    (it + 1) as usize
                } else {
                    it
                };
                &&& post.stack@ == pre.stack@.drop_last().push(
                    Frame {
                        job: f.job,
                        data: f.data,
                        phase: Phase::Iters { plan, it: it2, stage: Stage::Begin },
                        last_ok: f.last_ok,
                    },
                )
                &&& post.completed@ == pre.completed@
                &&& post.pending is None
            } else {
                match job.steps->0@[s as int] {
                    Step::Command(c) => {
                        &&& top_stage_becomes(
                            pre,
                            post,
                            Stage::StepCmd { s, cmd: CmdState::AwaitBody },
                        )
                        &&& (r.op matches Op::Render { template, data } && template@ == c@
                            && same_context(data, f.data))
                        &&& post.completed@ == pre.completed@
                        &&& post.pending is None
                    },
                    Step::Job { .. } => true,
                }
            },
            _ => true,
        }
    })
}

/// How a step's outcome concludes: success moves to the next step with the
/// outcome recorded; failure follows the error policy.
pub open spec fn step_outcome_post(pre: Runner, post: Runner, s: usize, ok: bool) -> bool {
    let f = pre.stack@.last();
    match f.phase {
        Phase::Iters { plan, it, .. } => if ok {
            &&& post.stack@ == pre.stack@.drop_last().push(
                Frame {
                    job: f.job,
                    data: f.data,
                    phase: Phase::Iters {
                        plan,
                        it,
                        stage: Stage::StepNext { s: (s + 1) as usize },
                    },
                    last_ok: true,
                },
            )
            &&& post.completed@ == pre.completed@
            &&& post.pending is None
        } else {
            unit_fail_post(pre, post, Stage::StepNext { s: (s + 1) as usize })
        },
        _ => false,
    }
}

/// A command step advances through its render, log and spawn operations,
/// and its settled outcome is consumed as a step outcome — a render failure
/// included.
pub open spec fn step_command_advances(pre: Runner, ev: Event, post: Runner, r: Action) -> bool {
    (pre.pending is None && pre.stack@.len() > 0 && pre.stack@.last().phase matches Phase::Iters {
        stage: Stage::StepCmd { .. },
        ..
    }) ==> ({
        let f = pre.stack@.last();
        let job = pre.jobs@[f.job as int];
        match f.phase {
            Phase::Iters { plan, it, stage: Stage::StepCmd { s, cmd } } => match cmd_finish(
                cmd,
                ev,
                pre.dry_mode,
            ) {
                None => {
                    &&& keeps_top_except_phase(pre, post)
                    &&& post.stack@.last().phase == (Phase::Iters {
                        plan,
                        it,
                        stage: Stage::StepCmd {
                            s,
                            cmd: cmd_next_state(cmd, ev, job.log, pre.log),
                        },
                    })
                    &&& cmd_op_ok(cmd, ev, f.data, job.log, pre.log, r.op)
                    &&& post.completed@ == pre.completed@
                    &&& post.pending is None
                },
                Some(ok) => step_outcome_post(pre, post, s, ok),
            },
            _ => true,
        }
    })
}

/// A job-reference step's delivered result is consumed exactly as a step
/// outcome.
pub open spec fn child_step_result(pre: Runner, ev: Event, post: Runner) -> bool {
    (pre.pending is Some && pre.stack@.len() > 0 && pre.stack@.last().phase matches Phase::Iters {
        stage: Stage::StepChild { .. },
        ..
    }) ==> ({
        match pre.stack@.last().phase {
            Phase::Iters { stage: Stage::StepChild { s }, .. } => step_outcome_post(
                pre,
                post,
                s,
                pre.pending->0,
            ),
            _ => true,
        }
    })
}

/// With errors respected, a failing step ends its job at once: the job is
/// marked attempted, its frame leaves the stack (so neither the remaining
/// steps of the iteration nor the remaining iterations run), and the failure
/// is handed to the caller.
pub open spec fn step_fail_aborts(pre: Runner, ev: Event, post: Runner) -> bool {
    (step_failure_case(pre, ev) && !pre.jobs@[pre.stack@.last().job as int].ignore_errors) ==> {
        &&& post.completed@ == pre.completed@.update(pre.stack@.last().job as int, true)
        &&& post.stack@ == pre.stack@.drop_last()
        &&& post.pending == Some(false)
    }
}

/// With errors ignored, a failing step leaves the job running: its frame
/// stays, the run continues at the following step, and only the recorded
/// outcome of the last evaluated unit turns false.
pub open spec fn step_fail_continues(pre: Runner, ev: Event, post: Runner) -> bool {
    (step_failure_case(pre, ev) && pre.jobs@[pre.stack@.last().job as int].ignore_errors) ==> {
        match pre.stack@.last().phase {
            Phase::Iters { plan, it, stage: Stage::StepCmd { s, .. } } => {
                &&& post.stack@ == pre.stack@.drop_last().push(
                    Frame {
                        job: pre.stack@.last().job,
                        data: pre.stack@.last().data,
                        phase: Phase::Iters {
                            plan,
                            it,
                            stage: Stage::StepNext { s: (s + 1) as usize },
                        },
                        last_ok: false,
                    },
                )
                &&& post.completed@ == pre.completed@
                &&& post.pending is None
            },
            _ => true,
        }
    }
}

/// The log output a command uses: the job's own where one is declared, the
/// engine-global output otherwise.
pub open spec fn effective_log(job_log: Option<LogOutput>, global_log: LogOutput) -> LogOutput {
    match job_log {
        Some(l) => l,
        None => global_log,
    }
}

/// The outcome of one command event, where the event settles the command:
/// a render failure fails the command, a successful render under dry mode
/// succeeds it without a spawn, and the exit status decides it otherwise.
pub open spec fn cmd_finish(cs: CmdState, ev: Event, dry: bool) -> Option<bool> {
    match (cs, ev) {
        (CmdState::AwaitBody, Event::Rendered(res)) => match res {
            Ok(_) => if dry {
                Some(true)
            } else {
                None
            },
            Err(_) => Some(false),
        },
        (CmdState::AwaitLogPath { .. }, Event::Rendered(res)) => if dry {
            Some(true)
        } else {
            match res {
                Ok(_) => None,
                Err(_) => Some(false),
            }
        },
        (CmdState::AwaitExit, Event::CommandDone(b)) => Some(b),
        _ => None,
    }
}

/// The command state after an event that does not settle the command: a
/// rendered body waits for the log path when the effective log is a file,
/// and for the exit status otherwise.
pub open spec fn cmd_next_state(
    cs: CmdState,
    ev: Event,
    job_log: Option<LogOutput>,
    global_log: LogOutput,
) -> CmdState {
    match (cs, ev) {
        (CmdState::AwaitBody, Event::Rendered(res)) => match res {
            Ok(body) => match effective_log(job_log, global_log) {
                LogOutput::Filepath(_) => CmdState::AwaitLogPath { body },
                LogOutput::ToStdout(_) => CmdState::AwaitExit,
            },
            Err(_) => cs,
        },
        _ => CmdState::AwaitExit,
    }
}

/// The operation emitted while a command is in flight: the log-path render
/// against the command's context, or the spawn request carrying the rendered
/// body, the context's environment and directory, and the resolved log
/// target.
pub open spec fn cmd_op_ok(
    cs: CmdState,
    ev: Event,
    ctx: TemplateData,
    job_log: Option<LogOutput>,
    global_log: LogOutput,
    op: Op,
) -> bool {
    match (cs, ev) {
        (CmdState::AwaitBody, Event::Rendered(res)) => match res {
            Ok(body) => match effective_log(job_log, global_log) {
                LogOutput::Filepath(t) => op matches Op::Render { template, data } && template == t
                    && same_context(data, ctx),
                LogOutput::ToStdout(out) => op matches Op::RunCommand { body: b2, env, dir, log }
                    && b2 == body && env.pairs@ == ctx.env.pairs@ && dir == ctx.dir && log == (
                if out {
                    LogTarget::Inherit
                } else {
                    LogTarget::Discard
                }),
            },
            Err(_) => true,
        },
        (CmdState::AwaitLogPath { body }, Event::Rendered(res)) => match res {
            Ok(path) => op matches Op::RunCommand { body: b2, env, dir, log } && b2 == body
                && env.pairs@ == ctx.env.pairs@ && dir == ctx.dir && log == LogTarget::Append(path),
            Err(_) => true,
        },
        _ => true,
    }
}

/// Progress of one command execution step.
pub enum CmdProgress {
    /// Another operation is needed before the command is done.
    Next { op: Op, cmd: CmdState },
    /// The command finished with the given outcome.
    Finished { ok: bool },
}

/// Whether a command progress step asks to spawn a process.
pub open spec fn cmd_spawns(r: CmdProgress) -> bool {
    r matches CmdProgress::Next { op: Op::RunCommand { .. }, .. }
}

/// Advance one command execution by one event.
///
/// The command body is rendered first; a render failure fails the command
/// without spawning anything.  In dry mode the rendered body is reported and
/// the command counts as successful, with no process spawned.  Otherwise the
/// log target is resolved (the job's own setting over the engine's) and the
/// driver is asked to spawn the command.
fn cmd_step(
    cs: CmdState,
    ev: Event,
    dry: bool,
    data: &TemplateData,
    job_log: &Option<LogOutput>,
    global_log: &LogOutput,
    notes: &mut Vec<Notice>,
) -> (r: CmdProgress)
    requires
        event_kind(ev) == cmd_expected(cs),
    ensures
        dry ==> !cmd_spawns(r),
        cmd_finish(cs, ev, dry) matches Some(b) ==> r == (CmdProgress::Finished { ok: b }),
        cmd_finish(cs, ev, dry) is None ==> (r matches CmdProgress::Next { op, cmd } && cmd
            == cmd_next_state(cs, ev, *job_log, *global_log) && cmd_op_ok(
            cs,
            ev,
            *data,
            *job_log,
            *global_log,
            op,
        )),
        (match (cs, ev) {
            (CmdState::AwaitBody, Event::Rendered(res)) => dry ==> (res matches Ok(body)
                ==> final(notes)@ == old(notes)@.push(Notice::DryRun { body })),
            _ => true,
        }),
{
    match cs {
        CmdState::AwaitBody => {
            let res = match ev {
                Event::Rendered(res) => res,
                _ => unreached(),
            };
            match res {
                Ok(body) => {
                    if dry {
                        notes.push(Notice::DryRun { body });
                        CmdProgress::Finished { ok: true }
                    } else {
                        let eff: &LogOutput = match job_log {
                            Some(l) => l,
                            None => global_log,
                        };
                        match eff {
                            LogOutput::Filepath(t) => CmdProgress::Next {
                                op: Op::Render { template: t.clone(), data: data.clone() },
                                cmd: CmdState::AwaitLogPath { body },
                            },
                            LogOutput::ToStdout(out) => CmdProgress::Next {
                                op: Op::RunCommand {
                                    body,
                                    env: data.env.clone(),
                                    dir: match &data.dir {
                                        Some(d) => Some(d.clone()),
                                        None => None,
                                    },
                                    log: if *out {
                                        LogTarget::Inherit
                                    } else {
                                        LogTarget::Discard
                                    },
                                },
                                cmd: CmdState::AwaitExit,
                            },
                        }
                    }
                },
                Err(e) => {
                    notes.push(Notice::RenderFailed { error: e });
                    CmdProgress::Finished { ok: false }
                },
            }
        },
        CmdState::AwaitLogPath { body } => {
            let res = match ev {
                Event::Rendered(res) => res,
                _ => unreached(),
            };
            if dry {
                return CmdProgress::Finished { ok: true };
            }
            match res {
                Ok(path) => CmdProgress::Next {
                    op: Op::RunCommand {
                        body,
                        env: data.env.clone(),
                        dir: match &data.dir {
                            Some(d) => Some(d.clone()),
                            None => None,
                        },
                        log: LogTarget::Append(path),
                    },
                    cmd: CmdState::AwaitExit,
                },
                Err(e) => {
                    notes.push(Notice::RenderFailed { error: e });
                    CmdProgress::Finished { ok: false }
                },
            }
        },
        CmdState::AwaitExit => {
            let ok = match ev {
                Event::CommandDone(b) => b,
                _ => unreached(),
            };
            CmdProgress::Finished { ok }
        },
    }
}

/// The iteration counter as an executable iteration value.
fn counter_of(it: usize) -> (r: i64)
    ensures
        Value::Int(r) == counter_value(it as int),
{
    let wide = it as u64;
    if wide <= (i64::MAX as u64) {
        wide as i64
    } else {
        i64::MAX
    }
}

impl Runner {
    /// The machine's invariant away from a transition: every frame on the
    /// stack waits for a child, and no result is pending.
    pub open spec fn base_ok(&self) -> bool {
        &&& self.completed@.len() == self.jobs@.len()
        &&& jobs_valid(self.jobs@)
        &&& forall|i: int| 0 <= i < self.queue@.len() ==> #[trigger] self.queue@[i] < self.jobs@.len()
        &&& forall|i: int|
            0 <= i < self.stack@.len() ==> frame_ok(
                self.jobs@,
                self.config_dir@,
                #[trigger] self.stack@[i],
            )
        &&& forall|i: int| 0 <= i < self.stack@.len() ==> waiting(#[trigger] self.stack@[i].phase)
        &&& self.pending is None
    }

    /// The per-job conditions a context must meet.
    pub open spec fn data_ok(&self, j: int, data: TemplateData) -> bool {
        &&& 0 <= j < self.jobs@.len()
        &&& data.job@ == self.jobs@[j].name@
        &&& data.config_dir@ == self.config_dir@
        &&& (self.jobs@[j].dir matches Some(d) ==> (data.dir matches Some(e) && e@ == d@))
    }

    /// What one transition preserves.
    pub open spec fn advanced(&self, pre: Runner) -> bool {
        &&& self.machine_ok()
        &&& self.same_setup(&pre)
        &&& completed_monotone(pre.completed@, self.completed@)
    }

    /// Push a fresh frame for job `j`: fill the context's job fields and
    /// begin with the should-run decision.
    fn push_frame(&mut self, j: usize, data: TemplateData, notes: Vec<Notice>) -> (r: Action)
        requires
            old(self).base_ok(),
            j < old(self).jobs@.len(),
        ensures
            final(self).advanced(*old(self)),
            final(self).completed@ == old(self).completed@,
            final(self).all_jobs == old(self).all_jobs,
            r.op == (Op::Proceed),
            final(self).active(),
            final(self).stack@ == old(self).stack@.push(final(self).stack@.last()),
            final(self).stack@.last().job == j,
            final(self).stack@.last().phase == Phase::GateStart,
            final(self).stack@.last().last_ok == true,
            final(self).queue@ == old(self).queue@,
            final(self).pending is None,
            final(self).stack@.last().data.env.pairs@ == data.env.pairs@,
            final(self).stack@.last().data.props.pairs@ == data.props.pairs@,
            final(self).stack@.last().data.iter == data.iter,
            final(self).stack@.last().data.thread == data.thread,
    {
        let mut data = data;
        data.job = self.jobs[j].name.clone();
        data.config_dir = self.config_dir.clone();
        if let Some(d) = &self.jobs[j].dir {
            data.dir = Some(d.clone());
        }
        let mut notes = notes;
        notes.push(Notice::LoadingJob { job: self.jobs[j].name.clone() });
        self.stack.push(Frame { job: j, data, phase: Phase::GateStart, last_ok: true });
        Action { notes, op: Op::Proceed }
    }

    /// Begin a top-level run of job `j` with a context merged from the global
    /// and the job's own environment and properties.
    fn begin_job(&mut self, j: usize, notes: Vec<Notice>) -> (r: Action)
        requires
            old(self).base_ok(),
            j < old(self).jobs@.len(),
        ensures
            final(self).advanced(*old(self)),
            final(self).completed@ == old(self).completed@,
            final(self).all_jobs == old(self).all_jobs,
            r.op == (Op::Proceed),
            final(self).active(),
            final(self).stack@ == old(self).stack@.push(final(self).stack@.last()),
            final(self).stack@.last().job == j,
            final(self).stack@.last().phase == Phase::GateStart,
            final(self).stack@.last().last_ok == true,
            final(self).queue@ == old(self).queue@,
            final(self).pending is None,
            // the context holds the global bindings with the job's own merged
            // on top, no iteration value yet, and the sequential worker index
            final(self).stack@.last().data.env.pairs@ == old(self).env.pairs@
                + old(self).jobs@[j as int].env.pairs@,
            final(self).stack@.last().data.props.pairs@ == old(self).props.pairs@
                + old(self).jobs@[j as int].props.pairs@,
            final(self).stack@.last().data.iter is None,
            final(self).stack@.last().data.thread == 0,
    {
        let mut data = TemplateData::fresh();
        data.env = self.env.clone();
        data.env.extend(self.jobs[j].env.clone());
        data.props = self.props.clone();
        data.props.extend(self.jobs[j].props.clone());
        self.push_frame(j, data, notes)
    }

    /// Start a run of the single job `j`.
    pub fn start_job(&mut self, j: usize) -> (r: Action)
        requires
            old(self).machine_ok(),
            old(self).idle(),
            j < old(self).jobs@.len(),
        ensures
            final(self).advanced(*old(self)),
            final(self).completed@ == old(self).completed@,
            final(self).active(),
            r.op == (Op::Proceed),
            op_answer_kind(r.op) == final(self).spec_expected(),
            final(self).all_jobs == false,
            final(self).stack@.len() == 1,
            final(self).stack@.last().job == j,
            final(self).stack@.last().phase == Phase::GateStart,
            final(self).stack@.last().data.env.pairs@ == old(self).env.pairs@
                + old(self).jobs@[j as int].env.pairs@,
            final(self).stack@.last().data.props.pairs@ == old(self).props.pairs@
                + old(self).jobs@[j as int].props.pairs@,
            final(self).stack@.last().data.iter is None,
    {
        self.all_jobs = false;
        let notes: Vec<Notice> = Vec::new();
        self.begin_job(j, notes)
    }

    /// Start a run of every declared job, in declared order; failures are
    /// not escalated between the jobs.
    pub fn start_all(&mut self) -> (r: Action)
        requires
            old(self).machine_ok(),
            old(self).idle(),
        ensures
            final(self).machine_ok(),
            final(self).same_setup(old(self)),
            final(self).completed@ == old(self).completed@,
            !(r.op matches Op::RunCommand { .. }),
            r.op matches Op::Done { .. } ==> final(self).idle(),
            !(r.op matches Op::Done { .. }) ==> op_answer_kind(r.op) == final(self).spec_expected(),
            old(self).jobs@.len() == 0 ==> r.op == (Op::Done { ok: true }),
            old(self).jobs@.len() > 0 ==> ({
                // every declared job is queued, in declared order
                &&& final(self).queue@.len() == old(self).jobs@.len()
                &&& forall|k: int|
                    0 <= k < final(self).queue@.len() ==> #[trigger] final(self).queue@[k]
                        == final(self).queue@.len() - 1 - k
                &&& final(self).stack@.len() == 0
                &&& final(self).pending is None
            }),
    {
        self.all_jobs = true;
        let n = self.jobs.len();
        if n == 0 {
            return Action { notes: Vec::new(), op: Op::Done { ok: true } };
        }
        let mut queue: Vec<usize> = Vec::new();
        let mut i: usize = n;
        while i > 0
            invariant
                i <= n,
                n == self.jobs@.len(),
                queue@.len() == n - i,
                forall|k: int| 0 <= k < queue@.len() ==> #[trigger] queue@[k] == n - 1 - k,
            decreases i,
        {
            i = i - 1;
            queue.push(i);
        }
        self.queue = queue;
        Action { notes: Vec::new(), op: Op::Proceed }
    }

    /// Record a failed unit (message, template transform or step) of the
    /// current iteration: under `ignore_errors` the run continues at `cont`
    /// with the failure recorded, otherwise the job is marked attempted and
    /// the failure propagates.
    fn unit_fail(
        &mut self,
        j: usize,
        data: TemplateData,
        plan: IterPlan,
        it: usize,
        cont: Stage,
        step_note: bool,
        notes: Vec<Notice>,
    ) -> (r: Action)
        requires
            old(self).base_ok(),
            !waiting(Phase::Iters { plan, it, stage: cont }),
            frame_ok(
                old(self).jobs@,
                old(self).config_dir@,
                Frame {
                    job: j,
                    data,
                    phase: Phase::Iters { plan, it, stage: cont },
                    last_ok: false,
                },
            ),
        ensures
            final(self).advanced(*old(self)),
            final(self).all_jobs == old(self).all_jobs,
            r.op == (Op::Proceed),
            final(self).active(),
            forall|n: Notice| notes@.contains(n) ==> #[trigger] r.notes@.contains(n),
            !old(self).jobs@[j as int].ignore_errors ==> ({
                &&& final(self).pending == Some(false)
                &&& final(self).completed@ == old(self).completed@.update(j as int, true)
                &&& final(self).stack@ == old(self).stack@
            }),
            old(self).jobs@[j as int].ignore_errors ==> ({
                &&& final(self).pending is None
                &&& final(self).completed@ == old(self).completed@
                &&& final(self).stack@ == old(self).stack@.push(
                    Frame {
                        job: j,
                        data,
                        phase: Phase::Iters { plan, it, stage: cont },
                        last_ok: false,
                    },
                )
            }),
    {
        broadcast use lemma_push_preserves_contains;

        let mut notes = notes;
        if !self.jobs[j].ignore_errors {
            if step_note {
                notes.push(Notice::StepFailed);
            }
            self.completed[j] = true;
            self.pending = Some(false);
            Action { notes, op: Op::Proceed }
        } else {
            self.stack.push(
                Frame { job: j, data, phase: Phase::Iters { plan, it, stage: cont }, last_ok: false },
            );
            Action { notes, op: Op::Proceed }
        }
    }

    /// Consume the outcome of step `s` of the current iteration: a failure
    /// follows the error policy, a success moves to the next step.
    fn step_result(
        &mut self,
        j: usize,
        data: TemplateData,
        plan: IterPlan,
        it: usize,
        s: usize,
        ok: bool,
        notes: Vec<Notice>,
    ) -> (r: Action)
        requires
            old(self).base_ok(),
            s < usize::MAX,
            s < old(self).jobs@[j as int].steps->0@.len(),
            frame_ok(
                old(self).jobs@,
                old(self).config_dir@,
                Frame {
                    job: j,
                    data,
                    phase: Phase::Iters { plan, it, stage: Stage::StepNext { s: (s + 1) as usize } },
                    last_ok: ok,
                },
            ),
        ensures
            final(self).advanced(*old(self)),
            final(self).all_jobs == old(self).all_jobs,
            r.op == (Op::Proceed),
            final(self).active(),
            forall|n: Notice| notes@.contains(n) ==> #[trigger] r.notes@.contains(n),
            ok ==> ({
                &&& final(self).pending is None
                &&& final(self).completed@ == old(self).completed@
                &&& final(self).stack@ == old(self).stack@.push(
                    Frame {
                        job: j,
                        data,
                        phase: Phase::Iters {
                            plan,
                            it,
                            stage: Stage::StepNext { s: (s + 1) as usize },
                        },
                        last_ok: true,
                    },
                )
            }),
            !ok && !old(self).jobs@[j as int].ignore_errors ==> ({
                &&& final(self).pending == Some(false)
                &&& final(self).completed@ == old(self).completed@.update(j as int, true)
                &&& final(self).stack@ == old(self).stack@
            }),
            !ok && old(self).jobs@[j as int].ignore_errors ==> ({
                &&& final(self).pending is None
                &&& final(self).completed@ == old(self).completed@
                &&& final(self).stack@ == old(self).stack@.push(
                    Frame {
                        job: j,
                        data,
                        phase: Phase::Iters {
                            plan,
                            it,
                            stage: Stage::StepNext { s: (s + 1) as usize },
                        },
                        last_ok: false,
                    },
                )
            }),
    {
        if ok {
            self.stack.push(
                Frame {
                    job: j,
                    data,
                    phase: Phase::Iters { plan, it, stage: Stage::StepNext { s: s + 1 } },
                    last_ok: true,
                },
            );
            Action { notes, op: Op::Proceed }
        } else {
            self.unit_fail(j, data, plan, it, Stage::StepNext { s: s + 1 }, true, notes)
        }
    }

    /// Advance the run by one decision.
    ///
    /// `ev` must answer the operation handed out last (its kind is
    /// [`Runner::expected_event`], and every returned operation expects the
    /// event kind the machine will demand next).  In dry mode no operation
    /// ever asks to spawn a process, and the run-once flags only ever move
    /// from unset to set.  Each transition's outcome — the new frame, the
    /// flags, and the payload of the emitted operation — is pinned by the
    /// transition laws of this module, one per phase of a job run.
    #[verifier::rlimit(100)]
    #[verifier::spinoff_prover]
    pub fn next(&mut self, ev: Event) -> (r: Action)
        requires
            old(self).machine_ok(),
            old(self).active(),
            event_kind(ev) == old(self).spec_expected(),
        ensures
            final(self).advanced(*old(self)),
            final(self).all_jobs == old(self).all_jobs,
            old(self).dry_mode ==> !(r.op matches Op::RunCommand { .. }),
            r.op matches Op::Done { .. } ==> final(self).idle(),
            !(r.op matches Op::Done { .. }) ==> final(self).active(),
            !(r.op matches Op::Done { .. }) ==> op_answer_kind(r.op) == final(self).spec_expected(),
            dry_run_reports(*old(self), ev, r),
            step_fail_aborts(*old(self), ev, *final(self)),
            step_fail_continues(*old(self), ev, *final(self)),
            gate_skips_attempted(*old(self), ev, *final(self)),
            gate_admits_unattempted(*old(self), ev, *final(self)),
            gate_guards_start(*old(self), ev, *final(self), r),
            gate_conditions_chain(*old(self), ev, *final(self), r),
            dep_chain_advances(*old(self), ev, *final(self), r),
            dep_command_observed(*old(self), ev, *final(self), r),
            begin_iteration(*old(self), ev, *final(self), r),
            message_emitted(*old(self), ev, *final(self), r),
            transform_next(*old(self), ev, *final(self), r),
            transform_advances(*old(self), ev, *final(self), r),
            step_chain_advances(*old(self), ev, *final(self), r),
            step_command_advances(*old(self), ev, *final(self), r),
            child_step_result(*old(self), ev, *final(self)),
            iterations_end(*old(self), ev, *final(self)),
            dep_result_propagates(*old(self), ev, *final(self)),
            queue_starts_job(*old(self), ev, *final(self)),
            run_done(*old(self), ev, *final(self), r),
            iter_resolve_steps(*old(self), ev, *final(self), r),
            iter_file_loaded(*old(self), ev, *final(self)),
            jobref_step_spawns_child(*old(self), ev, *final(self)),
            jobref_dep_spawns_child(*old(self), ev, *final(self)),
    {
        broadcast use lemma_push_drop_last, lemma_push_preserves_contains;

        let notes: Vec<Notice> = Vec::new();
        if self.pending.is_some() {
            let b = self.pending.unwrap();
            self.pending = None;
            if self.stack.len() == 0 {
                // a top-level job finished with `b`
                if self.queue.len() > 0 {
                    let j = self.queue.pop().unwrap();
                    return self.begin_job(j, notes);
                }
                let overall = if self.all_jobs {
                    true
                } else {
                    b
                };
                return Action { notes, op: Op::Done { ok: overall } };
            }
            let fr = self.stack.pop().unwrap();
            let Frame { job: j, data, phase, last_ok } = fr;
            match phase {
                Phase::DepChild { idx } => {
                    if !b {
                        // a failed dependency job aborts this job before its
                        // own steps, without marking it attempted
                        self.pending = Some(false);
                        return Action { notes, op: Op::Proceed };
                    }
                    let ndeps = match &self.jobs[j].depends {
                        Some(d) => d.len(),
                        None => unreached(),
                    };
                    proof {
                        assert(idx < ndeps);
                    }
                    self.stack.push(
                        Frame { job: j, data, phase: Phase::DepNext { idx: idx + 1 }, last_ok },
                    );
                    return Action { notes, op: Op::Proceed };
                },
                Phase::Iters { plan, it, stage } => match stage {
                    Stage::StepChild { s } => {
                        let nsteps = match &self.jobs[j].steps {
                            Some(ss) => ss.len(),
                            None => unreached(),
                        };
                        proof {
                            assert(s < nsteps);
                        }
                        return self.step_result(j, data, plan, it, s, b, notes);
                    },
                    _ => unreached(),
                },
                _ => unreached(),
            }
        }
        if self.stack.len() == 0 {
            // a run over all jobs is starting
            let j = self.queue.pop().unwrap();
            return self.begin_job(j, notes);
        }
        let fr = self.stack.pop().unwrap();
        let Frame { job: j, mut data, phase, last_ok } = fr;
        let mut notes = notes;
        match phase {
            Phase::GateStart => {
                match &self.jobs[j].when {
                    Some(conds) => {
                        if conds.len() == 0 {
                            self.stack.push(
                                Frame { job: j, data, phase: Phase::DepNext { idx: 0 }, last_ok },
                            );
                            return Action { notes, op: Op::Proceed };
                        }
                        let tpl = conds[0].clone();
                        notes.push(Notice::StepStart { command: tpl.clone() });
                        let op = Op::Render { template: tpl, data: data.clone() };
                        self.stack.push(
                            Frame {
                                job: j,
                                data,
                                phase: Phase::GateCmd {
                                    idx: 0,
                                    all_ok: true,
                                    cmd: CmdState::AwaitBody,
                                },
                                last_ok,
                            },
                        );
                        return Action { notes, op };
                    },
                    None => {
                        if self.completed[j] {
                            notes.push(Notice::AlreadyExecuted);
                            self.pending = Some(true);
                            return Action { notes, op: Op::Proceed };
                        }
                        self.stack.push(
                            Frame { job: j, data, phase: Phase::DepNext { idx: 0 }, last_ok },
                        );
                        return Action { notes, op: Op::Proceed };
                    },
                }
            },
            Phase::GateCmd { idx, all_ok, cmd } => {
                let prog = cmd_step(cmd, ev, self.dry_mode, &data, &self.jobs[j].log, &self.log, &mut notes);
                match prog {
                    CmdProgress::Next { op, cmd } => {
                        self.stack.push(
                            Frame {
                                job: j,
                                data,
                                phase: Phase::GateCmd { idx, all_ok, cmd },
                                last_ok,
                            },
                        );
                        return Action { notes, op };
                    },
                    CmdProgress::Finished { ok } => {
                        let all2 = all_ok && ok;
                        let ncond = match &self.jobs[j].when {
                            Some(w) => w.len(),
                            None => unreached(),
                        };
                        if idx + 1 < ncond {
                            let tpl = match &self.jobs[j].when {
                                Some(w) => w[idx + 1].clone(),
                                None => unreached(),
                            };
                            notes.push(Notice::StepStart { command: tpl.clone() });
                            let op = Op::Render { template: tpl, data: data.clone() };
                            self.stack.push(
                                Frame {
                                    job: j,
                                    data,
                                    phase: Phase::GateCmd {
                                        idx: idx + 1,
                                        all_ok: all2,
                                        cmd: CmdState::AwaitBody,
                                    },
                                    last_ok,
                                },
                            );
                            return Action { notes, op };
                        }
                        if all2 {
                            self.stack.push(
                                Frame { job: j, data, phase: Phase::DepNext { idx: 0 }, last_ok },
                            );
                            return Action { notes, op: Op::Proceed };
                        }
                        notes.push(Notice::AlreadyExecuted);
                        self.pending = Some(true);
                        return Action { notes, op: Op::Proceed };
                    },
                }
            },
            Phase::DepNext { idx } => {
                let present = match &self.jobs[j].depends {
                    Some(d) => idx < d.len(),
                    None => false,
                };
                if !present {
                    self.stack.push(Frame { job: j, data, phase: Phase::IterResolve, last_ok });
                    return Action { notes, op: Op::Proceed };
                }
                let is_cmd = match &self.jobs[j].depends {
                    Some(d) => matches!(&d[idx], Step::Command(_)),
                    None => unreached(),
                };
                if is_cmd {
                    let tpl = match &self.jobs[j].depends {
                        Some(d) => match &d[idx] {
                            Step::Command(c) => c.clone(),
                            _ => unreached(),
                        },
                        None => unreached(),
                    };
                    notes.push(Notice::StepStart { command: tpl.clone() });
                    let op = Op::Render { template: tpl, data: data.clone() };
                    self.stack.push(
                        Frame {
                            job: j,
                            data,
                            phase: Phase::DepCmd { idx, cmd: CmdState::AwaitBody },
                            last_ok,
                        },
                    );
                    return Action { notes, op };
                }
                let mut child = data.clone();
                let ti = match &self.jobs[j].depends {
                    Some(d) => match &d[idx] {
                        Step::Job { job: tname, props, env } => {
                            if let Some(p) = props {
                                child.props.extend(p.clone());
                            }
                            if let Some(e) = env {
                                child.env.extend(e.clone());
                            }
                            match self.get_job_index(tname.as_str()) {
                                Some(t) => t,
                                None => {
                                    proof {
                                        assert(job_ok(self.jobs@, self.jobs@[j as int]));
                                        assert(has_job(self.jobs@, tname@));
                                    }
                                    unreached()
                                },
                            }
                        },
                        _ => unreached(),
                    },
                    None => unreached(),
                };
                self.stack.push(Frame { job: j, data, phase: Phase::DepChild { idx }, last_ok });
                return self.push_frame(ti, child, notes);
            },
            Phase::DepChild { .. } => unreached(),
            Phase::DepCmd { idx, cmd } => {
                let prog = cmd_step(cmd, ev, self.dry_mode, &data, &self.jobs[j].log, &self.log, &mut notes);
                match prog {
                    CmdProgress::Next { op, cmd } => {
                        self.stack.push(
                            Frame { job: j, data, phase: Phase::DepCmd { idx, cmd }, last_ok },
                        );
                        return Action { notes, op };
                    },
                    CmdProgress::Finished { ok: _ } => {
                        // a failed command dependency is observed but does
                        // not abort the job
                        let ndeps = match &self.jobs[j].depends {
                            Some(d) => d.len(),
                            None => unreached(),
                        };
                        proof {
                            assert(idx < ndeps);
                        }
                        self.stack.push(
                            Frame { job: j, data, phase: Phase::DepNext { idx: idx + 1 }, last_ok },
                        );
                        return Action { notes, op: Op::Proceed };
                    },
                }
            },
            Phase::IterResolve => {
                if self.jobs[j].steps.is_none() {
                    self.completed[j] = true;
                    self.pending = Some(true);
                    return Action { notes, op: Op::Proceed };
                }
                match self.jobs[j].resolve_iters() {
                    Ok(plan) => match plan {
                        IterPlan::FromFile(path) => {
                            let p2 = path.clone();
                            self.stack.push(
                                Frame { job: j, data, phase: Phase::AwaitIterFile { path }, last_ok },
                            );
                            proof {
                                assert(self.stack@.drop_last() =~= old(self).stack@.drop_last());
                            }
                            return Action { notes, op: Op::ReadIters { path: p2 } };
                        },
                        plan => {
                            self.stack.push(
                                Frame {
                                    job: j,
                                    data,
                                    phase: Phase::Iters { plan, it: 0, stage: Stage::Begin },
                                    last_ok,
                                },
                            );
                            proof {
                                assert(self.stack@.drop_last() =~= old(self).stack@.drop_last());
                            }
                            return Action { notes, op: Op::Proceed };
                        },
                    },
                    Err(_) => {
                        proof {
                            assert(job_ok(self.jobs@, self.jobs@[j as int]));
                        }
                        unreached()
                    },
                }
            },
            Phase::AwaitIterFile { path } => {
                let res = match ev {
                    Event::IterValues(res) => res,
                    _ => unreached(),
                };
                match res {
                    Ok(vals) => {
                        self.stack.push(
                            Frame {
                                job: j,
                                data,
                                phase: Phase::Iters {
                                    plan: IterPlan::Values(vals),
                                    it: 0,
                                    stage: Stage::Begin,
                                },
                                last_ok,
                            },
                        );
                        proof {
                            assert(self.stack@.drop_last() =~= old(self).stack@.drop_last());
                        }
                        return Action { notes, op: Op::Proceed };
                    },
                    Err(_) => {
                        notes.push(Notice::BadIterationFile { path });
                        self.pending = Some(false);
                        return Action { notes, op: Op::Proceed };
                    },
                }
            },
            Phase::Iters { plan, it, stage } => match stage {
                Stage::Begin => {
                    let done = match &plan {
                        IterPlan::Once => it >= 1,
                        IterPlan::Infinite => false,
                        IterPlan::Values(vs) => it >= vs.len(),
                        IterPlan::FromFile(_) => unreached(),
                    };
                    if done {
                        self.completed[j] = true;
                        self.pending = Some(last_ok);
                        return Action { notes, op: Op::Proceed };
                    }
                    // refresh the per-iteration context fields
                    data.iter = match &plan {
                        IterPlan::Once => None,
                        IterPlan::Infinite => Some(Value::Int(counter_of(it))),
                        IterPlan::Values(vs) => Some(vs[it].clone()),
                        IterPlan::FromFile(_) => unreached(),
                    };
                    if let Some(d) = &self.jobs[j].dir {
                        data.dir = Some(d.clone());
                    }
                    match &self.jobs[j].message {
                        Some(m) => {
                            let op = Op::Render { template: m.clone(), data: data.clone() };
                            self.stack.push(
                                Frame {
                                    job: j,
                                    data,
                                    phase: Phase::Iters { plan, it, stage: Stage::AwaitMessage },
                                    last_ok,
                                },
                            );
                            return Action { notes, op };
                        },
                        None => {
                            self.stack.push(
                                Frame {
                                    job: j,
                                    data,
                                    phase: Phase::Iters { plan, it, stage: Stage::TplNext { t: 0 } },
                                    last_ok,
                                },
                            );
                            return Action { notes, op: Op::Proceed };
                        },
                    }
                },
                Stage::AwaitMessage => {
                    let res = match ev {
                        Event::Rendered(res) => res,
                        _ => unreached(),
                    };
                    match res {
                        Ok(text) => {
                            notes.push(Notice::Message { text });
                            proof {
                                assert(notes@.contains(notes@.last()));
                            }
                            self.stack.push(
                                Frame {
                                    job: j,
                                    data,
                                    phase: Phase::Iters { plan, it, stage: Stage::TplNext { t: 0 } },
                                    last_ok,
                                },
                            );
                            return Action { notes, op: Op::Proceed };
                        },
                        Err(e) => {
                            notes.push(Notice::RenderFailed { error: e });
                            return self.unit_fail(
                                j,
                                data,
                                plan,
                                it,
                                Stage::TplNext { t: 0 },
                                false,
                                notes,
                            );
                        },
                    }
                },
                Stage::TplNext { t } => {
                    let present = match &self.jobs[j].templates {
                        Some(ts) => t < ts.len(),
                        None => false,
                    };
                    if !present {
                        self.stack.push(
                            Frame {
                                job: j,
                                data,
                                phase: Phase::Iters { plan, it, stage: Stage::StepNext { s: 0 } },
                                last_ok,
                            },
                        );
                        return Action { notes, op: Op::Proceed };
                    }
                    let tpl = match &self.jobs[j].templates {
                        Some(ts) => ts[t].clone(),
                        None => unreached(),
                    };
                    match Job::resolve_template(tpl.as_str()) {
                        Ok((in_t, out_t)) => {
                            let op = Op::Render { template: in_t, data: data.clone() };
                            self.stack.push(
                                Frame {
                                    job: j,
                                    data,
                                    phase: Phase::Iters {
                                        plan,
                                        it,
                                        stage: Stage::Tpl {
                                            t,
                                            tp: TplPhase::AwaitIn { out_template: out_t },
                                        },
                                    },
                                    last_ok,
                                },
                            );
                            return Action { notes, op };
                        },
                        Err(_) => {
                            proof {
                                assert(job_ok(self.jobs@, self.jobs@[j as int]));
                            }
                            unreached()
                        },
                    }
                },
                Stage::Tpl { t, tp } => {
                    let ntpl = match &self.jobs[j].templates {
                        Some(ts) => ts.len(),
                        None => unreached(),
                    };
                    proof {
                        assert(t < ntpl);
                    }
                    match tp {
                        TplPhase::AwaitIn { out_template } => {
                            let res = match ev {
                                Event::Rendered(res) => res,
                                _ => unreached(),
                            };
                            match res {
                                Ok(input) => {
                                    let op = Op::Render { template: out_template, data: data.clone() };
                                    self.stack.push(
                                        Frame {
                                            job: j,
                                            data,
                                            phase: Phase::Iters {
                                                plan,
                                                it,
                                                stage: Stage::Tpl { t, tp: TplPhase::AwaitOut { input } },
                                            },
                                            last_ok,
                                        },
                                    );
                                    return Action { notes, op };
                                },
                                Err(e) => {
                                    notes.push(Notice::RenderFailed { error: e });
                                    return self.unit_fail(
                                        j,
                                        data,
                                        plan,
                                        it,
                                        Stage::TplNext { t: t + 1 },
                                        false,
                                        notes,
                                    );
                                },
                            }
                        },
                        TplPhase::AwaitOut { input } => {
                            let res = match ev {
                                Event::Rendered(res) => res,
                                _ => unreached(),
                            };
                            match res {
                                Ok(output) => {
                                    notes.push(
                                        Notice::Template { input: input.clone(), output: output.clone() },
                                    );
                                    let op = Op::ReadText { path: input };
                                    self.stack.push(
                                        Frame {
                                            job: j,
                                            data,
                                            phase: Phase::Iters {
                                                plan,
                                                it,
                                                stage: Stage::Tpl { t, tp: TplPhase::AwaitText { output } },
                                            },
                                            last_ok,
                                        },
                                    );
                                    return Action { notes, op };
                                },
                                Err(e) => {
                                    notes.push(Notice::RenderFailed { error: e });
                                    return self.unit_fail(
                                        j,
                                        data,
                                        plan,
                                        it,
                                        Stage::TplNext { t: t + 1 },
                                        false,
                                        notes,
                                    );
                                },
                            }
                        },
                        TplPhase::AwaitText { output } => {
                            let res = match ev {
                                Event::TextRead(res) => res,
                                _ => unreached(),
                            };
                            match res {
                                Ok(content) => {
                                    let op = Op::Render { template: content, data: data.clone() };
                                    self.stack.push(
                                        Frame {
                                            job: j,
                                            data,
                                            phase: Phase::Iters {
                                                plan,
                                                it,
                                                stage: Stage::Tpl {
                                                    t,
                                                    tp: TplPhase::AwaitRendered { output },
                                                },
                                            },
                                            last_ok,
                                        },
                                    );
                                    return Action { notes, op };
                                },
                                Err(_) => {
                                    notes.push(Notice::TemplateFailed);
                                    return self.unit_fail(
                                        j,
                                        data,
                                        plan,
                                        it,
                                        Stage::TplNext { t: t + 1 },
                                        false,
                                        notes,
                                    );
                                },
                            }
                        },
                        TplPhase::AwaitRendered { output } => {
                            let res = match ev {
                                Event::Rendered(res) => res,
                                _ => unreached(),
                            };
                            match res {
                                Ok(text) => {
                                    let op = Op::WriteText { path: output, content: text };
                                    self.stack.push(
                                        Frame {
                                            job: j,
                                            data,
                                            phase: Phase::Iters {
                                                plan,
                                                it,
                                                stage: Stage::Tpl { t, tp: TplPhase::AwaitWritten },
                                            },
                                            last_ok,
                                        },
                                    );
                                    return Action { notes, op };
                                },
                                Err(e) => {
                                    notes.push(Notice::RenderFailed { error: e });
                                    return self.unit_fail(
                                        j,
                                        data,
                                        plan,
                                        it,
                                        Stage::TplNext { t: t + 1 },
                                        false,
                                        notes,
                                    );
                                },
                            }
                        },
                        TplPhase::AwaitWritten => {
                            let ok = match ev {
                                Event::Written(b) => b,
                                _ => unreached(),
                            };
                            if ok {
                                self.stack.push(
                                    Frame {
                                        job: j,
                                        data,
                                        phase: Phase::Iters {
                                            plan,
                                            it,
                                            stage: Stage::TplNext { t: t + 1 },
                                        },
                                        last_ok: true,
                                    },
                                );
                                return Action { notes, op: Op::Proceed };
                            }
                            notes.push(Notice::TemplateFailed);
                            return self.unit_fail(
                                j,
                                data,
                                plan,
                                it,
                                Stage::TplNext { t: t + 1 },
                                false,
                                notes,
                            );
                        },
                    }
                },
                Stage::StepNext { s } => {
                    let nsteps = match &self.jobs[j].steps {
                        Some(ss) => ss.len(),
                        None => unreached(),
                    };
                    if s >= nsteps {
                        // the iteration is over; begin the next one
                        let it2 = if it < usize::MAX {
                            it + 1
                        } else {
                            it
                        };
                        self.stack.push(
                            Frame {
                                job: j,
                                data,
                                phase: Phase::Iters { plan, it: it2, stage: Stage::Begin },
                                last_ok,
                            },
                        );
                        return Action { notes, op: Op::Proceed };
                    }
                    let is_cmd = match &self.jobs[j].steps {
                        Some(ss) => matches!(&ss[s], Step::Command(_)),
                        None => unreached(),
                    };
                    if is_cmd {
                        let tpl = match &self.jobs[j].steps {
                            Some(ss) => match &ss[s] {
                                Step::Command(c) => c.clone(),
                                _ => unreached(),
                            },
                            None => unreached(),
                        };
                        notes.push(Notice::StepStart { command: tpl.clone() });
                        let op = Op::Render { template: tpl, data: data.clone() };
                        self.stack.push(
                            Frame {
                                job: j,
                                data,
                                phase: Phase::Iters {
                                    plan,
                                    it,
                                    stage: Stage::StepCmd { s, cmd: CmdState::AwaitBody },
                                },
                                last_ok,
                            },
                        );
                        return Action { notes, op };
                    }
                    let mut child = data.clone();
                    let ti = match &self.jobs[j].steps {
                        Some(ss) => match &ss[s] {
                            Step::Job { job: tname, props, env } => {
                                if let Some(p) = props {
                                    child.props.extend(p.clone());
                                }
                                if let Some(e) = env {
                                    child.env.extend(e.clone());
                                }
                                match self.get_job_index(tname.as_str()) {
                                    Some(t) => t,
                                    None => {
                                        proof {
                                            assert(job_ok(self.jobs@, self.jobs@[j as int]));
                                            assert(has_job(self.jobs@, tname@));
                                        }
                                        unreached()
                                    },
                                }
                            },
                            _ => unreached(),
                        },
                        None => unreached(),
                    };
                    self.stack.push(
                        Frame {
                            job: j,
                            data,
                            phase: Phase::Iters { plan, it, stage: Stage::StepChild { s } },
                            last_ok,
                        },
                    );
                    return self.push_frame(ti, child, notes);
                },
                Stage::StepCmd { s, cmd } => {
                    let nsteps = match &self.jobs[j].steps {
                        Some(ss) => ss.len(),
                        None => unreached(),
                    };
                    proof {
                        assert(s < nsteps);
                    }
                    let prog = cmd_step(cmd, ev, self.dry_mode, &data, &self.jobs[j].log, &self.log, &mut notes);
                    match prog {
                        CmdProgress::Next { op, cmd } => {
                            self.stack.push(
                                Frame {
                                    job: j,
                                    data,
                                    phase: Phase::Iters {
                                        plan,
                                        it,
                                        stage: Stage::StepCmd { s, cmd },
                                    },
                                    last_ok,
                                },
                            );
                            return Action { notes, op };
                        },
                        CmdProgress::Finished { ok } => {
                            return self.step_result(j, data, plan, it, s, ok, notes);
                        },
                    }
                },
                Stage::StepChild { .. } => unreached(),
            },
        }
    }
}

} // verus!
