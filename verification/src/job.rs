//! The job model: steps, iteration policies, logging policies, and the two
//! resolution functions that turn declared policies into executable plans.

use vstd::prelude::*;

use crate::bindings::Bindings;
use crate::text::{chars_of, string_from_chars};
use crate::value::Value;

verus! {

/// Iterations for the steps.
///
/// By default the steps are executed once.
pub enum Iteration {
    /// Path to a file containing an array of values; one element is one
    /// iteration value.
    File(String),
    /// Whether the job should be executed in an infinite loop or in a single
    /// iteration.
    Loop(bool),
    /// Range of values, working like a counting loop: starts at `from` (0 when
    /// absent), advances by `by` (1 when absent), and stops at the exclusive
    /// bound `to`.
    Range { from: Option<i64>, to: i64, by: Option<i64> },
    /// Explicit list of values, yielded in declared order.
    Values(Vec<Value>),
}

impl Default for Iteration {
    /// A job without an iteration policy runs its steps once.
    fn default() -> (r: Self)
        ensures
            r == Iteration::Loop(false),
    {
        Iteration::Loop(false)
    }
}

/// Type of execution for the iterations.
///
/// By default jobs run sequentially.
pub enum ExecutionType {
    /// Run each iteration in parallel or sequentially.  If running in
    /// parallel, use the maximum number of workers available.
    Parallel(bool),
    /// Run the iterations in parallel with the specific number of workers.
    WithThreads(i32),
}

impl Default for ExecutionType {
    fn default() -> (r: Self)
        ensures
            r == ExecutionType::Parallel(false),
    {
        ExecutionType::Parallel(false)
    }
}

/// Where to log the output of each step.
pub enum LogOutput {
    /// Output to standard output; if false, no output is emitted.
    ToStdout(bool),
    /// Template for a path, recalculated every iteration.
    Filepath(String),
}

impl Default for LogOutput {
    fn default() -> (r: Self)
        ensures
            r == LogOutput::ToStdout(true),
    {
        LogOutput::ToStdout(true)
    }
}

impl Clone for LogOutput {
    fn clone(&self) -> (res: Self)
        ensures
            res == *self,
    {
        match self {
            LogOutput::ToStdout(b) => LogOutput::ToStdout(*b),
            LogOutput::Filepath(s) => LogOutput::Filepath(s.clone()),
        }
    }
}

/// Where to log the output of a step; the job-level value overrides the
/// engine-global default.
#[derive(PartialEq, Eq, Debug)]
pub enum StepLog {
    /// True for standard output, false for no output.
    ToStdout(bool),
    /// Template for a path that is recalculated in each iteration.
    Filepath(String),
}

impl Default for StepLog {
    fn default() -> (r: Self)
        ensures
            r == StepLog::ToStdout(true),
    {
        StepLog::ToStdout(true)
    }
}

impl Clone for StepLog {
    fn clone(&self) -> (res: Self)
        ensures
            res == *self,
    {
        match self {
            StepLog::ToStdout(b) => StepLog::ToStdout(*b),
            StepLog::Filepath(s) => StepLog::Filepath(s.clone()),
        }
    }
}

/// Steps that a job can execute: a shell command template, or another job
/// whose properties and environment can be overridden for the call.
pub enum Step {
    /// The command is directly a string template.
    Command(String),
    /// The command is another job, named by `job`.
    Job { job: String, props: Option<Bindings<Value>>, env: Option<Bindings<String>> },
}

/// A job defines the steps to run plus their configuration.
pub struct Job {
    /// Descriptive name of the job; unique across the job set.
    pub name: String,
    /// If provided, treat this as the root directory of the job's commands.
    pub dir: Option<String>,
    /// Environment variables.
    pub env: Bindings<String>,
    /// Properties of the job.
    pub props: Bindings<Value>,
    /// Path to a file containing further properties.
    pub props_file: Option<String>,
    /// Steps to execute, in declared order.
    pub steps: Option<Vec<Step>>,
    /// Iterations to execute.
    pub iters: Iteration,
    /// Dependencies run once before the steps, in declared order.
    pub depends: Option<Vec<Step>>,
    /// Template transforms, each of the form `input:output`.
    pub templates: Option<Vec<String>>,
    /// Run the iterations in parallel or sequentially.
    pub parallel: ExecutionType,
    /// Ignore errors when executing steps.
    pub ignore_errors: bool,
    /// Where to output each step; defaults to the engine's output.
    pub log: Option<LogOutput>,
    /// Guard conditions deciding whether the job runs; without them the
    /// run-once flag decides.
    pub when: Option<Vec<String>>,
    /// Message emitted at the beginning of every iteration.
    pub message: Option<String>,
}

/// Resolve a log output: the job's own output where one is declared, the
/// engine-global output otherwise.
pub fn resolve_log(global: &StepLog, local: &Option<StepLog>) -> (r: StepLog)
    ensures
        r == (match local {
            Some(l) => *l,
            None => *global,
        }),
{
    match local {
        Some(output) => output.clone(),
        None => global.clone(),
    }
}

/// A malformed template-transform path.
#[derive(PartialEq, Eq, Debug, Clone, Copy)]
pub enum TemplateError {
    /// The template has fewer than two non-empty segments.
    MissingPart,
    /// The template has more than two non-empty segments, or none.
    ExtraPart,
}

/// One step of the segment fold: a `:` closes the current segment (dropped
/// when empty), any other character extends it.
pub open spec fn seg_step(acc: (Seq<Seq<char>>, Seq<char>), c: char) -> (Seq<Seq<char>>, Seq<char>) {
    if c == ':' {
        if acc.1.len() > 0 {
            (acc.0.push(acc.1), Seq::empty())
        } else {
            acc
        }
    } else {
        (acc.0, acc.1.push(c))
    }
}

/// The closed segments and the open segment after reading the first `i`
/// characters of `s`.
pub open spec fn seg_fold(s: Seq<char>, i: int) -> (Seq<Seq<char>>, Seq<char>)
    decreases i,
{
    if i <= 0 {
        (Seq::empty(), Seq::empty())
    } else {
        seg_step(seg_fold(s, i - 1), s[i - 1])
    }
}

/// The non-empty `:`-separated segments of `s`.
pub open spec fn nonempty_segments(s: Seq<char>) -> Seq<Seq<char>> {
    let (segs, cur) = seg_fold(s, s.len() as int);
    if cur.len() > 0 {
        segs.push(cur)
    } else {
        segs
    }
}

/// The distance still to cover, clamped at zero once the bound is passed.
pub open spec fn range_measure(d: int) -> int {
    if d > 0 {
        d
    } else {
        0
    }
}

/// The result of a malformed-range check: the step must be nonzero and its
/// sign must agree with the direction from `start` to `end`.
pub open spec fn range_ok(start: int, end: int, step: int) -> bool {
    &&& step != 0
    &&& !(step > 0 && end < start)
    &&& !(step < 0 && end > start)
}

/// The values of a counting loop from `start` towards the exclusive bound
/// `end` in increments of `step`.
pub open spec fn range_seq(start: int, end: int, step: int) -> Seq<int>
    decreases (if step > 0 {
        range_measure(end - start)
    } else {
        range_measure(start - end)
    }) when step != 0
{
    if step > 0 {
        if start < end {
            seq![start] + range_seq(start + step, end, step)
        } else {
            Seq::empty()
        }
    } else {
        if start > end {
            seq![start] + range_seq(start + step, end, step)
        } else {
            Seq::empty()
        }
    }
}

/// The range values as iteration values.
pub open spec fn range_value_seq(start: int, end: int, step: int) -> Seq<Value> {
    range_seq(start, end, step).map_values(|x: int| Value::Int(x as i64))
}

/// A resolved iteration policy.
#[derive(PartialEq, Eq, Debug)]
pub enum IterPlan {
    /// Exactly one iteration with no associated value.
    Once,
    /// Unbounded iterations counting 0, 1, 2, ...
    Infinite,
    /// Exactly the given values, in order.
    Values(Vec<Value>),
    /// The values must be loaded from the named file by the driver.
    FromFile(String),
}

/// A malformed iteration policy.
#[derive(PartialEq, Eq, Debug)]
pub enum IterError {
    /// The range step is zero or fights the direction of the range.
    MalformedRange,
}

/// Expand a counting range into its values.
fn range_values(start: i64, end: i64, step: i64) -> (r: Vec<i64>)
    requires
        step != 0,
    ensures
        r@.map_values(|x: i64| x as int) == range_seq(start as int, end as int, step as int),
{
    let mut r: Vec<i64> = Vec::new();
    let mut counter: i128 = start as i128;
    while (step > 0 && counter < end as i128) || (step < 0 && counter > end as i128)
        invariant
            step != 0,
            step > 0 ==> counter >= start as i128,
            step < 0 ==> counter <= start as i128,
            range_seq(start as int, end as int, step as int) == r@.map_values(|x: i64| x as int)
                + range_seq(counter as int, end as int, step as int),
        decreases (if step > 0 {
            range_measure(end as int - counter as int)
        } else {
            range_measure(counter as int - end as int)
        }),
    {
        proof {
            reveal_with_fuel(range_seq, 2);
            assert(range_seq(counter as int, end as int, step as int) == seq![counter as int]
                + range_seq(counter as int + step as int, end as int, step as int));
        }
        let v: i64 = counter as i64;
        r.push(v);
        counter = counter + step as i128;
        proof {
            assert(r@.map_values(|x: i64| x as int) =~= int_views_with_last(r@, v));
        }
    }
    proof {
        reveal_with_fuel(range_seq, 1);
        assert(range_seq(counter as int, end as int, step as int) =~= Seq::<int>::empty());
        assert(range_seq(start as int, end as int, step as int) =~= r@.map_values(
            |x: i64| x as int,
        ));
    }
    r
}

/// The integer views of all of `vs` but its last element, with `x` appended;
/// names the unfolding step of the range loop.
pub open spec fn int_views_with_last(vs: Seq<i64>, x: i64) -> Seq<int> {
    vs.drop_last().map_values(|y: i64| y as int).push(x as int)
}

impl Job {
    /// Given a path template, provide the input and output paths.
    ///
    /// The template must hold exactly two non-empty `:`-separated segments;
    /// otherwise it is ill-formed and an error tells which way.
    pub fn resolve_template(template: &str) -> (r: Result<(String, String), TemplateError>)
        ensures
            nonempty_segments(template@).len() == 2 ==> (r matches Ok(p)
                && p.0@ == nonempty_segments(template@)[0] && p.1@ == nonempty_segments(
                template@,
            )[1]),
            nonempty_segments(template@).len() == 1 ==> r == Err::<
                (String, String),
                TemplateError,
            >(TemplateError::MissingPart),
            nonempty_segments(template@).len() != 1 && nonempty_segments(template@).len() != 2
                ==> r == Err::<(String, String), TemplateError>(TemplateError::ExtraPart),
    {
        let cs = chars_of(template);
        let mut segs: Vec<Vec<char>> = Vec::new();
        let mut cur: Vec<char> = Vec::new();
        let mut i: usize = 0;
        while i < cs.len()
            invariant
                i <= cs@.len(),
                cs@ == template@,
                seg_fold(template@, i as int) == (
                    segs@.map_values(|v: Vec<char>| v@),
                    cur@,
                ),
            decreases cs@.len() - i,
        {
            let c = cs[i];
            if c == ':' {
                if cur.len() > 0 {
                    segs.push(cur);
                    cur = Vec::new();
                    proof {
                        assert(segs@.map_values(|v: Vec<char>| v@) =~= seg_fold(
                            template@,
                            i as int,
                        ).0.push(seg_fold(template@, i as int).1));
                    }
                }
            } else {
                cur.push(c);
            }
            i = i + 1;
        }
        if cur.len() > 0 {
            segs.push(cur);
            proof {
                assert(segs@.map_values(|v: Vec<char>| v@) =~= nonempty_segments(template@));
            }
        } else {
            proof {
                assert(segs@.map_values(|v: Vec<char>| v@) =~= nonempty_segments(template@));
            }
        }
        if segs.len() == 2 {
            let second = segs.pop().unwrap();
            let first = segs.pop().unwrap();
            Ok((string_from_chars(first.as_slice()), string_from_chars(second.as_slice())))
        } else if segs.len() == 1 {
            Err(TemplateError::MissingPart)
        } else {
            Err(TemplateError::ExtraPart)
        }
    }

    /// Resolve the job's iteration policy into a plan.
    ///
    /// A malformed range (zero step, or a step fighting the direction of the
    /// range) is rejected; a file-backed policy is handed back for the driver
    /// to load.
    pub fn resolve_iters(&self) -> (r: Result<IterPlan, IterError>)
        ensures
            self.iters matches Iteration::Loop(l) ==> r == Ok::<IterPlan, IterError>(
                if l {
                    IterPlan::Infinite
                } else {
                    IterPlan::Once
                },
            ),
            self.iters matches Iteration::Values(v) ==> (r matches Ok(p) && p matches
                IterPlan::Values(w) && w@ == v@),
            self.iters matches Iteration::File(f) ==> (r matches Ok(p) && p matches
                IterPlan::FromFile(q) && q@ == f@),
            self.iters matches Iteration::Range { from, to, by } ==> ({
                let start = (if from is Some { from->0 as int } else { 0 });
                let step = (if by is Some { by->0 as int } else { 1 });
                if range_ok(start, to as int, step) {
                    r matches Ok(p) && p matches IterPlan::Values(w) && w@ == range_value_seq(
                        start,
                        to as int,
                        step,
                    )
                } else {
                    r == Err::<IterPlan, IterError>(IterError::MalformedRange)
                }
            }),
    {
        match &self.iters {
            Iteration::Loop(l) => {
                if *l {
                    Ok(IterPlan::Infinite)
                } else {
                    Ok(IterPlan::Once)
                }
            },
            Iteration::Values(vals) => {
                let mut out: Vec<Value> = Vec::new();
                let mut i: usize = 0;
                while i < vals.len()
                    invariant
                        i <= vals@.len(),
                        vals@ == self.iters->Values_0@,
                        out@ == vals@.take(i as int),
                    decreases vals@.len() - i,
                {
                    out.push(vals[i].clone());
                    i = i + 1;
                    assert(out@ =~= vals@.take(i as int));
                }
                assert(out@ =~= vals@);
                Ok(IterPlan::Values(out))
            },
            Iteration::File(path) => Ok(IterPlan::FromFile(path.clone())),
            Iteration::Range { from, to, by } => {
                let start: i64 = match from {
                    Some(f) => *f,
                    None => 0,
                };
                let step: i64 = match by {
                    Some(b) => *b,
                    None => 1,
                };
                let end: i64 = *to;
                if step == 0 || (step > 0 && end < start) || (step < 0 && end > start) {
                    Err(IterError::MalformedRange)
                } else {
                    let ints = range_values(start, end, step);
                    let mut out: Vec<Value> = Vec::new();
                    let mut i: usize = 0;
                    while i < ints.len()
                        invariant
                            i <= ints@.len(),
                            out@ == ints@.take(i as int).map_values(|x: i64| Value::Int(x)),
                        decreases ints@.len() - i,
                    {
                        out.push(Value::Int(ints[i]));
                        i = i + 1;
                        assert(out@ =~= ints@.take(i as int).map_values(|x: i64| Value::Int(x)));
                    }
                    assert(ints@.take(ints@.len() as int) =~= ints@);
                    proof {
                        lemma_int_map(ints@, start as int, end as int, step as int);
                    }
                    Ok(IterPlan::Values(out))
                }
            },
        }
    }

    /// Merge further properties into the job; the new bindings win.
    pub fn extend_props(&mut self, more: Bindings<Value>)
        ensures
            final(self).props.pairs@ == old(self).props.pairs@ + more.pairs@,
            final(self).name == old(self).name,
            final(self).dir == old(self).dir,
            final(self).env == old(self).env,
            final(self).props_file == old(self).props_file,
            final(self).steps == old(self).steps,
            final(self).iters == old(self).iters,
            final(self).depends == old(self).depends,
            final(self).templates == old(self).templates,
            final(self).parallel == old(self).parallel,
            final(self).ignore_errors == old(self).ignore_errors,
            final(self).log == old(self).log,
            final(self).when == old(self).when,
            final(self).message == old(self).message,
    {
        self.props.extend(more);
    }
}

impl Default for Job {
    /// A blank job: no name, no steps, a single run, sequential execution,
    /// errors respected.
    fn default() -> (r: Self)
        ensures
            r.name@ == Seq::<char>::empty(),
            r.dir is None,
            r.env.pairs@ == Seq::<(String, String)>::empty(),
            r.props.pairs@ == Seq::<(String, crate::value::Value)>::empty(),
            r.props_file is None,
            r.steps is None,
            r.iters == Iteration::Loop(false),
            r.depends is None,
            r.templates is None,
            r.parallel == ExecutionType::Parallel(false),
            r.ignore_errors == false,
            r.log is None,
            r.when is None,
            r.message is None,
    {
        Job {
            name: String::new(),
            dir: None,
            env: Bindings::new(),
            props: Bindings::new(),
            props_file: None,
            steps: None,
            iters: Iteration::Loop(false),
            depends: None,
            templates: None,
            parallel: ExecutionType::Parallel(false),
            ignore_errors: false,
            log: None,
            when: None,
            message: None,
        }
    }
}

/// Mapping the expanded integers of a range to iteration values gives the
/// range's value sequence.
proof fn lemma_int_map(ints: Seq<i64>, start: int, end: int, step: int)
    requires
        ints.map_values(|x: i64| x as int) == range_seq(start, end, step),
    ensures
        ints.map_values(|x: i64| Value::Int(x)) == range_value_seq(start, end, step),
{
    let ghost as_ints = ints.map_values(|x: i64| x as int);
    assert(ints.map_values(|x: i64| Value::Int(x)) =~= range_seq(start, end, step).map_values(
        |x: int| Value::Int(x as i64),
    )) by {
        assert(forall|i: int| 0 <= i < ints.len() ==> range_seq(start, end, step)[i] == #[trigger] as_ints[i]);
    }
}

} // verus!
