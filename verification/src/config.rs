//! The configuration: global settings plus the declared jobs, and the
//! validation that runs before any job executes.

use vstd::prelude::*;

use crate::bindings::Bindings;
use crate::job::{nonempty_segments, range_ok, Iteration, Job, LogOutput, Step, TemplateError};
use crate::text::str_eq;
use crate::value::Value;

verus! {

/// Config holds all the possible parameters for the runner.
pub struct Config {
    /// Absolute path to the configuration file.
    pub path: String,
    /// Global environment.
    pub env: Bindings<String>,
    /// Whether to read the dotenv file (i.e. `.env`) from the directory where
    /// the configuration is placed.  By default it is not read.
    pub dotenv: bool,
    /// Global properties.
    pub props: Bindings<Value>,
    /// Global properties loaded from a file.
    pub props_file: Option<String>,
    /// Where to write the step output.
    pub log: Option<LogOutput>,
    /// Jobs to execute.
    pub jobs: Vec<Job>,
}

/// A fault found while validating a configuration.
#[derive(PartialEq, Eq, Debug)]
pub enum ConfigError {
    /// Two jobs carry the same name.
    DuplicatedJobNames,
    /// The named job declares neither steps nor dependencies.
    NoStepsOrDependencies { job: String },
    /// A step or dependency of `job` refers to a job that does not exist.
    MissingJobRef { job: String, target: String },
    /// A template transform of `job` does not split into two non-empty
    /// segments.
    MalformedTemplate { job: String, template: String, error: TemplateError },
    /// The iteration range of `job` has a zero step or a step fighting the
    /// range's direction.
    MalformedRange { job: String },
}

/// The directory part of a path: the path without its final component.
pub uninterp spec fn parent_dir_of(p: Seq<char>) -> Seq<char>;

/// Relies on `std::path::Path::parent`: returns the path without its final
/// component, a function of the path alone; `None` only for an empty or
/// root path, taken here as the empty directory.
#[verifier::external_body]
fn path_parent(path: &str) -> (r: Option<String>)
    ensures
        r matches Some(s) ==> s@ == parent_dir_of(path@),
        r is None ==> parent_dir_of(path@).len() == 0,
{
    match std::path::Path::new(path).parent() {
        Some(p) => p.to_str().map(|s| s.to_string()),
        None => None,
    }
}

/// No two declared jobs share a name.
pub open spec fn names_unique(jobs: Seq<Job>) -> bool {
    forall|i: int, j: int|
        0 <= i < j < jobs.len() ==> #[trigger] jobs[i].name@ != #[trigger] jobs[j].name@
}

/// Some declared job carries the given name.
pub open spec fn has_job(jobs: Seq<Job>, name: Seq<char>) -> bool {
    exists|i: int| 0 <= i < jobs.len() && #[trigger] jobs[i].name@ == name
}

/// Every job-reference step among `steps` targets a declared job.
pub open spec fn step_targets_exist(jobs: Seq<Job>, steps: Seq<Step>) -> bool {
    forall|k: int|
        0 <= k < steps.len() ==> match #[trigger] steps[k] {
            Step::Job { job, .. } => has_job(jobs, job@),
            Step::Command(_) => true,
        }
}

/// The iteration policy of `j` is well-formed: a range must have a nonzero
/// step agreeing with the range's direction.
pub open spec fn iters_ok(j: Job) -> bool {
    match j.iters {
        Iteration::Range { from, to, by } => range_ok(
            if from is Some {
                from->0 as int
            } else {
                0
            },
            to as int,
            if by is Some {
                by->0 as int
            } else {
                1
            },
        ),
        _ => true,
    }
}

/// Every template transform of `j` splits into exactly two non-empty
/// segments.
pub open spec fn templates_ok(j: Job) -> bool {
    match j.templates {
        Some(ts) => forall|k: int|
            0 <= k < ts.len() ==> nonempty_segments(#[trigger] ts[k]@).len() == 2,
        None => true,
    }
}

/// Some step or dependency of `j` is a job reference to `target`.
pub open spec fn job_refs(j: Job, target: Seq<char>) -> bool {
    ||| (j.depends matches Some(d) && exists|k: int|
        0 <= k < d@.len() && (match #[trigger] d@[k] {
            Step::Job { job, .. } => job@ == target,
            _ => false,
        }))
    ||| (j.steps matches Some(ss) && exists|k: int|
        0 <= k < ss@.len() && (match #[trigger] ss@[k] {
            Step::Job { job, .. } => job@ == target,
            _ => false,
        }))
}

/// One job passes validation against the declared job set.
pub open spec fn job_ok(jobs: Seq<Job>, j: Job) -> bool {
    &&& !(j.depends is None && j.steps is None)
    &&& (j.depends matches Some(d) ==> step_targets_exist(jobs, d@))
    &&& (j.steps matches Some(s) ==> step_targets_exist(jobs, s@))
    &&& templates_ok(j)
    &&& iters_ok(j)
}

/// The whole configuration passes validation.
pub open spec fn config_valid(c: &Config) -> bool {
    &&& names_unique(c.jobs@)
    &&& forall|i: int| 0 <= i < c.jobs@.len() ==> job_ok(c.jobs@, #[trigger] c.jobs@[i])
}

/// Whether a job with the characters of `name` is declared.
fn job_exists(jobs: &Vec<Job>, name: &str) -> (b: bool)
    ensures
        b == has_job(jobs@, name@),
{
    let mut i: usize = 0;
    while i < jobs.len()
        invariant
            i <= jobs@.len(),
            forall|k: int| 0 <= k < i ==> #[trigger] jobs@[k].name@ != name@,
        decreases jobs@.len() - i,
    {
        if str_eq(jobs[i].name.as_str(), name) {
            return true;
        }
        i = i + 1;
    }
    false
}

/// Check that every job reference among `steps` targets a declared job; hand
/// back the first missing target.
fn check_step_targets(jobs: &Vec<Job>, steps: &Vec<Step>) -> (r: Option<String>)
    ensures
        r is None <==> step_targets_exist(jobs@, steps@),
        r matches Some(t) ==> !has_job(jobs@, t@) && (exists|k: int|
            0 <= k < steps@.len() && (match #[trigger] steps@[k] {
                Step::Job { job, .. } => job@ == t@,
                _ => false,
            })),
{
    let mut k: usize = 0;
    while k < steps.len()
        invariant
            k <= steps@.len(),
            forall|m: int|
                0 <= m < k ==> match #[trigger] steps@[m] {
                    Step::Job { job, .. } => has_job(jobs@, job@),
                    Step::Command(_) => true,
                },
        decreases steps@.len() - k,
    {
        match &steps[k] {
            Step::Job { job: target, .. } => {
                if !job_exists(jobs, target.as_str()) {
                    let t = target.clone();
                    proof {
                        assert(match steps@[k as int] {
                            Step::Job { job, .. } => job@ == t@,
                            _ => false,
                        });
                    }
                    return Some(t);
                }
            },
            Step::Command(_) => {},
        }
        k = k + 1;
    }
    None
}

impl Config {
    /// The directory where the configuration file is located.
    pub fn dir(&self) -> (r: String)
        ensures
            r@ == parent_dir_of(self.path@) || (r@.len() == 0 && parent_dir_of(
                self.path@,
            ).len() == 0),
    {
        match path_parent(self.path.as_str()) {
            Some(s) => s,
            None => String::new(),
        }
    }

    /// Perform a healthcheck for the configuration.
    ///
    /// The following checks are performed on every job:
    /// * the job names are not duplicated;
    /// * every job declares steps or dependencies;
    /// * all jobs referenced from a step or dependency exist;
    /// * template-transform paths are not malformed;
    /// * the ranges of the iterations are not malformed.
    ///
    /// Validation succeeds exactly on valid configurations, and a reported
    /// fault names a job that indeed has that fault.
    pub fn check(&self) -> (r: Result<(), ConfigError>)
        ensures
            r is Ok <==> config_valid(self),
            r == Err::<(), ConfigError>(ConfigError::DuplicatedJobNames) <==> !names_unique(
                self.jobs@,
            ),
            r matches Err(ConfigError::NoStepsOrDependencies { job }) ==> exists|i: int|
                0 <= i < self.jobs@.len() && #[trigger] self.jobs@[i].name@ == job@
                    && self.jobs@[i].depends is None && self.jobs@[i].steps is None,
            r matches Err(ConfigError::MissingJobRef { job, target }) ==> !has_job(
                self.jobs@,
                target@,
            ) && (exists|i: int|
                0 <= i < self.jobs@.len() && #[trigger] self.jobs@[i].name@ == job@ && job_refs(
                    self.jobs@[i],
                    target@,
                )),
            r matches Err(ConfigError::MalformedTemplate { job, template, error })
                ==> nonempty_segments(template@).len() != 2 && (exists|i: int|
                0 <= i < self.jobs@.len() && #[trigger] self.jobs@[i].name@ == job@
                    && self.jobs@[i].templates is Some && (exists|k: int|
                    0 <= k < self.jobs@[i].templates->0@.len()
                        && self.jobs@[i].templates->0@[k]@ == template@)),
            r matches Err(ConfigError::MalformedRange { job }) ==> exists|i: int|
                0 <= i < self.jobs@.len() && #[trigger] self.jobs@[i].name@ == job@ && !iters_ok(
                    self.jobs@[i],
                ),
    {
        let n = self.jobs.len();
        let mut i: usize = 0;
        while i < n
            invariant
                n == self.jobs@.len(),
                i <= n,
                forall|a: int, b: int|
                    0 <= a < b < n && a < i ==> #[trigger] self.jobs@[a].name@
                        != #[trigger] self.jobs@[b].name@,
            decreases n - i,
        {
            let mut j: usize = i + 1;
            while j < n
                invariant
                    n == self.jobs@.len(),
                    i < j,
                    i < n,
                    j <= n,
                    forall|b: int|
                        i < b < j ==> #[trigger] self.jobs@[i as int].name@ != self.jobs@[b].name@,
                decreases n - j,
            {
                if str_eq(self.jobs[i].name.as_str(), self.jobs[j].name.as_str()) {
                    proof {
                        assert(self.jobs@[i as int].name@ == self.jobs@[j as int].name@);
                        assert(!names_unique(self.jobs@));
                    }
                    return Err(ConfigError::DuplicatedJobNames);
                }
                j = j + 1;
            }
            i = i + 1;
        }
        let mut i: usize = 0;
        while i < n
            invariant
                n == self.jobs@.len(),
                i <= n,
                names_unique(self.jobs@),
                forall|k: int| 0 <= k < i ==> job_ok(self.jobs@, #[trigger] self.jobs@[k]),
            decreases n - i,
        {
            let job = &self.jobs[i];
            if job.depends.is_none() && job.steps.is_none() {
                let name = job.name.clone();
                proof {
                    assert(self.jobs@[i as int].name@ == name@ && self.jobs@[i as int].depends
                        is None && self.jobs@[i as int].steps is None);
                }
                return Err(ConfigError::NoStepsOrDependencies { job: name });
            }
            if let Some(depends) = &job.depends {
                if let Some(target) = check_step_targets(&self.jobs, depends) {
                    let name = job.name.clone();
                    proof {
                        assert(self.jobs@[i as int].name@ == name@ && job_refs(
                            self.jobs@[i as int],
                            target@,
                        ));
                    }
                    return Err(ConfigError::MissingJobRef { job: name, target });
                }
            }
            if let Some(steps) = &job.steps {
                if let Some(target) = check_step_targets(&self.jobs, steps) {
                    let name = job.name.clone();
                    proof {
                        assert(self.jobs@[i as int].name@ == name@ && job_refs(
                            self.jobs@[i as int],
                            target@,
                        ));
                    }
                    return Err(ConfigError::MissingJobRef { job: name, target });
                }
            }
            if let Some(templates) = &job.templates {
                let mut k: usize = 0;
                while k < templates.len()
                    invariant
                        k <= templates@.len(),
                        names_unique(self.jobs@),
                        self.jobs@[i as int].templates is Some,
                        templates@ == self.jobs@[i as int].templates->0@,
                        i < self.jobs@.len(),
                        forall|m: int|
                            0 <= m < k ==> nonempty_segments(
                                #[trigger] templates@[m]@,
                            ).len() == 2,
                    decreases templates@.len() - k,
                {
                    if let Err(error) = Job::resolve_template(templates[k].as_str()) {
                        let name = self.jobs[i].name.clone();
                        let template = templates[k].clone();
                        proof {
                            let ghost ts = self.jobs@[i as int].templates->0;
                            assert(!templates_ok(self.jobs@[i as int])) by {
                                assert(self.jobs@[i as int].templates is Some);
                                assert(ts@ == templates@);
                                assert((k as int) < ts@.len());
                                assert(nonempty_segments(ts[k as int]@).len() != 2);
                            }
                            assert(!job_ok(self.jobs@, self.jobs@[i as int]));
                            assert(self.jobs@[i as int].name@ == name@);
                            assert(self.jobs@[i as int].templates->0@[k as int]@ == template@);
                        }
                        return Err(ConfigError::MalformedTemplate {
                            job: name,
                            template,
                            error,
                        });
                    }
                    k = k + 1;
                }
            }
            if let Iteration::Range { from, to, by } = &job.iters {
                let start: i64 = match from {
                    Some(f) => *f,
                    None => 0,
                };
                let step: i64 = match by {
                    Some(b) => *b,
                    None => 1,
                };
                let end: i64 = *to;
                if step == 0 || (step > 0 && end < start) || (step < 0 && end > start) {
                    let name = job.name.clone();
                    proof {
                        assert(self.jobs@[i as int].name@ == name@ && !iters_ok(
                            self.jobs@[i as int],
                        ));
                    }
                    return Err(ConfigError::MalformedRange { job: name });
                }
            }
            i = i + 1;
        }
        Ok(())
    }
}

} // verus!
