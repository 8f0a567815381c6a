use monaco::bindings::Bindings;
use monaco::config::Config;
use monaco::job::{Iteration, Job, LogOutput, Step};
use monaco::runner::{Action, Event, LogTarget, Notice, Op, Runner};
use monaco::value::Value;

fn config_of(jobs: Vec<Job>) -> Config {
    Config {
        path: String::new(),
        env: Bindings::new(),
        dotenv: false,
        props: Bindings::new(),
        props_file: None,
        log: None,
        jobs,
    }
}

fn command_job(name: &str, bodies: &[&str]) -> Job {
    let mut j = Job::default();
    j.name = name.to_string();
    j.steps = Some(bodies.iter().map(|b| Step::Command(b.to_string())).collect());
    j
}

fn runner_of(jobs: Vec<Job>) -> Runner {
    let config = config_of(jobs);
    assert!(config.check().is_ok(), "test configuration must validate");
    Runner::from_config(config, String::new())
}

#[derive(Default)]
struct Trace {
    commands: Vec<String>,
    command_envs: Vec<Vec<(String, String)>>,
    command_logs: Vec<LogTarget>,
    render_iters: Vec<Option<Value>>,
    writes: Vec<(String, String)>,
    spawned: usize,
    notes: Vec<Notice>,
}

/// Drive the engine with an identity renderer until the run is done; a
/// command fails exactly when its body is listed in `fail_bodies`.
fn drive(r: &mut Runner, first: Action, fail_bodies: &[&str]) -> (bool, Trace) {
    let mut trace = Trace::default();
    let mut act = first;
    for _ in 0..100000 {
        for n in act.notes {
            trace.notes.push(n);
        }
        let ev = match act.op {
            Op::Done { ok } => return (ok, trace),
            Op::Proceed => Event::Ack,
            Op::Render { template, data } => {
                trace.render_iters.push(data.iter);
                Event::Rendered(Ok(template))
            }
            Op::RunCommand { body, env, log, .. } => {
                trace.spawned += 1;
                let ok = !fail_bodies.contains(&body.as_str());
                trace.commands.push(body);
                trace.command_envs.push(env.pairs);
                trace.command_logs.push(log);
                Event::CommandDone(ok)
            }
            Op::ReadIters { .. } => Event::IterValues(Err("no file".to_string())),
            Op::ReadText { .. } => Event::TextRead(Ok("file {{x}}".to_string())),
            Op::WriteText { path, content } => {
                trace.writes.push((path, content));
                Event::Written(true)
            }
        };
        act = r.next(ev);
    }
    panic!("the run did not finish");
}

#[test]
fn single_run_executes_once_without_iteration_value() {
    let mut r = runner_of(vec![command_job("A", &["c"])]);
    let first = r.start_job(0);
    let (ok, trace) = drive(&mut r, first, &[]);
    assert!(ok);
    assert_eq!(trace.commands, vec!["c"]);
    assert!(trace.render_iters.iter().all(|i| i.is_none()));
}

#[test]
fn attempted_job_does_not_run_again() {
    let mut r = runner_of(vec![command_job("A", &["c"])]);
    assert!(r.should_run_flag(0));
    let first = r.start_job(0);
    let (ok, _) = drive(&mut r, first, &[]);
    assert!(ok);
    assert!(!r.should_run_flag(0));
    let first = r.start_job(0);
    let (ok, trace) = drive(&mut r, first, &[]);
    assert!(ok);
    assert_eq!(trace.commands, Vec::<String>::new());
    assert!(trace.notes.contains(&Notice::AlreadyExecuted));
}

#[test]
fn guard_conditions_override_the_flag() {
    let mut j = command_job("A", &["c"]);
    j.when = Some(vec!["g".to_string()]);
    let mut r = runner_of(vec![j]);
    let first = r.start_job(0);
    let (_, trace) = drive(&mut r, first, &[]);
    assert_eq!(trace.commands, vec!["g", "c"]);
    // the guard runs again on every invocation, even after the attempt
    let first = r.start_job(0);
    let (_, trace) = drive(&mut r, first, &[]);
    assert_eq!(trace.commands, vec!["g", "c"]);
}

#[test]
fn failing_guard_skips_the_job() {
    let mut j = command_job("A", &["c"]);
    j.when = Some(vec!["g".to_string()]);
    let mut r = runner_of(vec![j]);
    let first = r.start_job(0);
    let (ok, trace) = drive(&mut r, first, &["g"]);
    assert!(ok);
    assert_eq!(trace.commands, vec!["g"]);
    assert!(trace.notes.contains(&Notice::AlreadyExecuted));
}

#[test]
fn step_failure_aborts_remaining_steps() {
    let mut r = runner_of(vec![command_job("A", &["c1", "c2", "c3"])]);
    let first = r.start_job(0);
    let (ok, trace) = drive(&mut r, first, &["c2"]);
    assert!(!ok);
    assert_eq!(trace.commands, vec!["c1", "c2"]);
    assert!(trace.notes.contains(&Notice::StepFailed));
    // the job still counts as attempted
    assert!(!r.should_run_flag(0));
}

#[test]
fn ignored_errors_continue_to_the_last_step() {
    let mut j = command_job("A", &["c1", "c2", "c3"]);
    j.ignore_errors = true;
    let mut r = runner_of(vec![j]);
    let first = r.start_job(0);
    let (ok, trace) = drive(&mut r, first, &["c2"]);
    assert_eq!(trace.commands, vec!["c1", "c2", "c3"]);
    // the overall report follows the last evaluated step
    assert!(ok);
    assert!(!r.should_run_flag(0));
}

#[test]
fn ignored_errors_surface_a_failing_last_step() {
    let mut j = command_job("A", &["c1", "c2", "c3"]);
    j.ignore_errors = true;
    let mut r = runner_of(vec![j]);
    let first = r.start_job(0);
    let (ok, trace) = drive(&mut r, first, &["c2", "c3"]);
    assert_eq!(trace.commands, vec!["c1", "c2", "c3"]);
    assert!(!ok);
}

#[test]
fn dry_run_spawns_nothing_but_renders() {
    let mut r = runner_of(vec![command_job("A", &["c1", "c2"])]);
    r.dry_mode = true;
    let first = r.start_job(0);
    let (ok, trace) = drive(&mut r, first, &["c1", "c2"]);
    assert!(ok);
    assert_eq!(trace.spawned, 0);
    assert!(trace.notes.contains(&Notice::DryRun { body: "c1".to_string() }));
    assert!(trace.notes.contains(&Notice::DryRun { body: "c2".to_string() }));
}

#[test]
fn dependency_job_runs_fully_before_the_steps() {
    let mut a = Job::default();
    a.name = "A".to_string();
    a.depends = Some(vec![]);
    let mut b = command_job("B", &["b1"]);
    b.depends = Some(vec![Step::Job { job: "A".to_string(), props: None, env: None }]);
    let mut r = runner_of(vec![a, b]);
    let first = r.start_job(1);
    let (ok, trace) = drive(&mut r, first, &[]);
    assert!(ok);
    assert_eq!(trace.commands, vec!["b1"]);
    // A was fully attempted: its flag is set even though it had no steps
    assert!(!r.should_run_flag(0));
    assert!(trace.notes.contains(&Notice::LoadingJob { job: "A".to_string() }));
}

#[test]
fn failing_dependency_job_aborts_the_parent() {
    let a = command_job("A", &["a1"]);
    let mut b = command_job("B", &["b1"]);
    b.depends = Some(vec![Step::Job { job: "A".to_string(), props: None, env: None }]);
    let mut r = runner_of(vec![a, b]);
    let first = r.start_job(1);
    let (ok, trace) = drive(&mut r, first, &["a1"]);
    assert!(!ok);
    assert_eq!(trace.commands, vec!["a1"]);
}

#[test]
fn failing_command_dependency_is_observed_only() {
    let mut b = command_job("B", &["b1"]);
    b.depends = Some(vec![Step::Command("d1".to_string())]);
    let mut r = runner_of(vec![b]);
    let first = r.start_job(0);
    let (ok, trace) = drive(&mut r, first, &["d1"]);
    assert!(ok);
    assert_eq!(trace.commands, vec!["d1", "b1"]);
}

#[test]
fn value_list_drives_the_iterations_in_order() {
    let mut j = command_job("A", &["s"]);
    j.iters = Iteration::Values(vec![Value::Int(1), Value::Int(2), Value::Int(3)]);
    let mut r = runner_of(vec![j]);
    let first = r.start_job(0);
    let (ok, trace) = drive(&mut r, first, &[]);
    assert!(ok);
    assert_eq!(trace.commands, vec!["s", "s", "s"]);
    assert_eq!(
        trace.render_iters,
        vec![Some(Value::Int(1)), Some(Value::Int(2)), Some(Value::Int(3))]
    );
}

#[test]
fn job_reference_step_merges_overrides() {
    let c = command_job("C", &["c"]);
    let mut over = Bindings::new();
    over.push("K".to_string(), "V".to_string());
    let mut p = Job::default();
    p.name = "P".to_string();
    p.steps = Some(vec![Step::Job { job: "C".to_string(), props: None, env: Some(over) }]);
    let mut r = runner_of(vec![c, p]);
    let first = r.start_job(1);
    let (ok, trace) = drive(&mut r, first, &[]);
    assert!(ok);
    assert_eq!(trace.commands, vec!["c"]);
    assert!(trace.command_envs[0].contains(&("K".to_string(), "V".to_string())));
}

#[test]
fn template_transform_reads_renders_and_writes() {
    let mut j = command_job("A", &["s"]);
    j.templates = Some(vec!["in:out".to_string()]);
    let mut r = runner_of(vec![j]);
    let first = r.start_job(0);
    let (ok, trace) = drive(&mut r, first, &[]);
    assert!(ok);
    // the file's text is itself rendered before being written
    assert_eq!(trace.writes, vec![("out".to_string(), "file {{x}}".to_string())]);
    assert_eq!(trace.commands, vec!["s"]);
    assert!(trace.notes.contains(&Notice::Template {
        input: "in".to_string(),
        output: "out".to_string()
    }));
}

#[test]
fn run_all_is_not_stopped_by_a_failure() {
    let a = command_job("A", &["a1"]);
    let b = command_job("B", &["b1"]);
    let mut r = runner_of(vec![a, b]);
    let first = r.start_all();
    let (ok, trace) = drive(&mut r, first, &["a1"]);
    assert!(ok);
    assert_eq!(trace.commands, vec!["a1", "b1"]);
}

#[test]
fn unreadable_iteration_file_fails_the_job() {
    let mut j = command_job("A", &["s"]);
    j.iters = Iteration::File("vals.json".to_string());
    let mut r = runner_of(vec![j]);
    let first = r.start_job(0);
    let (ok, trace) = drive(&mut r, first, &[]);
    assert!(!ok);
    assert_eq!(trace.commands, Vec::<String>::new());
    assert!(trace
        .notes
        .contains(&Notice::BadIterationFile { path: "vals.json".to_string() }));
}

#[test]
fn log_file_path_is_rendered_per_command() {
    let mut j = command_job("A", &["s"]);
    j.log = Some(LogOutput::Filepath("step.log".to_string()));
    let mut r = runner_of(vec![j]);
    let first = r.start_job(0);
    let (ok, trace) = drive(&mut r, first, &[]);
    assert!(ok);
    assert_eq!(trace.command_logs, vec![LogTarget::Append("step.log".to_string())]);
}

#[test]
fn discarded_output_is_requested() {
    let mut j = command_job("A", &["s"]);
    j.log = Some(LogOutput::ToStdout(false));
    let mut r = runner_of(vec![j]);
    let first = r.start_job(0);
    let (_, trace) = drive(&mut r, first, &[]);
    assert_eq!(trace.command_logs, vec![LogTarget::Discard]);
}

#[test]
fn job_environment_shadows_the_global_one() {
    let mut j = command_job("A", &["s"]);
    j.env.push("K".to_string(), "job".to_string());
    let mut config = config_of(vec![j]);
    config.env.push("G".to_string(), "1".to_string());
    config.env.push("K".to_string(), "global".to_string());
    assert!(config.check().is_ok());
    let mut r = Runner::from_config(config, String::new());
    let first = r.start_job(0);
    let (_, trace) = drive(&mut r, first, &[]);
    let pairs = &trace.command_envs[0];
    assert!(pairs.contains(&("G".to_string(), "1".to_string())));
    // the job's binding comes after the global one and therefore wins
    let global_at = pairs.iter().position(|p| p == &("K".to_string(), "global".to_string()));
    let job_at = pairs.iter().position(|p| p == &("K".to_string(), "job".to_string()));
    assert!(global_at.unwrap() < job_at.unwrap());
}

#[test]
fn defaults_follow_the_declared_policies() {
    let j = Job::default();
    assert!(matches!(j.iters, Iteration::Loop(false)));
    assert!(matches!(
        monaco::job::ExecutionType::default(),
        monaco::job::ExecutionType::Parallel(false)
    ));
    assert!(matches!(LogOutput::default(), LogOutput::ToStdout(true)));
    assert!(matches!(
        monaco::job::StepLog::default(),
        monaco::job::StepLog::ToStdout(true)
    ));
    assert!(!j.ignore_errors);
}

#[test]
fn message_is_rendered_and_reported_each_iteration() {
    let mut j = command_job("A", &["s"]);
    j.message = Some("running {{job}}".to_string());
    j.iters = Iteration::Values(vec![Value::Int(1), Value::Int(2)]);
    let mut r = runner_of(vec![j]);
    let first = r.start_job(0);
    let (_, trace) = drive(&mut r, first, &[]);
    let messages: Vec<&Notice> = trace
        .notes
        .iter()
        .filter(|n| matches!(n, Notice::Message { .. }))
        .collect();
    assert_eq!(messages.len(), 2);
}
