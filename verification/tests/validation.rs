use monaco::bindings::Bindings;
use monaco::config::{Config, ConfigError};
use monaco::job::{Iteration, Job, Step, TemplateError};

fn config_of(jobs: Vec<Job>) -> Config {
    Config {
        path: String::new(),
        env: Bindings::new(),
        dotenv: false,
        props: Bindings::new(),
        props_file: None,
        log: None,
        jobs,
    }
}

fn named_job(name: &str) -> Job {
    let mut j = Job::default();
    j.name = name.to_string();
    j.steps = Some(vec![Step::Command("true".to_string())]);
    j
}

#[test]
fn duplicate_names_rejected() {
    let c = config_of(vec![named_job("A"), named_job("A")]);
    assert_eq!(c.check(), Err(ConfigError::DuplicatedJobNames));
}

#[test]
fn distinct_names_accepted() {
    let c = config_of(vec![named_job("A"), named_job("B")]);
    assert_eq!(c.check(), Ok(()));
}

#[test]
fn missing_job_ref_in_depends_rejected() {
    let mut a = named_job("A");
    a.depends = Some(vec![Step::Job { job: "GHOST".to_string(), props: None, env: None }]);
    let c = config_of(vec![a]);
    assert_eq!(
        c.check(),
        Err(ConfigError::MissingJobRef { job: "A".to_string(), target: "GHOST".to_string() })
    );
}

#[test]
fn missing_job_ref_in_steps_rejected() {
    let mut a = named_job("A");
    a.steps = Some(vec![Step::Job { job: "GHOST".to_string(), props: None, env: None }]);
    let c = config_of(vec![a]);
    assert_eq!(
        c.check(),
        Err(ConfigError::MissingJobRef { job: "A".to_string(), target: "GHOST".to_string() })
    );
}

#[test]
fn present_job_ref_accepted() {
    let mut a = named_job("A");
    a.depends = Some(vec![Step::Job { job: "B".to_string(), props: None, env: None }]);
    let c = config_of(vec![a, named_job("B")]);
    assert_eq!(c.check(), Ok(()));
}

#[test]
fn no_steps_or_dependencies_rejected() {
    let mut a = Job::default();
    a.name = "A".to_string();
    let c = config_of(vec![a]);
    assert_eq!(c.check(), Err(ConfigError::NoStepsOrDependencies { job: "A".to_string() }));
}

#[test]
fn malformed_template_rejected() {
    let mut a = named_job("A");
    a.templates = Some(vec!["a:b:c".to_string()]);
    let c = config_of(vec![a]);
    assert_eq!(
        c.check(),
        Err(ConfigError::MalformedTemplate {
            job: "A".to_string(),
            template: "a:b:c".to_string(),
            error: TemplateError::ExtraPart,
        })
    );
}

#[test]
fn malformed_range_rejected_before_execution() {
    let mut a = named_job("A");
    a.iters = Iteration::Range { from: Some(0), to: 10, by: Some(0) };
    let c = config_of(vec![a]);
    assert_eq!(c.check(), Err(ConfigError::MalformedRange { job: "A".to_string() }));
}

#[test]
fn well_formed_range_accepted() {
    let mut a = named_job("A");
    a.iters = Iteration::Range { from: Some(0), to: 10, by: Some(2) };
    let c = config_of(vec![a]);
    assert_eq!(c.check(), Ok(()));
}

#[test]
fn config_dir_is_parent_of_path() {
    let mut c = config_of(vec![]);
    c.path = "/tmp/conf/jobs.yml".to_string();
    assert_eq!(c.dir(), "/tmp/conf");
}
