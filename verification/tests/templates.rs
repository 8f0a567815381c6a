use monaco::job::{Job, StepLog, TemplateError, resolve_log};

#[test]
fn two_segments_split() {
    let (input, output) = Job::resolve_template("a:b").unwrap();
    assert_eq!(input, "a");
    assert_eq!(output, "b");
}

#[test]
fn paths_split_on_colon() {
    let (input, output) = Job::resolve_template("{{dir}}/in.txt:{{dir}}/out.txt").unwrap();
    assert_eq!(input, "{{dir}}/in.txt");
    assert_eq!(output, "{{dir}}/out.txt");
}

#[test]
fn three_segments_rejected() {
    assert_eq!(Job::resolve_template("a:b:c"), Err(TemplateError::ExtraPart));
}

#[test]
fn one_segment_rejected() {
    assert_eq!(Job::resolve_template("a:"), Err(TemplateError::MissingPart));
    assert_eq!(Job::resolve_template("ab"), Err(TemplateError::MissingPart));
}

#[test]
fn empty_segments_are_dropped() {
    let (input, output) = Job::resolve_template("a::b").unwrap();
    assert_eq!(input, "a");
    assert_eq!(output, "b");
}

#[test]
fn empty_template_rejected() {
    assert_eq!(Job::resolve_template(""), Err(TemplateError::ExtraPart));
    assert_eq!(Job::resolve_template(":"), Err(TemplateError::ExtraPart));
}

#[test]
fn job_log_overrides_global() {
    let global = StepLog::ToStdout(true);
    let local = Some(StepLog::Filepath("out.log".to_string()));
    assert_eq!(resolve_log(&global, &local), StepLog::Filepath("out.log".to_string()));
}

#[test]
fn global_log_is_the_default() {
    let global = StepLog::ToStdout(false);
    assert_eq!(resolve_log(&global, &None), StepLog::ToStdout(false));
}
