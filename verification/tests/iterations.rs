use monaco::job::{IterError, IterPlan, Iteration, Job};
use monaco::value::Value;

fn job_with_iters(iters: Iteration) -> Job {
    let mut j = Job::default();
    j.name = "it".to_string();
    j.iters = iters;
    j
}

fn plan_ints(plan: IterPlan) -> Vec<i64> {
    match plan {
        IterPlan::Values(vs) => vs
            .into_iter()
            .map(|v| match v {
                Value::Int(i) => i,
                other => panic!("not an integer value: {:?}", other),
            })
            .collect(),
        other => panic!("not a value list: {:?}", other),
    }
}

#[test]
fn range_ascending_with_step() {
    let j = job_with_iters(Iteration::Range { from: Some(0), to: 10, by: Some(3) });
    assert_eq!(plan_ints(j.resolve_iters().unwrap()), vec![0, 3, 6, 9]);
}

#[test]
fn range_descending_with_step() {
    let j = job_with_iters(Iteration::Range { from: Some(10), to: 0, by: Some(-3) });
    assert_eq!(plan_ints(j.resolve_iters().unwrap()), vec![10, 7, 4, 1]);
}

#[test]
fn range_defaults() {
    let j = job_with_iters(Iteration::Range { from: None, to: 5, by: None });
    assert_eq!(plan_ints(j.resolve_iters().unwrap()), vec![0, 1, 2, 3, 4]);
}

#[test]
fn range_empty_when_bounds_meet() {
    let j = job_with_iters(Iteration::Range { from: Some(4), to: 4, by: Some(1) });
    assert_eq!(plan_ints(j.resolve_iters().unwrap()), Vec::<i64>::new());
}

#[test]
fn range_zero_step_is_malformed() {
    let j = job_with_iters(Iteration::Range { from: Some(0), to: 10, by: Some(0) });
    assert_eq!(j.resolve_iters(), Err(IterError::MalformedRange));
}

#[test]
fn range_sign_mismatch_is_malformed() {
    let j = job_with_iters(Iteration::Range { from: Some(0), to: 10, by: Some(-1) });
    assert_eq!(j.resolve_iters(), Err(IterError::MalformedRange));
    let j = job_with_iters(Iteration::Range { from: Some(10), to: 0, by: Some(1) });
    assert_eq!(j.resolve_iters(), Err(IterError::MalformedRange));
}

#[test]
fn value_list_in_order() {
    let j = job_with_iters(Iteration::Values(vec![
        Value::Int(1),
        Value::Int(2),
        Value::Int(3),
    ]));
    assert_eq!(plan_ints(j.resolve_iters().unwrap()), vec![1, 2, 3]);
}

#[test]
fn value_list_keeps_shapes() {
    let j = job_with_iters(Iteration::Values(vec![
        Value::Str("a".to_string()),
        Value::Bool(true),
        Value::Null,
    ]));
    match j.resolve_iters().unwrap() {
        IterPlan::Values(vs) => {
            assert_eq!(
                vs,
                vec![Value::Str("a".to_string()), Value::Bool(true), Value::Null]
            );
        }
        other => panic!("unexpected plan: {:?}", other),
    }
}

#[test]
fn default_policy_is_single_run() {
    let j = Job::default();
    assert_eq!(j.resolve_iters(), Ok(IterPlan::Once));
}

#[test]
fn loop_policy_is_infinite() {
    let j = job_with_iters(Iteration::Loop(true));
    assert_eq!(j.resolve_iters(), Ok(IterPlan::Infinite));
}

#[test]
fn file_policy_defers_to_driver() {
    let j = job_with_iters(Iteration::File("vals.json".to_string()));
    assert_eq!(j.resolve_iters(), Ok(IterPlan::FromFile("vals.json".to_string())));
}
