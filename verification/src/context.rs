//! The template context: the variable bag passed to every render call.

use vstd::prelude::*;

use crate::bindings::Bindings;
use crate::value::Value;

verus! {

/// Two contexts hold the same variables: every field agrees, the binding
/// lists by their pair sequences.
pub open spec fn same_context(a: TemplateData, b: TemplateData) -> bool {
    &&& a.job == b.job
    &&& a.config_dir == b.config_dir
    &&& a.dir == b.dir
    &&& a.iter == b.iter
    &&& a.thread == b.thread
    &&& a.env.pairs@ == b.env.pairs@
    &&& a.props.pairs@ == b.props.pairs@
}

/// The variables available to template rendering for one job, iteration and
/// worker.
pub struct TemplateData {
    /// Current job.
    pub job: String,
    /// Directory where the configuration is read from.
    pub config_dir: String,
    /// Directory of execution.
    pub dir: Option<String>,
    /// Current iteration value; absent for a single run.
    pub iter: Option<Value>,
    /// The worker index when executing in parallel; 0 for sequential
    /// execution.
    pub thread: i32,
    /// Shell environment.
    pub env: Bindings<String>,
    /// Properties.
    pub props: Bindings<Value>,
}

impl TemplateData {
    /// An empty context.
    pub fn fresh() -> (r: Self)
        ensures
            r.job@ == Seq::<char>::empty(),
            r.config_dir@ == Seq::<char>::empty(),
            r.dir is None,
            r.iter is None,
            r.thread == 0,
            r.env.pairs@ == Seq::<(String, String)>::empty(),
            r.props.pairs@ == Seq::<(String, Value)>::empty(),
    {
        TemplateData {
            job: String::new(),
            config_dir: String::new(),
            dir: None,
            iter: None,
            thread: 0,
            env: Bindings::new(),
            props: Bindings::new(),
        }
    }
}

impl Clone for TemplateData {
    fn clone(&self) -> (res: Self)
        ensures
            res.job == self.job,
            res.config_dir == self.config_dir,
            res.dir == self.dir,
            res.iter == self.iter,
            res.thread == self.thread,
            res.env.pairs@ == self.env.pairs@,
            res.props.pairs@ == self.props.pairs@,
    {
        TemplateData {
            job: self.job.clone(),
            config_dir: self.config_dir.clone(),
            dir: match &self.dir {
                Some(d) => Some(d.clone()),
                None => None,
            },
            iter: match &self.iter {
                Some(v) => Some(v.clone()),
                None => None,
            },
            thread: self.thread,
            env: self.env.clone(),
            props: self.props.clone(),
        }
    }
}

} // verus!
