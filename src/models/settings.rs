//! User settings and their defaults.
use vstd::prelude::*;

verus! {

#[derive(Debug, Clone)]
pub struct AppSettings {
    pub project_path: String,
    pub default_scope: String,
    pub stop_on_first_failure: bool,
    pub notify_on_completion: bool,
    pub notify_only_on_failure: bool,
    pub retain_last_runs: i32,
}

impl Default for AppSettings {
    /// No project, scope "all", notify on completion, keep the last 50 runs.
    fn default() -> (r: AppSettings)
        ensures
            r.project_path@ == Seq::<char>::empty(),
            r.default_scope@ == "all"@,
            !r.stop_on_first_failure,
            r.notify_on_completion,
            !r.notify_only_on_failure,
            r.retain_last_runs == 50,
    {
        AppSettings {
            project_path: String::new(),
            default_scope: String::from_str("all"),
            stop_on_first_failure: false,
            notify_on_completion: true,
            notify_only_on_failure: false,
            retain_last_runs: 50,
        }
    }
}

} // verus!
