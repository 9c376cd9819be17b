//! A run request, its flattening into run units, and the coordinator that
//! drives the units one after another.
use crate::execution::swift_test::{build_args as package_build_args, package_test_args};
use crate::execution::xcodebuild::{
    build_args as tool_build_args, build_tool_args, bundle_path, join, join_path, ProjectContainer,
};
use crate::models::run::{opt_text, EventView, TestRunEvent};
use crate::parsing::text::texts;
use vstd::prelude::*;

verus! {

/// What the caller asks to run.
#[derive(Debug, Clone)]
pub struct RunTestsParams {
    pub project_path: String,
    /// Scheme and optional single test target, per run in by-target mode.
    pub scheme_targets: Vec<SchemeTarget>,
    pub packages: Vec<PackageTarget>,
    /// Accepted and handed to the build tool's arguments, where it has no
    /// effect; a run stops early only when it is cancelled.
    pub stop_on_first_failure: bool,
    /// Scheme and test plan, per run in by-plan mode.
    pub test_plan_runs: Vec<TestPlanRun>,
    /// Where the build tool runs the tests; a device identifier is turned
    /// into `id=<identifier>`.
    pub destination: Option<String>,
}

#[derive(Debug, Clone)]
pub struct SchemeTarget {
    pub scheme: String,
    pub only_testing_target: Option<String>,
}

#[derive(Debug, Clone)]
pub struct TestPlanRun {
    pub scheme: String,
    pub test_plan_name: String,
}

#[derive(Debug, Clone)]
pub struct PackageTarget {
    pub path: String,
    pub filter: Option<String>,
}

/// One invocation of a test tool, with the key its completion is reported
/// under.
#[derive(Debug, Clone)]
pub struct RunUnit {
    pub key: String,
    pub program: String,
    pub args: Vec<String>,
    pub working_dir: String,
}

pub struct RunUnitView {
    pub key: Seq<char>,
    pub program: Seq<char>,
    pub args: Seq<Seq<char>>,
    pub working_dir: Seq<char>,
}

impl View for RunUnit {
    type V = RunUnitView;

    open spec fn view(&self) -> RunUnitView {
        RunUnitView {
            key: self.key@,
            program: self.program@,
            args: texts(self.args@),
            working_dir: self.working_dir@,
        }
    }
}

pub open spec fn unit_views(us: Seq<RunUnit>) -> Seq<RunUnitView> {
    us.map_values(|u: RunUnit| u@)
}

/// `scheme`, or `scheme|target` for a single test target.
pub open spec fn scheme_key(st: SchemeTarget) -> Seq<char> {
    match st.only_testing_target {
        Some(t) => st.scheme@ + "|"@ + t@,
        None => st.scheme@,
    }
}

pub open spec fn plan_key(tp: TestPlanRun) -> Seq<char> {
    "plan:"@ + tp.scheme@ + ":"@ + tp.test_plan_name@
}

/// `path`, or `path|filter` with a filter.
pub open spec fn package_key(p: PackageTarget) -> Seq<char> {
    match p.filter {
        Some(f) => p.path@ + "|"@ + f@,
        None => p.path@,
    }
}

pub open spec fn scheme_unit(
    params: RunTestsParams,
    dir: Seq<char>,
    container: Option<ProjectContainer>,
    st: SchemeTarget,
) -> RunUnitView {
    RunUnitView {
        key: scheme_key(st),
        program: "xcodebuild"@,
        args: build_tool_args(
            container,
            st.scheme@,
            bundle_path(dir, st.scheme@),
            opt_text(st.only_testing_target),
            None,
            opt_text(params.destination),
        ),
        working_dir: params.project_path@,
    }
}

pub open spec fn plan_unit(
    params: RunTestsParams,
    dir: Seq<char>,
    container: Option<ProjectContainer>,
    tp: TestPlanRun,
) -> RunUnitView {
    RunUnitView {
        key: plan_key(tp),
        program: "xcodebuild"@,
        args: build_tool_args(
            container,
            tp.scheme@,
            bundle_path(dir, tp.scheme@),
            None,
            Some(tp.test_plan_name@),
            opt_text(params.destination),
        ),
        working_dir: params.project_path@,
    }
}

pub open spec fn package_unit(p: PackageTarget) -> RunUnitView {
    RunUnitView {
        key: package_key(p),
        program: "swift"@,
        args: package_test_args(p.path@, opt_text(p.filter)),
        working_dir: p.path@,
    }
}

/// The units of a request, in the order they run: every scheme target,
/// then every test plan, then every package.
pub open spec fn planned_units(
    params: RunTestsParams,
    dir: Seq<char>,
    container: Option<ProjectContainer>,
) -> Seq<RunUnitView> {
    params.scheme_targets@.map_values(|st: SchemeTarget| scheme_unit(params, dir, container, st))
        + params.test_plan_runs@.map_values(
        |tp: TestPlanRun| plan_unit(params, dir, container, tp),
    ) + params.packages@.map_values(|p: PackageTarget| package_unit(p))
}

fn as_opt_str(o: &Option<String>) -> (r: Option<&str>)
    ensures
        match r {
            Some(s) => opt_text(*o) == Some(s@),
            None => o is None,
        },
{
    match o {
        Some(s) => Some(s.as_str()),
        None => None,
    }
}

fn push_unit(units: &mut Vec<RunUnit>, u: RunUnit)
    ensures
        unit_views(final(units)@) == unit_views(old(units)@).push(u@),
{
    units.push(u);
    assert(unit_views(units@) =~= unit_views(old(units)@).push(u@));
}

/// The directory for one run's result bundles:
/// `<temp_root>/xcode-test-runner/<run_id>`.
pub fn scratch_dir(temp_root: &str, run_id: &str) -> (r: String)
    ensures
        r@ == join_path(join_path(temp_root@, "xcode-test-runner"@), run_id@),
{
    let base = join(temp_root, String::from_str("xcode-test-runner"));
    join(base.as_str(), String::from_str(run_id))
}

/// Flattens a request into its run units (see `planned_units`); result
/// bundles go under `scratch_dir`.
pub fn plan_units(
    params: &RunTestsParams,
    scratch_dir: &str,
    container: &Option<ProjectContainer>,
) -> (r: Vec<RunUnit>)
    ensures
        unit_views(r@) == planned_units(*params, scratch_dir@, *container),
{
    let mut units: Vec<RunUnit> = Vec::new();
    let ghost p = *params;
    let ghost d = scratch_dir@;
    let ghost c = *container;
    let mut i: usize = 0;
    while i < params.scheme_targets.len()
        invariant
            i <= params.scheme_targets@.len(),
            p == *params,
            d == scratch_dir@,
            c == *container,
            unit_views(units@) == params.scheme_targets@.subrange(0, i as int).map_values(
                |st: SchemeTarget| scheme_unit(p, d, c, st),
            ),
        decreases params.scheme_targets@.len() - i,
    {
        let st = &params.scheme_targets[i];
        let key = match &st.only_testing_target {
            Some(t) => st.scheme.clone().concat("|").concat(t.as_str()),
            None => st.scheme.clone(),
        };
        let a = tool_build_args(
            container,
            st.scheme.as_str(),
            scratch_dir,
            params.stop_on_first_failure,
            as_opt_str(&st.only_testing_target),
            None,
            as_opt_str(&params.destination),
        );
        let u = RunUnit {
            key,
            program: String::from_str("xcodebuild"),
            args: a.args,
            working_dir: params.project_path.clone(),
        };
        push_unit(&mut units, u);
        i = i + 1;
        assert(unit_views(units@) =~= params.scheme_targets@.subrange(0, i as int).map_values(
            |st: SchemeTarget| scheme_unit(p, d, c, st),
        ));
    }
    let ghost first = unit_views(units@);
    assert(params.scheme_targets@.subrange(0, i as int) =~= params.scheme_targets@);
    let mut j: usize = 0;
    while j < params.test_plan_runs.len()
        invariant
            j <= params.test_plan_runs@.len(),
            p == *params,
            d == scratch_dir@,
            c == *container,
            unit_views(units@) == first + params.test_plan_runs@.subrange(0, j as int).map_values(
                |tp: TestPlanRun| plan_unit(p, d, c, tp),
            ),
        decreases params.test_plan_runs@.len() - j,
    {
        let tp = &params.test_plan_runs[j];
        let key = String::from_str("plan:").concat(tp.scheme.as_str()).concat(":").concat(
            tp.test_plan_name.as_str(),
        );
        let a = tool_build_args(
            container,
            tp.scheme.as_str(),
            scratch_dir,
            params.stop_on_first_failure,
            None,
            Some(tp.test_plan_name.as_str()),
            as_opt_str(&params.destination),
        );
        let u = RunUnit {
            key,
            program: String::from_str("xcodebuild"),
            args: a.args,
            working_dir: params.project_path.clone(),
        };
        push_unit(&mut units, u);
        j = j + 1;
        assert(unit_views(units@) =~= first + params.test_plan_runs@.subrange(0, j as int).map_values(
            |tp: TestPlanRun| plan_unit(p, d, c, tp),
        ));
    }
    let ghost second = unit_views(units@);
    assert(params.test_plan_runs@.subrange(0, j as int) =~= params.test_plan_runs@);
    let mut k: usize = 0;
    while k < params.packages.len()
        invariant
            k <= params.packages@.len(),
            p == *params,
            d == scratch_dir@,
            c == *container,
            unit_views(units@) == second + params.packages@.subrange(0, k as int).map_values(
                |pk: PackageTarget| package_unit(pk),
            ),
        decreases params.packages@.len() - k,
    {
        let pk = &params.packages[k];
        let key = match &pk.filter {
            Some(f) => pk.path.clone().concat("|").concat(f.as_str()),
            None => pk.path.clone(),
        };
        let args = package_build_args(pk.path.as_str(), as_opt_str(&pk.filter));
        let u = RunUnit {
            key,
            program: String::from_str("swift"),
            args,
            working_dir: pk.path.clone(),
        };
        push_unit(&mut units, u);
        k = k + 1;
        assert(unit_views(units@) =~= second + params.packages@.subrange(0, k as int).map_values(
            |pk: PackageTarget| package_unit(pk),
        ));
    }
    assert(params.packages@.subrange(0, k as int) =~= params.packages@);
    assert(unit_views(units@) =~= planned_units(*params, scratch_dir@, *container));
    units
}

/// Where a run stands between two calls of the coordinator.
#[derive(Debug, Clone, Copy, PartialEq, Eq, Structural)]
pub enum RunPhase {
    /// Ready to choose the next step.
    Ready,
    /// The unit at `next` is running.
    Running,
    /// `RunFinished` has been produced, or the run was aborted.
    Finished,
}

/// What to do next.
#[derive(Debug)]
pub enum RunAction {
    /// Run the unit at this position and report its outcome.
    Launch(usize),
    /// Send this event; the run is over.
    Finish(TestRunEvent),
}

pub open spec fn all_succeeded(outcomes: Seq<bool>) -> bool {
    forall|i: int| 0 <= i < outcomes.len() ==> #[trigger] outcomes[i]
}

/// Drives one run: the units run strictly one after another, in order,
/// until all are done or cancellation is seen before a unit starts.
pub struct RunCoordinator {
    pub run_id: String,
    pub units: Vec<RunUnit>,
    pub next: usize,
    pub overall_success: bool,
    pub phase: RunPhase,
    /// The success of every unit that has completed, in order.
    pub outcomes: Ghost<Seq<bool>>,
}

impl RunCoordinator {
    pub open spec fn wf(&self) -> bool {
        &&& self.next as int == self.outcomes@.len()
        &&& self.next <= self.units@.len()
        &&& self.overall_success == all_succeeded(self.outcomes@)
        &&& self.phase == RunPhase::Running ==> self.next < self.units@.len()
    }

    /// A run of `units` under `run_id` that has not started a unit yet.
    pub fn new(run_id: String, units: Vec<RunUnit>) -> (r: RunCoordinator)
        ensures
            r.wf(),
            r.run_id@ == run_id@,
            unit_views(r.units@) == unit_views(units@),
            r.outcomes@ == Seq::<bool>::empty(),
            r.phase == RunPhase::Ready,
    {
        RunCoordinator {
            run_id,
            units,
            next: 0,
            overall_success: true,
            phase: RunPhase::Ready,
            outcomes: Ghost(Seq::empty()),
        }
    }

    /// The event that opens the run.
    pub fn started_event(&self) -> (r: TestRunEvent)
        ensures
            r@ == (EventView::RunStarted { run_id: self.run_id@ }),
    {
        TestRunEvent::RunStarted { run_id: self.run_id.clone() }
    }

    /// Chooses the next step. Without cancellation and with units left, the
    /// next unit runs; otherwise the run finishes, successful exactly when
    /// every completed unit succeeded. Units after a cancellation are skipped,
    /// not failed.
    pub fn next_action(&mut self, cancelled: bool) -> (r: RunAction)
        requires
            old(self).wf(),
            old(self).phase == RunPhase::Ready,
        ensures
            final(self).wf(),
            final(self).run_id == old(self).run_id,
            final(self).units == old(self).units,
            final(self).outcomes == old(self).outcomes,
            if !cancelled && old(self).next < old(self).units@.len() {
                &&& r == RunAction::Launch(old(self).next)
                &&& final(self).phase == RunPhase::Running
            } else {
                &&& r matches RunAction::Finish(e)
                &&& e@ == (EventView::RunFinished {
                    run_id: old(self).run_id@,
                    success: all_succeeded(old(self).outcomes@),
                })
                &&& final(self).phase == RunPhase::Finished
            },
    {
        if !cancelled && self.next < self.units.len() {
            self.phase = RunPhase::Running;
            RunAction::Launch(self.next)
        } else {
            self.phase = RunPhase::Finished;
            RunAction::Finish(
                TestRunEvent::RunFinished {
                    run_id: self.run_id.clone(),
                    success: self.overall_success,
                },
            )
        }
    }

    /// Records the outcome of the running unit and reports it under the
    /// unit's key.
    pub fn complete_unit(&mut self, success: bool) -> (r: TestRunEvent)
        requires
            old(self).wf(),
            old(self).phase == RunPhase::Running,
        ensures
            final(self).wf(),
            final(self).run_id == old(self).run_id,
            final(self).units == old(self).units,
            final(self).outcomes@ == old(self).outcomes@.push(success),
            final(self).phase == RunPhase::Ready,
            r@ == (EventView::TargetCompleted {
                key: old(self).units@[old(self).next as int].key@,
                success: success,
            }),
    {
        let key = self.units[self.next].key.clone();
        let unit_count = self.units.len();
        assert(self.next < unit_count);
        proof {
            let o = self.outcomes@.push(success);
            assert(all_succeeded(o) == (all_succeeded(self.outcomes@) && success)) by {
                if all_succeeded(self.outcomes@) && success {
                    assert forall|i: int| 0 <= i < o.len() implies #[trigger] o[i] by {
                        if i < self.outcomes@.len() {
                            assert(o[i] == self.outcomes@[i]);
                        }
                    }
                }
                if all_succeeded(o) {
                    assert(o[o.len() - 1] == success);
                    assert forall|i: int| 0 <= i < self.outcomes@.len() implies #[trigger] self.outcomes@[i] by {
                        assert(o[i] == self.outcomes@[i]);
                    }
                }
            }
        }
        self.outcomes = Ghost(self.outcomes@.push(success));
        self.next = self.next + 1;
        self.overall_success = self.overall_success && success;
        self.phase = RunPhase::Ready;
        TestRunEvent::TargetCompleted { key, success }
    }

    /// Ends the run without a `RunFinished` event, after a unit could not be
    /// started at all.
    pub fn abort(&mut self)
        requires
            old(self).wf(),
        ensures
            final(self).wf(),
            final(self).run_id == old(self).run_id,
            final(self).units == old(self).units,
            final(self).outcomes == old(self).outcomes,
            final(self).phase == RunPhase::Finished,
    {
        self.phase = RunPhase::Finished;
    }
}

} // verus!
