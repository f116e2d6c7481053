use vstd::prelude::*;
use crate::actions::{browser_plan, checked_outcome, checked_result, scraping_plan, ActionHandler, ActionPlan, PlanView, Record, RecordView, Step, StepView};
use crate::error::{delayed_error, plain_error, ErrorCategory, JobError, JobErrorView};
use crate::job::{Action, Job, JobResult};
use crate::json::{Json, JsonValue};
use crate::output::{job_output, ObjectBuilder};
use crate::text::join2;
use crate::timeouts::TimeoutConfig;
use crate::wait::cookie_banner_not_found;

verus! {

/// The browser backend: it drives one fresh browser per job.
pub struct ChromiumWorker {
    pub timeout_config: TimeoutConfig,
}

/// How to launch the browser for a job.
pub struct LaunchOptions {
    pub headless: bool,
    /// Window width and height, where the job gives both.
    pub window: Option<(u32, u32)>,
}

/// A step of the job's own setup that the driver failed.
pub enum SetupStep {
    CreateProfileDir,
    Configure,
    Launch,
    NewPage,
    Navigate,
}

pub open spec fn setup_error(step: SetupStep, e: Seq<char>) -> JobErrorView {
    match step {
        SetupStep::CreateProfileDir => plain_error(ErrorCategory::Browser, "Failed to create temp dir: "@ + e),
        SetupStep::Configure => plain_error(ErrorCategory::Browser, "Config failed: "@ + e),
        SetupStep::Launch => plain_error(ErrorCategory::Browser, "Launch failed: "@ + e),
        SetupStep::NewPage => plain_error(ErrorCategory::Browser, "New page failed: "@ + e),
        SetupStep::Navigate => delayed_error(ErrorCategory::Navigation, "Navigation failed: "@ + e, 1500),
    }
}

impl ChromiumWorker {
    pub fn new() -> (r: ChromiumWorker)
        ensures
            r.timeout_config == crate::timeouts::preset(15000, 30000, 30000, 5000, 300, 1000),
    {
        ChromiumWorker { timeout_config: TimeoutConfig::default() }
    }

    pub fn with_config(timeout_config: TimeoutConfig) -> (r: ChromiumWorker)
        ensures
            r.timeout_config == timeout_config,
    {
        ChromiumWorker { timeout_config }
    }

    /// Headless unless the job's configuration says otherwise; a window size
    /// where it gives both dimensions.
    pub fn launch_options(job: &Job) -> (r: LaunchOptions)
        ensures
            r.headless == match job.browser_config {
                Some(c) => c.headless,
                None => true,
            },
            r.window == match job.browser_config {
                Some(c) => match (c.viewport_width, c.viewport_height) {
                    (Some(w), Some(h)) => Some((w, h)),
                    _ => None,
                },
                None => None,
            },
    {
        match &job.browser_config {
            Some(c) => LaunchOptions {
                headless: c.headless,
                window: match (c.viewport_width, c.viewport_height) {
                    (Some(w), Some(h)) => Some((w, h)),
                    _ => None,
                },
            },
            None => LaunchOptions { headless: true, window: None },
        }
    }

    /// The job asks for a CAPTCHA check after its first page loads.
    pub fn checks_captcha(job: &Job) -> (r: bool)
        ensures
            r == match job.browser_config {
                Some(c) => c.fail_on_captcha,
                None => false,
            },
    {
        match &job.browser_config {
            Some(c) => c.fail_on_captcha,
            None => false,
        }
    }

    /// The error for a setup step that failed with the driver message `e`.
    pub fn setup_failure(step: SetupStep, e: &str) -> (r: JobError)
        ensures
            r@ == setup_error(step, e@),
    {
        match step {
            SetupStep::CreateProfileDir => JobError::browser_error(join2("Failed to create temp dir: ", e).as_str()),
            SetupStep::Configure => JobError::browser_error(join2("Config failed: ", e).as_str()),
            SetupStep::Launch => JobError::browser_error(join2("Launch failed: ", e).as_str()),
            SetupStep::NewPage => JobError::browser_error(join2("New page failed: ", e).as_str()),
            SetupStep::Navigate => JobError::navigation_error(join2("Navigation failed: ", e).as_str()),
        }
    }

    pub fn action_handler(&self) -> (r: ActionHandler)
        ensures
            r.wait_strategy.config == self.timeout_config,
    {
        ActionHandler::new(self.timeout_config)
    }
}

/// The value an action records, given how its plan records: a fixed value,
/// what its last evaluation returned (or a default), or what the cookie
/// banner search clicked (or that it found nothing).
pub open spec fn recorded(record: RecordView, evaluated: Option<Json>, clicked: Option<Json>) -> Json {
    match record {
        RecordView::Value(v) => v,
        RecordView::EvaluatedOr(d) => match evaluated {
            Some(v) => v,
            None => d,
        },
        RecordView::CookieBanner => match clicked {
            Some(v) => v,
            None => crate::wait::cookie_not_found_json(),
        },
    }
}

pub open spec fn json_of(v: Option<JsonValue>) -> Option<Json> {
    match v {
        Some(j) => Some(j.view_json()),
        None => None,
    }
}

/// The value to record for a plan whose steps have run.
pub fn recorded_value(plan: ActionPlan, evaluated: Option<JsonValue>, clicked: Option<JsonValue>) -> (r: JsonValue)
    ensures
        r.view_json() == recorded(plan.record@, json_of(evaluated), json_of(clicked)),
{
    match plan.record {
        Record::Value(v) => v,
        Record::EvaluatedOr(d) => match evaluated {
            Some(v) => v,
            None => d,
        },
        Record::CookieBanner => match clicked {
            Some(v) => v,
            None => cookie_banner_not_found(),
        },
    }
}

/// The steps of an action's plan.
pub open spec fn action_plan(a: Action) -> PlanView {
    match a {
        Action::Scraping(s) => scraping_plan(s),
        Action::Browser(b) => browser_plan(b),
    }
}

/// What the steps of one plan returned so far: the value of the last
/// evaluation, and the button a cookie banner search clicked.
pub struct StepResults {
    evaluated: Option<JsonValue>,
    clicked: Option<JsonValue>,
}

/// A `checked` evaluation that returned `value` fails the action when the
/// script reports failure; one that returned no value, or an unchecked one,
/// passes.
pub open spec fn evaluation_error(step: StepView, value: Option<Json>) -> Option<JobErrorView> {
    match (step, value) {
        (StepView::Evaluate(_, _, true), Some(v)) => checked_outcome(v),
        _ => None,
    }
}

impl StepResults {
    pub closed spec fn last_evaluation(&self) -> Option<Json> {
        json_of(self.evaluated)
    }

    pub closed spec fn clicked_button(&self) -> Option<Json> {
        json_of(self.clicked)
    }

    pub fn new() -> (r: StepResults)
        ensures
            r.last_evaluation() is None,
            r.clicked_button() is None,
    {
        StepResults { evaluated: None, clicked: None }
    }

    /// Takes the value an evaluation step returned (none where the script
    /// returned none). It becomes the last evaluation's value; a `checked`
    /// step may fail the action on it.
    pub fn evaluated(&mut self, step: &Step, value: Option<JsonValue>) -> (r: Result<(), JobError>)
        requires
            step@ is Evaluate,
        ensures
            final(self).last_evaluation() == json_of(value),
            final(self).clicked_button() == old(self).clicked_button(),
            r is Ok <==> evaluation_error(step@, json_of(value)) is None,
            r matches Err(e) ==> evaluation_error(step@, json_of(value)) == Some(e@),
    {
        let outcome = match (step, &value) {
            (Step::Evaluate { checked: true, .. }, Some(v)) => checked_result(v),
            _ => Ok(()),
        };
        self.evaluated = value;
        outcome
    }

    /// Takes what a cookie banner search clicked.
    pub fn clicked(&mut self, value: JsonValue)
        ensures
            final(self).clicked_button() == Some(value.view_json()),
            final(self).last_evaluation() == old(self).last_evaluation(),
    {
        self.clicked = Some(value);
    }
}

/// The actions of one browser job, run in order, and their output so far.
pub struct BrowserRun {
    output: ObjectBuilder,
    next: usize,
    values: Ghost<Seq<Json>>,
}

impl BrowserRun {
    /// How many actions have run.
    pub closed spec fn done(&self) -> nat {
        self.next as nat
    }

    /// The values the actions that ran recorded, in order.
    pub closed spec fn recorded_values(&self) -> Seq<Json> {
        self.values@
    }

    /// The run belongs to a job with these actions.
    pub closed spec fn wf(&self, actions: Seq<Action>) -> bool {
        &&& self.output.wf()
        &&& self.next <= actions.len()
        &&& self.values@.len() == self.next
        &&& self.output.model() == job_output(actions.take(self.next as int), self.values@)
    }

    pub fn start(job: &Job) -> (r: BrowserRun)
        ensures
            r.wf(job.actions@),
            r.done() == 0,
            r.recorded_values() == Seq::<Json>::empty(),
    {
        let r = BrowserRun { output: ObjectBuilder::new(), next: 0, values: Ghost(Seq::empty()) };
        assert(job.actions@.take(0) =~= Seq::<Action>::empty());
        r
    }

    /// The steps of the next action; nothing once all have run.
    pub fn next_plan(&self, job: &Job, handler: &ActionHandler) -> (r: Option<ActionPlan>)
        requires
            self.wf(job.actions@),
        ensures
            r is None <==> self.done() == job.actions.len(),
            r matches Some(p) ==> p@ == action_plan(job.actions@[self.done() as int]),
    {
        if self.next >= job.actions.len() {
            return None;
        }
        match &job.actions[self.next] {
            Action::Scraping(s) => Some(handler.handle_scraping(s)),
            Action::Browser(b) => Some(handler.handle_browser(b)),
        }
    }

    /// Records the next action, whose steps ran as `plan` and returned
    /// `results`: the value its plan says, under its key.
    pub fn record_plan(&mut self, job: &Job, plan: ActionPlan, results: StepResults)
        requires
            old(self).wf(job.actions@),
            old(self).done() < job.actions.len(),
            plan@ == action_plan(job.actions@[old(self).done() as int]),
        ensures
            final(self).wf(job.actions@),
            final(self).done() == old(self).done() + 1,
            final(self).recorded_values() == old(self).recorded_values().push(recorded(
                action_plan(job.actions@[old(self).done() as int]).record,
                results.last_evaluation(),
                results.clicked_button(),
            )),
    {
        let value = recorded_value(plan, results.evaluated, results.clicked);
        self.record(job, value);
    }

    fn record(&mut self, job: &Job, value: JsonValue)
        requires
            old(self).wf(job.actions@),
            old(self).done() < job.actions.len(),
        ensures
            final(self).wf(job.actions@),
            final(self).done() == old(self).done() + 1,
            final(self).recorded_values() == old(self).recorded_values().push(value.view_json()),
    {
        let ghost v = value.view_json();
        let ghost n = self.next as int;
        proof {
            assert(job.actions@.take(n + 1).take(n) =~= job.actions@.take(n));
            assert(self.values@.push(v).take(n) =~= self.values@);
            assert(job.actions@.take(n + 1)[n] == job.actions@[n]);
        }
        self.output.record(&job.actions[self.next], value);
        self.next = self.next + 1;
        self.values = Ghost(self.values@.push(v));
    }

    /// The result of a job all of whose actions ran: its output holds what
    /// each action recorded, under its key.
    pub fn finish(self, job: &Job) -> (r: JobResult)
        requires
            self.wf(job.actions@),
            self.done() == job.actions.len(),
        ensures
            r.job_id@ == job.id@,
            r.success,
            r.output.view_json() == Json::Object(job_output(job.actions@, self.recorded_values())),
            self.recorded_values().len() == job.actions.len(),
    {
        assert(job.actions@.take(job.actions.len() as int) =~= job.actions@);
        JobResult { job_id: job.id.clone(), success: true, output: self.output.finish() }
    }
}

} // verus!
