use vstd::prelude::*;
use crate::error::{plain_error, single_field, ErrorCategory, JobError, JobErrorView};
use crate::job::{BrowserAction, ScrapingAction, ScrollTarget};
use crate::json::{Json, JsonValue};
use crate::scripts::{EXTRACT_ATTR, EXTRACT_MULTIPLE, EXTRACT_TEXT, FIND_AND_CLICK_COOKIE, HOVER_ELEMENT, PRESS_ENTER, PRESS_KEY, SAFE_CLICK, SCROLL_INTO_VIEW, SELECT_OPTION, SET_COOKIE, TYPE_TEXT, bool_json, build_js_call, cookie_phrase_list, cookie_phrases, js_call, json_bool, json_list, json_quoted, list_json, quote_json};
use crate::text::{i32_text, join2, join3, lower_of, lowercase, same_text, signed_decimal};
use crate::timeouts::TimeoutConfig;
use crate::wait::{driver_error, to_job_error, ElementWait, StabilityWait};

verus! {

/// How the failure of a script evaluation is reported.
#[derive(Debug, PartialEq)]
pub enum EvalFailure {
    /// A script error: this text, then the driver's message.
    Script(&'static str),
    /// A driver error classified by its words, for this action name.
    Driver(&'static str),
}

/// One step that the browser runs for an action.
#[derive(Debug, PartialEq)]
pub enum Step {
    /// Poll until the element is ready (see `ElementWait`).
    WaitElement { selector: String, timeout_ms: u64, clickable: bool },
    /// Evaluate a script on the page. A `checked` result is read by
    /// `checked_result`, which may fail the action.
    Evaluate { script: String, on_error: EvalFailure, checked: bool },
    Sleep { ms: u64 },
    Goto { url: String },
    /// Poll until the page is stable (see `StabilityWait`).
    WaitStable { timeout_ms: u64 },
    Screenshot { path: String, full_page: bool },
    /// Search for a consent button and click it, until the timeout.
    FindCookieBanner { script: String, timeout_ms: u64 },
}

/// What an action records once its steps have run.
#[derive(Debug, PartialEq)]
pub enum Record {
    Value(JsonValue),
    /// The value of the last evaluation, or this where it returned none.
    EvaluatedOr(JsonValue),
    /// What the cookie banner search found.
    CookieBanner,
}

#[derive(Debug)]
pub struct ActionPlan {
    pub steps: Vec<Step>,
    pub record: Record,
}

pub ghost enum FailureView {
    Script(Seq<char>),
    Driver(Seq<char>),
}

pub ghost enum StepView {
    WaitElement(Seq<char>, u64, bool),
    Evaluate(Seq<char>, FailureView, bool),
    Sleep(u64),
    Goto(Seq<char>),
    WaitStable(u64),
    Screenshot(Seq<char>, bool),
    FindCookieBanner(Seq<char>, u64),
}

pub ghost enum RecordView {
    Value(Json),
    EvaluatedOr(Json),
    CookieBanner,
}

pub ghost struct PlanView {
    pub steps: Seq<StepView>,
    pub record: RecordView,
}

impl View for EvalFailure {
    type V = FailureView;

    open spec fn view(&self) -> FailureView {
        match self {
            EvalFailure::Script(p) => FailureView::Script(p@),
            EvalFailure::Driver(a) => FailureView::Driver(a@),
        }
    }
}

impl View for Step {
    type V = StepView;

    open spec fn view(&self) -> StepView {
        match self {
            Step::WaitElement { selector, timeout_ms, clickable } => StepView::WaitElement(selector@, *timeout_ms, *clickable),
            Step::Evaluate { script, on_error, checked } => StepView::Evaluate(script@, on_error@, *checked),
            Step::Sleep { ms } => StepView::Sleep(*ms),
            Step::Goto { url } => StepView::Goto(url@),
            Step::WaitStable { timeout_ms } => StepView::WaitStable(*timeout_ms),
            Step::Screenshot { path, full_page } => StepView::Screenshot(path@, *full_page),
            Step::FindCookieBanner { script, timeout_ms } => StepView::FindCookieBanner(script@, *timeout_ms),
        }
    }
}

impl View for Record {
    type V = RecordView;

    open spec fn view(&self) -> RecordView {
        match self {
            Record::Value(v) => RecordView::Value(v.view_json()),
            Record::EvaluatedOr(v) => RecordView::EvaluatedOr(v.view_json()),
            Record::CookieBanner => RecordView::CookieBanner,
        }
    }
}

impl View for ActionPlan {
    type V = PlanView;

    open spec fn view(&self) -> PlanView {
        PlanView { steps: self.steps@.map_values(|s: Step| s@), record: self.record@ }
    }
}

/// The error that ends an action whose step failed with the driver message `e`.
pub open spec fn step_error(s: StepView, e: Seq<char>) -> JobErrorView {
    match s {
        StepView::Evaluate(_, FailureView::Script(prefix), _) => plain_error(ErrorCategory::ScriptExecution, prefix + e),
        StepView::Evaluate(_, FailureView::Driver(action), _) => driver_error(e, action),
        StepView::Goto(_) => crate::error::delayed_error(ErrorCategory::Navigation, "Navigate failed: "@ + e, 1500),
        StepView::Screenshot(_, _) => plain_error(ErrorCategory::Browser, "Screenshot failed: "@ + e),
        _ => plain_error(ErrorCategory::Browser, e),
    }
}

impl Step {
    /// The error that ends the action when this step fails with the driver
    /// message `e`. Polling steps report their own errors.
    pub fn failure(&self, e: &str) -> (r: JobError)
        ensures
            r@ == step_error(self@, e@),
    {
        match self {
            Step::Evaluate { on_error, .. } => match on_error {
                EvalFailure::Script(prefix) => JobError::script_error(join2(prefix, e).as_str()),
                EvalFailure::Driver(action) => to_job_error(e, action),
            },
            Step::Goto { .. } => JobError::navigation_error(join2("Navigate failed: ", e).as_str()),
            Step::Screenshot { .. } => JobError::browser_error(join2("Screenshot failed: ", e).as_str()),
            _ => JobError::browser_error(e),
        }
    }
}

/// The error for a screenshot that could not be written to its file.
pub fn screenshot_write_error(e: &str) -> (r: JobError)
    ensures
        r@ == plain_error(ErrorCategory::Browser, "Failed to save screenshot: "@ + e@),
{
    JobError::browser_error(join2("Failed to save screenshot: ", e).as_str())
}

/// A `checked` evaluation fails when the script reports `success: false`: a
/// select without the option asked for, say.
pub open spec fn checked_outcome(v: Json) -> Option<JobErrorView> {
    match v.get("success"@) {
        Some(Json::Bool(false)) => Some(JobErrorView {
            context: single_field("available_options"@, match v.get("availableOptions"@) {
                Some(o) => o,
                None => Json::Array(Seq::empty()),
            }),
            ..plain_error(ErrorCategory::ScriptExecution, "Select failed: "@ + crate::wait::text_or(v, "error"@, "unknown error"@))
        }),
        _ => None,
    }
}

/// Reads the value of a `checked` evaluation.
pub fn checked_result(v: &JsonValue) -> (r: Result<(), JobError>)
    ensures
        r is Ok <==> checked_outcome(v.view_json()) is None,
        r matches Err(e) ==> checked_outcome(v.view_json()) == Some(e@),
{
    match v.get("success") {
        Some(JsonValue::Bool(false)) => {
            let reason = match v.text_field("error") {
                Some(s) => s.clone(),
                None => "unknown error".to_owned(),
            };
            let options = match v.get("availableOptions") {
                Some(o) => o.clone_value(),
                None => {
                    let none = JsonValue::Array(Vec::new());
                    assert(none.view_json()->Array_0 =~= Seq::<Json>::empty());
                    none
                },
            };
            Err(JobError::script_error(join2("Select failed: ", reason.as_str()).as_str())
                .with_context(crate::error::single_object("available_options", options)))
        },
        _ => Ok(()),
    }
}

fn plan1(s0: Step, record: Record) -> (r: ActionPlan)
    ensures
        r@ == (PlanView { steps: seq![s0@], record: record@ }),
{
    let ghost v = seq![s0@];
    let steps = vec![s0];
    assert(steps@[0]@ == v[0]);
    let r = ActionPlan { steps, record };
    assert(r@.steps =~= v);
    r
}

fn plan2(s0: Step, s1: Step, record: Record) -> (r: ActionPlan)
    ensures
        r@ == (PlanView { steps: seq![s0@, s1@], record: record@ }),
{
    let ghost v = seq![s0@, s1@];
    let steps = vec![s0, s1];
    assert(steps@[0]@ == v[0]);
    assert(steps@[1]@ == v[1]);
    let r = ActionPlan { steps, record };
    assert(r@.steps =~= v);
    r
}

fn plan3(s0: Step, s1: Step, s2: Step, record: Record) -> (r: ActionPlan)
    ensures
        r@ == (PlanView { steps: seq![s0@, s1@, s2@], record: record@ }),
{
    let ghost v = seq![s0@, s1@, s2@];
    let steps = vec![s0, s1, s2];
    assert(steps@[0]@ == v[0]);
    assert(steps@[1]@ == v[1]);
    assert(steps@[2]@ == v[2]);
    let r = ActionPlan { steps, record };
    assert(r@.steps =~= v);
    r
}

fn plan4(s0: Step, s1: Step, s2: Step, s3: Step, record: Record) -> (r: ActionPlan)
    ensures
        r@ == (PlanView { steps: seq![s0@, s1@, s2@, s3@], record: record@ }),
{
    let ghost v = seq![s0@, s1@, s2@, s3@];
    let steps = vec![s0, s1, s2, s3];
    assert(steps@[0]@ == v[0]);
    assert(steps@[1]@ == v[1]);
    assert(steps@[2]@ == v[2]);
    assert(steps@[3]@ == v[3]);
    let r = ActionPlan { steps, record };
    assert(r@.steps =~= v);
    r
}

fn plan5(s0: Step, s1: Step, s2: Step, s3: Step, s4: Step, record: Record) -> (r: ActionPlan)
    ensures
        r@ == (PlanView { steps: seq![s0@, s1@, s2@, s3@, s4@], record: record@ }),
{
    let ghost v = seq![s0@, s1@, s2@, s3@, s4@];
    let steps = vec![s0, s1, s2, s3, s4];
    assert(steps@[0]@ == v[0]);
    assert(steps@[1]@ == v[1]);
    assert(steps@[2]@ == v[2]);
    assert(steps@[3]@ == v[3]);
    assert(steps@[4]@ == v[4]);
    let r = ActionPlan { steps, record };
    assert(r@.steps =~= v);
    r
}

fn plan0(record: Record) -> (r: ActionPlan)
    ensures
        r@ == (PlanView { steps: Seq::empty(), record: record@ }),
{
    let r = ActionPlan { steps: Vec::new(), record };
    assert(r@.steps =~= Seq::<StepView>::empty());
    r
}

fn call1(func: &str, a0: String) -> (r: String)
    ensures
        r@ == js_call(func@, seq![a0@]),
{
    let ghost v = seq![a0@];
    let args = vec![a0];
    assert(args@.map_values(|s: String| s@) =~= v);
    build_js_call(func, &args)
}

fn call2(func: &str, a0: String, a1: String) -> (r: String)
    ensures
        r@ == js_call(func@, seq![a0@, a1@]),
{
    let ghost v = seq![a0@, a1@];
    let args = vec![a0, a1];
    assert(args@.map_values(|s: String| s@) =~= v);
    build_js_call(func, &args)
}

fn call3(func: &str, a0: String, a1: String, a2: String) -> (r: String)
    ensures
        r@ == js_call(func@, seq![a0@, a1@, a2@]),
{
    let ghost v = seq![a0@, a1@, a2@];
    let args = vec![a0, a1, a2];
    assert(args@.map_values(|s: String| s@) =~= v);
    build_js_call(func, &args)
}

/// Element waits that an action does not time itself.
pub const ACTION_ELEMENT_WAIT_MS: u64 = 10000;

/// The page-stability timeout after a `Navigate` action.
pub const NAVIGATE_STABLE_MS: u64 = 30000;

/// Waits that let the page settle or begin to navigate, in milliseconds.
pub const STABILITY_LEAD_MS: u64 = 500;
pub const NAVIGATION_GRACE_MS: u64 = 1000;
pub const CLICK_SETTLE_MS: u64 = 300;
pub const TYPE_SETTLE_MS: u64 = 200;
pub const KEY_SETTLE_MS: u64 = 500;
pub const SCROLL_SETTLE_MS: u64 = 500;

pub open spec fn empty_list() -> Json {
    Json::Array(Seq::empty())
}

pub open spec fn names_of(v: Vec<String>) -> Seq<Seq<char>> {
    v@.map_values(|s: String| s@)
}

/// The steps of a scraping action on a live page.
pub open spec fn scraping_plan(a: ScrapingAction) -> PlanView {
    match a {
        ScrapingAction::Fetch { .. } => PlanView { steps: Seq::empty(), record: RecordView::Value(Json::Null) },
        ScrapingAction::WaitFor { selector, timeout_ms } => PlanView {
            steps: seq![StepView::WaitElement(selector@, timeout_ms, false)],
            record: RecordView::Value(Json::Bool(true)),
        },
        ScrapingAction::Extract { selector, attr } => PlanView {
            steps: seq![StepView::Evaluate(
                match attr {
                    Some(n) => js_call(EXTRACT_ATTR@, seq![json_quoted(selector@), json_quoted(n@)]),
                    None => js_call(EXTRACT_TEXT@, seq![json_quoted(selector@)]),
                },
                FailureView::Script("Extract failed: "@),
                false,
            )],
            record: RecordView::EvaluatedOr(empty_list()),
        },
        ScrapingAction::ExtractMultiple { selector, attrs } => PlanView {
            steps: seq![StepView::Evaluate(
                js_call(EXTRACT_MULTIPLE@, seq![json_quoted(selector@), json_list(names_of(attrs))]),
                FailureView::Script("ExtractMultiple failed: "@),
                false,
            )],
            record: RecordView::EvaluatedOr(empty_list()),
        },
    }
}

/// The script that scrolls to a target.
pub open spec fn scroll_script(t: ScrollTarget) -> Seq<char> {
    match t {
        ScrollTarget::Element { selector } => js_call(SCROLL_INTO_VIEW@, seq![json_quoted(selector@), json_quoted("center"@)]),
        ScrollTarget::Position { x, y } => "window.scrollTo("@ + signed_decimal(x as int) + ","@ + signed_decimal(y as int) + ")"@,
        ScrollTarget::Bottom => "window.scrollTo(0,document.body.scrollHeight)"@,
        ScrollTarget::Top => "window.scrollTo(0,0)"@,
    }
}

/// The cookie options: the domain where one is given.
pub open spec fn cookie_options(domain: Option<String>) -> Seq<char> {
    match domain {
        Some(d) => "{\"domain\":"@ + json_quoted(d@) + "}"@,
        None => "{}"@,
    }
}

/// Waits for a clickable element, scrolls it to the center and clicks it.
pub open spec fn click_steps(selector: Seq<char>, timeout_ms: u64, prefix: Seq<char>) -> Seq<StepView> {
    seq![
        StepView::WaitElement(selector, timeout_ms, true),
        StepView::Evaluate(js_call(SCROLL_INTO_VIEW@, seq![json_quoted(selector), json_quoted("center"@)]), FailureView::Driver("Scroll"@), false),
        StepView::Sleep(CLICK_SETTLE_MS),
        StepView::Evaluate(js_call(SAFE_CLICK@, seq![json_quoted(selector)]), FailureView::Script(prefix), false),
        StepView::Sleep(CLICK_SETTLE_MS),
    ]
}

/// The steps of a browser action.
pub open spec fn browser_plan(a: BrowserAction) -> PlanView {
    match a {
        BrowserAction::Click { selector, timeout_ms } => PlanView {
            steps: click_steps(selector@, timeout_ms, "Click failed: "@),
            record: RecordView::Value(Json::Bool(true)),
        },
        BrowserAction::WaitAndClick { selector, timeout_ms } => PlanView {
            steps: click_steps(selector@, timeout_ms, "WaitAndClick failed: "@),
            record: RecordView::Value(Json::Bool(true)),
        },
        BrowserAction::Type { selector, text, clear_first } => PlanView {
            steps: seq![
                StepView::WaitElement(selector@, ACTION_ELEMENT_WAIT_MS, false),
                StepView::Evaluate(
                    js_call(TYPE_TEXT@, seq![json_quoted(selector@), json_quoted(text@), json_bool(clear_first)]),
                    FailureView::Script("Type failed: "@),
                    false,
                ),
                StepView::Sleep(TYPE_SETTLE_MS),
            ],
            record: RecordView::Value(Json::Str(text@)),
        },
        BrowserAction::PressKey { key } => PlanView {
            steps: if lower_of(key@) == "enter"@ {
                seq![StepView::Evaluate(PRESS_ENTER@, FailureView::Script("PressKey (Enter) failed: "@), false), StepView::Sleep(KEY_SETTLE_MS)]
            } else {
                seq![
                    StepView::Evaluate(js_call(PRESS_KEY@, seq![json_quoted(key@)]), FailureView::Script("PressKey failed: "@), false),
                    StepView::Sleep(KEY_SETTLE_MS),
                ]
            },
            record: RecordView::Value(Json::Str(key@)),
        },
        BrowserAction::Scroll { target } => PlanView {
            steps: seq![StepView::Evaluate(scroll_script(target), FailureView::Driver("Scroll"@), false), StepView::Sleep(SCROLL_SETTLE_MS)],
            record: RecordView::Value(Json::Bool(true)),
        },
        BrowserAction::Screenshot { path, full_page } => PlanView {
            steps: seq![StepView::Screenshot(path@, full_page)],
            record: RecordView::Value(Json::Str(path@)),
        },
        BrowserAction::Hover { selector } => PlanView {
            steps: seq![
                StepView::WaitElement(selector@, ACTION_ELEMENT_WAIT_MS, false),
                StepView::Evaluate(js_call(HOVER_ELEMENT@, seq![json_quoted(selector@)]), FailureView::Script("Hover failed: "@), false),
            ],
            record: RecordView::Value(Json::Bool(true)),
        },
        BrowserAction::Select { selector, value } => PlanView {
            steps: seq![
                StepView::WaitElement(selector@, ACTION_ELEMENT_WAIT_MS, false),
                StepView::Evaluate(
                    js_call(SELECT_OPTION@, seq![json_quoted(selector@), json_quoted(value@)]),
                    FailureView::Script("Select failed: "@),
                    true,
                ),
            ],
            record: RecordView::Value(Json::Str(value@)),
        },
        BrowserAction::SetCookie { name, value, domain } => PlanView {
            steps: seq![StepView::Evaluate(
                js_call(SET_COOKIE@, seq![json_quoted(name@), json_quoted(value@), cookie_options(domain)]),
                FailureView::Script("SetCookie failed: "@),
                false,
            )],
            record: RecordView::Value(Json::Str(value@)),
        },
        BrowserAction::ExecuteScript { script } => PlanView {
            steps: seq![StepView::Evaluate(script@, FailureView::Script("ExecuteScript failed: "@), false)],
            record: RecordView::EvaluatedOr(Json::Null),
        },
        BrowserAction::Navigate { url } => PlanView {
            steps: seq![StepView::Goto(url@), StepView::Sleep(STABILITY_LEAD_MS), StepView::WaitStable(NAVIGATE_STABLE_MS)],
            record: RecordView::Value(Json::Str(url@)),
        },
        BrowserAction::WaitForNavigation { timeout_ms } => PlanView {
            steps: seq![StepView::Sleep(NAVIGATION_GRACE_MS), StepView::Sleep(STABILITY_LEAD_MS), StepView::WaitStable(timeout_ms)],
            record: RecordView::Value(Json::Bool(true)),
        },
        BrowserAction::WaitFor { selector, timeout_ms } => PlanView {
            steps: seq![StepView::WaitElement(selector@, timeout_ms, false)],
            record: RecordView::Value(Json::Bool(true)),
        },
        BrowserAction::HandleCookieBanner { timeout_ms } => PlanView {
            steps: seq![StepView::FindCookieBanner(js_call(FIND_AND_CLICK_COOKIE@, seq![json_list(cookie_phrases())]), timeout_ms)],
            record: RecordView::CookieBanner,
        },
    }
}

/// Builds the poll loops of the browser worker from its timeouts.
pub struct WaitStrategy {
    pub config: TimeoutConfig,
}

impl WaitStrategy {
    pub fn new(config: TimeoutConfig) -> (r: WaitStrategy)
        ensures
            r.config == config,
    {
        WaitStrategy { config }
    }

    /// The readiness wait for `selector`, probing at the configured interval.
    pub fn wait_for_element(&self, selector: &str, timeout_ms: u64, check_clickable: bool) -> (r: ElementWait)
        ensures
            r.selector@ == selector@,
            r.timeout_ms == timeout_ms,
            r.check_clickable == check_clickable,
            r.check_interval_ms == self.config.check_interval,
    {
        ElementWait { selector: selector.to_owned(), timeout_ms, check_clickable, check_interval_ms: self.config.check_interval }
    }

    /// The stability wait, probing at the configured interval.
    pub fn wait_for_stable(&self, timeout_ms: u64) -> (r: StabilityWait)
        ensures
            r.timeout_ms == timeout_ms,
            r.check_interval_ms == self.config.check_interval,
            r.stable_checks == 0,
    {
        StabilityWait::new(timeout_ms, self.config.check_interval)
    }

    /// A navigation wait: a grace delay for the navigation to begin, then a
    /// stability wait.
    pub fn wait_for_navigation(&self, timeout_ms: u64) -> (r: (u64, StabilityWait))
        ensures
            r.0 == NAVIGATION_GRACE_MS,
            r.1.timeout_ms == timeout_ms,
            r.1.check_interval_ms == self.config.check_interval,
            r.1.stable_checks == 0,
    {
        (NAVIGATION_GRACE_MS, self.wait_for_stable(timeout_ms))
    }
}

/// Turns the actions of a job into the steps the browser runs.
pub struct ActionHandler {
    pub wait_strategy: WaitStrategy,
}

fn quoted(s: &String) -> (r: String)
    ensures
        r@ == json_quoted(s@),
{
    quote_json(s.as_str())
}

fn click_plan(selector: &String, timeout_ms: u64, prefix: &'static str) -> (r: ActionPlan)
    ensures
        r@ == (PlanView { steps: click_steps(selector@, timeout_ms, prefix@), record: RecordView::Value(Json::Bool(true)) }),
{
    plan5(
        Step::WaitElement { selector: selector.clone(), timeout_ms, clickable: true },
        Step::Evaluate { script: call2(SCROLL_INTO_VIEW, quoted(selector), quote_json("center")), on_error: EvalFailure::Driver("Scroll"), checked: false },
        Step::Sleep { ms: CLICK_SETTLE_MS },
        Step::Evaluate { script: call1(SAFE_CLICK, quoted(selector)), on_error: EvalFailure::Script(prefix), checked: false },
        Step::Sleep { ms: CLICK_SETTLE_MS },
        Record::Value(JsonValue::Bool(true)),
    )
}

fn scroll_script_of(t: &ScrollTarget) -> (r: String)
    ensures
        r@ == scroll_script(*t),
{
    match t {
        ScrollTarget::Element { selector } => call2(SCROLL_INTO_VIEW, quoted(selector), quote_json("center")),
        ScrollTarget::Position { x, y } => join3("window.scrollTo(", i32_text(*x).as_str(), ",").concat(i32_text(*y).as_str()).concat(")"),
        ScrollTarget::Bottom => "window.scrollTo(0,document.body.scrollHeight)".to_owned(),
        ScrollTarget::Top => "window.scrollTo(0,0)".to_owned(),
    }
}

fn cookie_options_of(domain: &Option<String>) -> (r: String)
    ensures
        r@ == cookie_options(*domain),
{
    match domain {
        Some(d) => join3("{\"domain\":", quoted(d).as_str(), "}"),
        None => "{}".to_owned(),
    }
}

impl ActionHandler {
    pub fn new(config: TimeoutConfig) -> (r: ActionHandler)
        ensures
            r.wait_strategy.config == config,
    {
        ActionHandler { wait_strategy: WaitStrategy::new(config) }
    }

    /// The steps of a scraping action on a live page.
    pub fn handle_scraping(&self, action: &ScrapingAction) -> (r: ActionPlan)
        ensures
            r@ == scraping_plan(*action),
    {
        match action {
            ScrapingAction::Fetch { .. } => plan0(Record::Value(JsonValue::Null)),
            ScrapingAction::WaitFor { selector, timeout_ms } => plan1(
                Step::WaitElement { selector: selector.clone(), timeout_ms: *timeout_ms, clickable: false },
                Record::Value(JsonValue::Bool(true)),
            ),
            ScrapingAction::Extract { selector, attr } => {
                let script = match attr {
                    Some(n) => call2(EXTRACT_ATTR, quoted(selector), quoted(n)),
                    None => call1(EXTRACT_TEXT, quoted(selector)),
                };
                let none = JsonValue::Array(Vec::new());
                assert(none.view_json()->Array_0 =~= Seq::<Json>::empty());
                plan1(Step::Evaluate { script, on_error: EvalFailure::Script("Extract failed: "), checked: false }, Record::EvaluatedOr(none))
            },
            ScrapingAction::ExtractMultiple { selector, attrs } => {
                let script = call2(EXTRACT_MULTIPLE, quoted(selector), list_json(attrs));
                let none = JsonValue::Array(Vec::new());
                assert(none.view_json()->Array_0 =~= Seq::<Json>::empty());
                plan1(
                    Step::Evaluate { script, on_error: EvalFailure::Script("ExtractMultiple failed: "), checked: false },
                    Record::EvaluatedOr(none),
                )
            },
        }
    }

    /// The steps of a browser action.
    pub fn handle_browser(&self, action: &BrowserAction) -> (r: ActionPlan)
        ensures
            r@ == browser_plan(*action),
    {
        match action {
            BrowserAction::Click { selector, timeout_ms } => click_plan(selector, *timeout_ms, "Click failed: "),
            BrowserAction::WaitAndClick { selector, timeout_ms } => click_plan(selector, *timeout_ms, "WaitAndClick failed: "),
            BrowserAction::Type { selector, text, clear_first } => plan3(
                Step::WaitElement { selector: selector.clone(), timeout_ms: ACTION_ELEMENT_WAIT_MS, clickable: false },
                Step::Evaluate {
                    script: call3(TYPE_TEXT, quoted(selector), quoted(text), bool_json(*clear_first)),
                    on_error: EvalFailure::Script("Type failed: "),
                    checked: false,
                },
                Step::Sleep { ms: TYPE_SETTLE_MS },
                Record::Value(JsonValue::Str(text.clone())),
            ),
            BrowserAction::PressKey { key } => {
                let lower = lowercase(key.as_str());
                let press = if same_text(lower.as_str(), "enter") {
                    Step::Evaluate { script: PRESS_ENTER.to_owned(), on_error: EvalFailure::Script("PressKey (Enter) failed: "), checked: false }
                } else {
                    Step::Evaluate { script: call1(PRESS_KEY, quoted(key)), on_error: EvalFailure::Script("PressKey failed: "), checked: false }
                };
                plan2(press, Step::Sleep { ms: KEY_SETTLE_MS }, Record::Value(JsonValue::Str(key.clone())))
            },
            BrowserAction::Scroll { target } => plan2(
                Step::Evaluate { script: scroll_script_of(target), on_error: EvalFailure::Driver("Scroll"), checked: false },
                Step::Sleep { ms: SCROLL_SETTLE_MS },
                Record::Value(JsonValue::Bool(true)),
            ),
            BrowserAction::Screenshot { path, full_page } => plan1(
                Step::Screenshot { path: path.clone(), full_page: *full_page },
                Record::Value(JsonValue::Str(path.clone())),
            ),
            BrowserAction::Hover { selector } => plan2(
                Step::WaitElement { selector: selector.clone(), timeout_ms: ACTION_ELEMENT_WAIT_MS, clickable: false },
                Step::Evaluate { script: call1(HOVER_ELEMENT, quoted(selector)), on_error: EvalFailure::Script("Hover failed: "), checked: false },
                Record::Value(JsonValue::Bool(true)),
            ),
            BrowserAction::Select { selector, value } => plan2(
                Step::WaitElement { selector: selector.clone(), timeout_ms: ACTION_ELEMENT_WAIT_MS, clickable: false },
                Step::Evaluate {
                    script: call2(SELECT_OPTION, quoted(selector), quoted(value)),
                    on_error: EvalFailure::Script("Select failed: "),
                    checked: true,
                },
                Record::Value(JsonValue::Str(value.clone())),
            ),
            BrowserAction::SetCookie { name, value, domain } => plan1(
                Step::Evaluate {
                    script: call3(SET_COOKIE, quoted(name), quoted(value), cookie_options_of(domain)),
                    on_error: EvalFailure::Script("SetCookie failed: "),
                    checked: false,
                },
                Record::Value(JsonValue::Str(value.clone())),
            ),
            BrowserAction::ExecuteScript { script } => plan1(
                Step::Evaluate { script: script.clone(), on_error: EvalFailure::Script("ExecuteScript failed: "), checked: false },
                Record::EvaluatedOr(JsonValue::Null),
            ),
            BrowserAction::Navigate { url } => plan3(
                Step::Goto { url: url.clone() },
                Step::Sleep { ms: STABILITY_LEAD_MS },
                Step::WaitStable { timeout_ms: NAVIGATE_STABLE_MS },
                Record::Value(JsonValue::Str(url.clone())),
            ),
            BrowserAction::WaitForNavigation { timeout_ms } => plan3(
                Step::Sleep { ms: NAVIGATION_GRACE_MS },
                Step::Sleep { ms: STABILITY_LEAD_MS },
                Step::WaitStable { timeout_ms: *timeout_ms },
                Record::Value(JsonValue::Bool(true)),
            ),
            BrowserAction::WaitFor { selector, timeout_ms } => plan1(
                Step::WaitElement { selector: selector.clone(), timeout_ms: *timeout_ms, clickable: false },
                Record::Value(JsonValue::Bool(true)),
            ),
            BrowserAction::HandleCookieBanner { timeout_ms } => {
                let phrases = cookie_phrase_list();
                let mut owned: Vec<String> = Vec::new();
                let mut i: usize = 0;
                while i < phrases.len()
                    invariant
                        0 <= i <= phrases.len(),
                        owned.len() == i,
                        forall|j: int| 0 <= j < i ==> #[trigger] owned[j]@ == phrases[j]@,
                    decreases phrases.len() - i,
                {
                    owned.push(phrases[i].to_owned());
                    i = i + 1;
                }
                assert(owned@.map_values(|s: String| s@) =~= phrases@.map_values(|s: &str| s@));
                let script = call1(FIND_AND_CLICK_COOKIE, list_json(&owned));
                plan1(Step::FindCookieBanner { script, timeout_ms: *timeout_ms }, Record::CookieBanner)
            },
        }
    }
}

} // verus!
