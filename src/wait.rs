use vstd::prelude::*;
use crate::error::{delayed_error, plain_error, single_field, ErrorCategory, JobError, JobErrorView};
use crate::json::{Json, JsonValue};
use crate::scripts::{build_js_call, js_call, json_quoted, quote_json, CHECK_ELEMENT_STATE, CHECK_LOADING};
use crate::text::{contains_text, decimal, has_substring, join2, join3, same_text, u64_text};

verus! {

/// The driver lost the page's execution context: the page is navigating.
pub open spec fn context_lost(e: Seq<char>) -> bool {
    has_substring(e, "Cannot find context"@) || has_substring(e, "Execution context was destroyed"@)
}

pub fn is_context_lost(e: &str) -> (r: bool)
    ensures
        r == context_lost(e@),
{
    contains_text(e, "Cannot find context") || contains_text(e, "Execution context was destroyed")
}

/// The error `JobError::element_not_found` builds for `what`.
pub open spec fn not_found_error(what: Seq<char>) -> JobErrorView {
    JobErrorView {
        context: single_field("selector"@, Json::Str(what)),
        ..plain_error(ErrorCategory::ElementNotFound, "Element not found: "@ + what)
    }
}

/// How a driver error met during `action` is classified, by the words in it.
pub open spec fn driver_error(e: Seq<char>, action: Seq<char>) -> JobErrorView {
    if has_substring(e, "timeout"@) || has_substring(e, "Timeout"@) {
        delayed_error(ErrorCategory::Timeout, action + " timed out: "@ + e, 2000)
    } else if has_substring(e, "navigation"@) || has_substring(e, "Navigation"@) {
        delayed_error(ErrorCategory::Navigation, action + " navigation failed: "@ + e, 1500)
    } else if has_substring(e, "not found"@) || has_substring(e, "null"@) {
        not_found_error(action + ": "@ + e)
    } else {
        plain_error(ErrorCategory::Browser, action + " failed: "@ + e)
    }
}

/// Classifies the driver error `e`, met during `action`.
pub fn to_job_error(e: &str, action: &str) -> (r: JobError)
    ensures
        r@ == driver_error(e@, action@),
{
    if contains_text(e, "timeout") || contains_text(e, "Timeout") {
        JobError::timeout_error(join3(action, " timed out: ", e).as_str())
    } else if contains_text(e, "navigation") || contains_text(e, "Navigation") {
        JobError::navigation_error(join3(action, " navigation failed: ", e).as_str())
    } else if contains_text(e, "not found") || contains_text(e, "null") {
        JobError::element_not_found(join3(action, ": ", e).as_str())
    } else {
        JobError::browser_error(join3(action, " failed: ", e).as_str())
    }
}

/// What one readiness probe reported of an element.
pub struct ElementState {
    pub exists: bool,
    pub visible: bool,
    pub obscured: bool,
    pub disabled: bool,
    /// The tag and classes of the element on top, or `unknown`.
    pub obscured_by: String,
}

pub ghost struct ProbeView {
    pub exists: bool,
    pub visible: bool,
    pub obscured: bool,
    pub disabled: bool,
    pub obscured_by: Seq<char>,
}

impl View for ElementState {
    type V = ProbeView;

    open spec fn view(&self) -> ProbeView {
        ProbeView {
            exists: self.exists,
            visible: self.visible,
            obscured: self.obscured,
            disabled: self.disabled,
            obscured_by: self.obscured_by@,
        }
    }
}

/// What a readiness probe that returned `v` reports; nothing unless `v` is an
/// object. Flags that are missing read as false.
pub open spec fn probe_view(v: Json) -> Option<ProbeView> {
    match v {
        Json::Object(_) => Some(ProbeView {
            exists: v.flag("exists"@),
            visible: v.flag("visible"@),
            obscured: v.flag("obscured"@),
            disabled: v.flag("disabled"@),
            obscured_by: text_or(v, "obscuredBy"@, "unknown"@),
        }),
        _ => None,
    }
}

/// The text field `key` of a probe, or `fallback`.
pub open spec fn text_or(v: Json, key: Seq<char>, fallback: Seq<char>) -> Seq<char> {
    match v.get(key) {
        Some(Json::Str(s)) => s,
        _ => fallback,
    }
}

/// Reads a readiness probe; flags that are missing read as false. Nothing
/// when the probe did not return an object.
pub fn element_state_of(probe: &JsonValue) -> (r: Option<ElementState>)
    ensures
        r is None <==> probe_view(probe.view_json()) is None,
        r matches Some(s) ==> probe_view(probe.view_json()) == Some(s@),
{
    match probe {
        JsonValue::Object(_) => {
            let obscured_by = match probe.text_field("obscuredBy") {
                Some(s) => s.clone(),
                None => "unknown".to_owned(),
            };
            Some(ElementState {
                exists: probe.flag("exists"),
                visible: probe.flag("visible"),
                obscured: probe.flag("obscured"),
                disabled: probe.flag("disabled"),
                obscured_by,
            })
        },
        _ => None,
    }
}

/// What a poll loop does next.
#[derive(Debug)]
pub enum WaitVerdict {
    Ready,
    Poll { delay_ms: u64 },
    Fail(JobError),
}

pub ghost enum WaitVerdictView {
    Ready,
    Poll(u64),
    Fail(JobErrorView),
}

impl View for WaitVerdict {
    type V = WaitVerdictView;

    open spec fn view(&self) -> WaitVerdictView {
        match self {
            WaitVerdict::Ready => WaitVerdictView::Ready,
            WaitVerdict::Poll { delay_ms } => WaitVerdictView::Poll(*delay_ms),
            WaitVerdict::Fail(e) => WaitVerdictView::Fail(e@),
        }
    }
}

/// The delay before probing again after the page lost its context.
pub const CONTEXT_RETRY_MS: u64 = 500;

/// Waits until an element exists, is visible, is not covered by another one
/// and, where `check_clickable` is set, is enabled.
pub struct ElementWait {
    pub selector: String,
    pub timeout_ms: u64,
    pub check_clickable: bool,
    pub check_interval_ms: u64,
}

pub open spec fn quoted_name(selector: Seq<char>) -> Seq<char> {
    "Element '"@ + selector + "'"@
}

/// The error for an element that a wait gave up on, by what the last probe saw.
pub open spec fn element_wait_error(w: ElementWait, s: ProbeView) -> JobErrorView {
    let sel = w.selector@;
    if !s.exists {
        JobErrorView {
            context: Json::Object(seq![("selector"@, Json::Str(sel)), ("timeout_ms"@, Json::UInt(w.timeout_ms))]),
            ..not_found_error(quoted_name(sel) + " not found after "@ + decimal(w.timeout_ms as nat) + "ms"@)
        }
    } else if !s.visible {
        JobErrorView {
            context: Json::Object(seq![("selector"@, Json::Str(sel)), ("hint"@, Json::Str("Element may be hidden with CSS"@))]),
            ..not_found_error(quoted_name(sel) + " exists but not visible"@)
        }
    } else if s.obscured {
        JobErrorView {
            context: Json::Object(seq![
                ("selector"@, Json::Str(sel)),
                ("obscured_by"@, Json::Str(s.obscured_by)),
                ("suggestion"@, Json::Str("Use HandleCookieBanner or WaitAndClick"@)),
            ]),
            ..not_found_error(quoted_name(sel) + " obscured by "@ + s.obscured_by)
        }
    } else {
        not_found_error(quoted_name(sel) + " is disabled"@)
    }
}

/// The error for a wait that timed out without a readable probe.
pub open spec fn element_timeout_error(w: ElementWait) -> JobErrorView {
    JobErrorView {
        context: Json::Object(seq![("selector"@, Json::Str(w.selector@)), ("timeout_ms"@, Json::UInt(w.timeout_ms))]),
        ..delayed_error(ErrorCategory::Timeout, "Timeout waiting for element '"@ + w.selector@ + "'"@, 2000)
    }
}

pub open spec fn element_ready(w: ElementWait, s: ProbeView) -> bool {
    s.exists && s.visible && !s.obscured && (!w.check_clickable || !s.disabled)
}

/// What the wait does after a probe that returned `outcome`, `elapsed_ms`
/// after it began.
pub open spec fn element_step(w: ElementWait, outcome: Result<Json, Seq<char>>, elapsed_ms: u64) -> WaitVerdictView {
    match outcome {
        Err(e) => if context_lost(e) {
            if elapsed_ms >= w.timeout_ms {
                WaitVerdictView::Fail(element_timeout_error(w))
            } else {
                WaitVerdictView::Poll(CONTEXT_RETRY_MS)
            }
        } else {
            WaitVerdictView::Fail(driver_error(e, "WaitFor"@))
        },
        Ok(v) => match probe_view(v) {
            Some(s) => if element_ready(w, s) {
                WaitVerdictView::Ready
            } else if elapsed_ms >= w.timeout_ms {
                WaitVerdictView::Fail(element_wait_error(w, s))
            } else {
                WaitVerdictView::Poll(w.check_interval_ms)
            },
            None => if elapsed_ms >= w.timeout_ms {
                WaitVerdictView::Fail(element_timeout_error(w))
            } else {
                WaitVerdictView::Poll(w.check_interval_ms)
            },
        },
    }
}

pub open spec fn outcome_view(outcome: Result<JsonValue, String>) -> Result<Json, Seq<char>> {
    match outcome {
        Ok(v) => Ok(v.view_json()),
        Err(e) => Err(e@),
    }
}

impl ElementWait {
    /// The readiness probe for this wait's selector.
    pub fn probe_script(&self) -> (r: String)
        ensures
            r@ == js_call(CHECK_ELEMENT_STATE@, seq![json_quoted(self.selector@)]),
    {
        let ghost v = seq![json_quoted(self.selector@)];
        let args = vec![quote_json(self.selector.as_str())];
        assert(args@.map_values(|s: String| s@) =~= v);
        build_js_call(CHECK_ELEMENT_STATE, &args)
    }

    fn timed_out(&self) -> (r: JobError)
        ensures
            r@ == element_timeout_error(*self),
    {
        let msg = join3("Timeout waiting for element '", self.selector.as_str(), "'");
        JobError::timeout_error(msg.as_str()).with_context(
            JsonValue::object2("selector", JsonValue::Str(self.selector.clone()), "timeout_ms", JsonValue::UInt(self.timeout_ms)),
        )
    }

    fn failure(&self, s: &ElementState) -> (r: JobError)
        ensures
            r@ == element_wait_error(*self, s@),
    {
        let name = join3("Element '", self.selector.as_str(), "'");
        let sel = JsonValue::Str(self.selector.clone());
        if !s.exists {
            let msg = join2(name.as_str(), " not found after ").concat(u64_text(self.timeout_ms).as_str()).concat("ms");
            JobError::element_not_found(msg.as_str())
                .with_context(JsonValue::object2("selector", sel, "timeout_ms", JsonValue::UInt(self.timeout_ms)))
        } else if !s.visible {
            JobError::element_not_found(join2(name.as_str(), " exists but not visible").as_str())
                .with_context(JsonValue::object2("selector", sel, "hint", JsonValue::text("Element may be hidden with CSS")))
        } else if s.obscured {
            JobError::element_not_found(join3(name.as_str(), " obscured by ", s.obscured_by.as_str()).as_str())
                .with_context(JsonValue::object3(
                    "selector", sel,
                    "obscured_by", JsonValue::Str(s.obscured_by.clone()),
                    "suggestion", JsonValue::text("Use HandleCookieBanner or WaitAndClick"),
                ))
        } else {
            JobError::element_not_found(join2(name.as_str(), " is disabled").as_str())
        }
    }

    /// Decides what follows a probe that returned `outcome` (the probe's value,
    /// or the driver's error text), `elapsed_ms` after the wait began.
    pub fn step(&self, outcome: &Result<JsonValue, String>, elapsed_ms: u64) -> (r: WaitVerdict)
        ensures
            r@ == element_step(*self, outcome_view(*outcome), elapsed_ms),
    {
        match outcome {
            Err(e) => {
                if is_context_lost(e.as_str()) {
                    if elapsed_ms >= self.timeout_ms {
                        WaitVerdict::Fail(self.timed_out())
                    } else {
                        WaitVerdict::Poll { delay_ms: CONTEXT_RETRY_MS }
                    }
                } else {
                    WaitVerdict::Fail(to_job_error(e.as_str(), "WaitFor"))
                }
            },
            Ok(v) => match element_state_of(v) {
                Some(s) => {
                    if s.exists && s.visible && !s.obscured && (!self.check_clickable || !s.disabled) {
                        WaitVerdict::Ready
                    } else if elapsed_ms >= self.timeout_ms {
                        WaitVerdict::Fail(self.failure(&s))
                    } else {
                        WaitVerdict::Poll { delay_ms: self.check_interval_ms }
                    }
                },
                None => {
                    if elapsed_ms >= self.timeout_ms {
                        WaitVerdict::Fail(self.timed_out())
                    } else {
                        WaitVerdict::Poll { delay_ms: self.check_interval_ms }
                    }
                },
            },
        }
    }
}

/// With a zero timeout, the first probe that finds no element ends the wait
/// with an element-not-found error, whenever it comes.
pub proof fn lemma_zero_timeout_fails_at_once(w: ElementWait, v: Json, elapsed_ms: u64)
    requires
        w.timeout_ms == 0,
        probe_view(v) matches Some(p) && !p.exists,
    ensures
        element_step(w, Ok(v), elapsed_ms) matches WaitVerdictView::Fail(e) && e.category == ErrorCategory::ElementNotFound,
{
}

/// Consecutive quiet probes that make a page stable.
pub const STABLE_PROBES: u32 = 5;

/// The delay before probing again after the page lost its context during a
/// stability wait.
pub const STABILITY_CONTEXT_RETRY_MS: u64 = 1000;

/// What a stability wait does next.
#[derive(Debug)]
pub enum StabilityVerdict {
    /// The page was quiet for enough probes in a row.
    Stable,
    /// The wait ran out; the page is taken as it is.
    TimedOut,
    Poll { delay_ms: u64 },
    Fail(JobError),
}

pub ghost enum StabilityVerdictView {
    Stable,
    TimedOut,
    Poll(u64),
    Fail(JobErrorView),
}

impl View for StabilityVerdict {
    type V = StabilityVerdictView;

    open spec fn view(&self) -> StabilityVerdictView {
        match self {
            StabilityVerdict::Stable => StabilityVerdictView::Stable,
            StabilityVerdict::TimedOut => StabilityVerdictView::TimedOut,
            StabilityVerdict::Poll { delay_ms } => StabilityVerdictView::Poll(*delay_ms),
            StabilityVerdict::Fail(e) => StabilityVerdictView::Fail(e@),
        }
    }
}

/// A probe of the page's load state: `complete`, with no request in flight.
pub open spec fn page_quiet(v: Json) -> bool {
    &&& v.get("readyState"@) == Some(Json::Str("complete"@))
    &&& match v.get("activeRequests"@) {
        Some(Json::UInt(n)) => n == 0,
        _ => true,
    }
}

/// Waits until the page has finished loading and has no request in flight
/// for `STABLE_PROBES` probes in a row; any other probe, an unreadable one
/// included, starts the count again. It never fails on time: at the
/// timeout it lets the job go on.
pub struct StabilityWait {
    pub timeout_ms: u64,
    pub check_interval_ms: u64,
    /// Quiet probes in a row so far.
    pub stable_checks: u32,
}

impl StabilityWait {
    /// The load-state probe.
    pub fn probe_script(&self) -> (r: String)
        ensures
            r@ == js_call(CHECK_LOADING@, Seq::empty()),
    {
        let args: Vec<String> = Vec::new();
        assert(args@.map_values(|s: String| s@) =~= Seq::<Seq<char>>::empty());
        build_js_call(CHECK_LOADING, &args)
    }

    pub fn new(timeout_ms: u64, check_interval_ms: u64) -> (r: StabilityWait)
        ensures
            r.timeout_ms == timeout_ms,
            r.check_interval_ms == check_interval_ms,
            r.stable_checks == 0,
    {
        StabilityWait { timeout_ms, check_interval_ms, stable_checks: 0 }
    }

    /// Decides what follows a probe that returned `outcome`, `elapsed_ms` after
    /// the wait began. A lost context or a busy page starts the count again.
    pub fn step(&mut self, outcome: &Result<JsonValue, String>, elapsed_ms: u64) -> (r: StabilityVerdict)
        requires
            old(self).stable_checks < STABLE_PROBES,
        ensures
            final(self).timeout_ms == old(self).timeout_ms,
            final(self).check_interval_ms == old(self).check_interval_ms,
            final(self).stable_checks < STABLE_PROBES || r is Stable,
            match outcome_view(*outcome) {
                Err(e) => if context_lost(e) {
                    &&& final(self).stable_checks == 0
                    &&& if elapsed_ms >= old(self).timeout_ms {
                        r is TimedOut
                    } else {
                        r@ == StabilityVerdictView::Poll(STABILITY_CONTEXT_RETRY_MS)
                    }
                } else {
                    r@ == StabilityVerdictView::Fail(driver_error(e, "WaitForStable"@))
                },
                Ok(v) => {
                    &&& final(self).stable_checks == if page_quiet(v) {
                        (old(self).stable_checks + 1) as u32
                    } else {
                        0
                    }
                    &&& if final(self).stable_checks >= STABLE_PROBES {
                        r is Stable
                    } else if elapsed_ms >= old(self).timeout_ms {
                        r is TimedOut
                    } else {
                        r@ == StabilityVerdictView::Poll(old(self).check_interval_ms)
                    }
                },
            },
    {
        match outcome {
            Err(e) => {
                if is_context_lost(e.as_str()) {
                    self.stable_checks = 0;
                    if elapsed_ms >= self.timeout_ms {
                        StabilityVerdict::TimedOut
                    } else {
                        StabilityVerdict::Poll { delay_ms: STABILITY_CONTEXT_RETRY_MS }
                    }
                } else {
                    StabilityVerdict::Fail(to_job_error(e.as_str(), "WaitForStable"))
                }
            },
            Ok(v) => {
                let complete = match v.text_field("readyState") {
                    Some(s) => same_text(s.as_str(), "complete"),
                    None => false,
                };
                let active = match v.u64_field("activeRequests") {
                    Some(n) => n,
                    None => 0,
                };
                if complete && active == 0 {
                    self.stable_checks = self.stable_checks + 1;
                    if self.stable_checks >= STABLE_PROBES {
                        return StabilityVerdict::Stable;
                    }
                } else {
                    self.stable_checks = 0;
                }
                if elapsed_ms >= self.timeout_ms {
                    StabilityVerdict::TimedOut
                } else {
                    StabilityVerdict::Poll { delay_ms: self.check_interval_ms }
                }
            },
        }
    }
}

/// The delay between two searches for a cookie banner.
pub const COOKIE_RETRY_MS: u64 = 500;

/// The wait after a click on a cookie banner button, for the banner to go.
pub const COOKIE_CLICK_SETTLE_MS: u64 = 1000;

/// What the cookie banner action records when a probe clicked a button.
pub open spec fn cookie_clicked_json(text: Seq<char>) -> Json {
    Json::Object(seq![("clicked"@, Json::Bool(true)), ("button_text"@, Json::Str(text))])
}

/// What the cookie banner action records when it found no button in time.
pub open spec fn cookie_not_found_json() -> Json {
    Json::Object(seq![("clicked"@, Json::Bool(false)), ("reason"@, Json::Str("not found"@))])
}

/// Reads a search for a cookie banner button: the value to record when it
/// clicked one, nothing when it did not or the driver failed.
pub fn cookie_banner_clicked(outcome: &Result<JsonValue, String>) -> (r: Option<JsonValue>)
    ensures
        match outcome_view(*outcome) {
            Ok(v) => if v.get("clicked"@) == Some(Json::Bool(true)) {
                r is Some && r->0.view_json() == cookie_clicked_json(text_or(v, "text"@, Seq::empty()))
            } else {
                r is None
            },
            Err(_) => r is None,
        },
{
    match outcome {
        Ok(v) => match v.get("clicked") {
            Some(JsonValue::Bool(true)) => {
                let text = match v.text_field("text") {
                    Some(s) => s.clone(),
                    None => String::new(),
                };
                Some(JsonValue::object2("clicked", JsonValue::Bool(true), "button_text", JsonValue::Str(text)))
            },
            _ => None,
        },
        Err(_) => None,
    }
}

/// The value recorded when no cookie banner button was found in time; the
/// action does not fail.
pub fn cookie_banner_not_found() -> (r: JsonValue)
    ensures
        r.view_json() == cookie_not_found_json(),
{
    JsonValue::object2("clicked", JsonValue::Bool(false), "reason", JsonValue::text("not found"))
}

/// What the cookie banner search does next.
#[derive(Debug)]
pub enum CookieVerdict {
    /// Run the search probe now.
    Search,
    /// A button was clicked: record this value, then let the banner go.
    Clicked(JsonValue),
    /// Nothing clicked yet: wait, then ask again.
    Poll { delay_ms: u64 },
    /// Time is up: record that nothing was found; the action does not fail.
    GaveUp,
}

pub ghost enum CookieVerdictView {
    Search,
    Clicked(Json),
    Poll(u64),
    GaveUp,
}

impl View for CookieVerdict {
    type V = CookieVerdictView;

    open spec fn view(&self) -> CookieVerdictView {
        match self {
            CookieVerdict::Search => CookieVerdictView::Search,
            CookieVerdict::Clicked(v) => CookieVerdictView::Clicked(v.view_json()),
            CookieVerdict::Poll { delay_ms } => CookieVerdictView::Poll(*delay_ms),
            CookieVerdict::GaveUp => CookieVerdictView::GaveUp,
        }
    }
}

/// The value a cookie banner search reports as clicked, if it clicked one.
pub open spec fn cookie_click(outcome: Result<Json, Seq<char>>) -> Option<Json> {
    match outcome {
        Ok(v) => if v.get("clicked"@) == Some(Json::Bool(true)) {
            Some(cookie_clicked_json(text_or(v, "text"@, Seq::empty())))
        } else {
            None
        },
        Err(_) => None,
    }
}

/// Searches for a consent button until one is clicked or the time is up.
pub struct CookieBannerWait {
    pub timeout_ms: u64,
}

/// The next move of a cookie banner search, `elapsed_ms` after it began:
/// with no fresh result, search while time remains; after a search, stop on
/// a click, else pause and ask again.
pub open spec fn cookie_step(w: CookieBannerWait, outcome: Option<Result<Json, Seq<char>>>, elapsed_ms: u64) -> CookieVerdictView {
    match outcome {
        None => if elapsed_ms < w.timeout_ms { CookieVerdictView::Search } else { CookieVerdictView::GaveUp },
        Some(o) => match cookie_click(o) {
            Some(v) => CookieVerdictView::Clicked(v),
            None => CookieVerdictView::Poll(COOKIE_RETRY_MS),
        },
    }
}

pub open spec fn fresh_view(outcome: Option<&Result<JsonValue, String>>) -> Option<Result<Json, Seq<char>>> {
    match outcome {
        Some(o) => Some(outcome_view(*o)),
        None => None,
    }
}

impl CookieBannerWait {
    pub fn new(timeout_ms: u64) -> (r: CookieBannerWait)
        ensures
            r.timeout_ms == timeout_ms,
    {
        CookieBannerWait { timeout_ms }
    }

    /// Decides the next move; `outcome` is the result of the search just run,
    /// if one was.
    pub fn step(&self, outcome: Option<&Result<JsonValue, String>>, elapsed_ms: u64) -> (r: CookieVerdict)
        ensures
            r@ == cookie_step(*self, fresh_view(outcome), elapsed_ms),
    {
        match outcome {
            None => if elapsed_ms < self.timeout_ms { CookieVerdict::Search } else { CookieVerdict::GaveUp },
            Some(o) => match cookie_banner_clicked(o) {
                Some(v) => CookieVerdict::Clicked(v),
                None => CookieVerdict::Poll { delay_ms: COOKIE_RETRY_MS },
            },
        }
    }
}

} // verus!
