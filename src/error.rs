use vstd::prelude::*;
use crate::json::{Json, JsonValue};
use crate::text::join2;

verus! {

/// What kind of failure a job ran into.
#[derive(Clone, Copy, Debug, PartialEq, Eq, Structural)]
pub enum ErrorCategory {
    /// Network-related errors (timeouts, connection failures)
    Network,
    /// Element not found or selector issues
    ElementNotFound,
    /// JavaScript execution errors
    ScriptExecution,
    /// Navigation or page load errors
    Navigation,
    /// Browser/driver errors
    Browser,
    /// Parsing errors (HTML/JSON)
    Parsing,
    /// Timeout errors
    Timeout,
    /// Authentication/authorization errors
    Auth,
    /// Rate limiting or blocking
    RateLimit,
    /// CAPTCHA detected
    Captcha,
    /// Unknown or uncategorized errors
    Unknown,
}

/// A classified failure, with diagnostics and a recovery hint.
#[derive(Debug, PartialEq)]
pub struct JobError {
    pub category: ErrorCategory,
    pub message: String,
    pub context: JsonValue,
    pub recoverable: bool,
    /// Suggested delay before a retry, in milliseconds.
    pub retry_after_ms: Option<u64>,
}

pub ghost struct JobErrorView {
    pub category: ErrorCategory,
    pub message: Seq<char>,
    pub context: Json,
    pub recoverable: bool,
    pub retry_after_ms: Option<u64>,
}

impl View for JobError {
    type V = JobErrorView;

    open spec fn view(&self) -> JobErrorView {
        JobErrorView {
            category: self.category,
            message: self.message@,
            context: self.context.view_json(),
            recoverable: self.recoverable,
            retry_after_ms: self.retry_after_ms,
        }
    }
}

/// The empty JSON object.
pub open spec fn empty_object() -> Json {
    Json::Object(Seq::empty())
}

/// An object with the single field `key`.
pub open spec fn single_field(key: Seq<char>, value: Json) -> Json {
    Json::Object(seq![(key, value)])
}

/// The error that `JobError::new` builds.
pub open spec fn plain_error(category: ErrorCategory, message: Seq<char>) -> JobErrorView {
    JobErrorView {
        category,
        message,
        context: empty_object(),
        recoverable: false,
        retry_after_ms: None,
    }
}

/// A recoverable error with a suggested delay.
pub open spec fn delayed_error(category: ErrorCategory, message: Seq<char>, ms: u64) -> JobErrorView {
    JobErrorView { recoverable: true, retry_after_ms: Some(ms), ..plain_error(category, message) }
}

pub fn single_object(key: &str, value: JsonValue) -> (r: JsonValue)
    ensures
        r.view_json() == single_field(key@, value.view_json()),
{
    let r = JsonValue::Object(vec![(key.to_owned(), value)]);
    assert(r.view_json()->Object_0 =~= seq![(key@, value.view_json())]);
    r
}

impl JobError {
    /// An error of `category` with an empty context, not recoverable.
    pub fn new(category: ErrorCategory, message: &str) -> (r: JobError)
        ensures
            r@ == plain_error(category, message@),
    {
        let r = JobError {
            category,
            message: message.to_owned(),
            context: JsonValue::Object(Vec::new()),
            recoverable: false,
            retry_after_ms: None,
        };
        assert(r.context.view_json()->Object_0 =~= Seq::<(Seq<char>, Json)>::empty());
        r
    }

    pub fn with_context(self, context: JsonValue) -> (r: JobError)
        ensures
            r@ == (JobErrorView { context: context.view_json(), ..self@ }),
    {
        JobError { context, ..self }
    }

    pub fn recoverable(self) -> (r: JobError)
        ensures
            r@ == (JobErrorView { recoverable: true, ..self@ }),
    {
        JobError { recoverable: true, ..self }
    }

    /// Sets the suggested retry delay; an error with one is recoverable.
    pub fn with_retry_delay(self, ms: u64) -> (r: JobError)
        ensures
            r@ == (JobErrorView { recoverable: true, retry_after_ms: Some(ms), ..self@ }),
    {
        JobError { recoverable: true, retry_after_ms: Some(ms), ..self }
    }

    pub fn fetch_error(message: &str) -> (r: JobError)
        ensures
            r@ == delayed_error(ErrorCategory::Network, message@, 1000),
    {
        JobError::new(ErrorCategory::Network, message).recoverable().with_retry_delay(1000)
    }

    /// Names the missing selector in the message and in the context.
    pub fn element_not_found(selector: &str) -> (r: JobError)
        ensures
            r@ == (JobErrorView {
                context: single_field("selector"@, Json::Str(selector@)),
                ..plain_error(ErrorCategory::ElementNotFound, "Element not found: "@ + selector@)
            }),
    {
        let message = join2("Element not found: ", selector);
        JobError::new(ErrorCategory::ElementNotFound, message.as_str())
            .with_context(single_object("selector", JsonValue::text(selector)))
    }

    pub fn timeout_error(message: &str) -> (r: JobError)
        ensures
            r@ == delayed_error(ErrorCategory::Timeout, message@, 2000),
    {
        JobError::new(ErrorCategory::Timeout, message).recoverable().with_retry_delay(2000)
    }

    pub fn script_error(message: &str) -> (r: JobError)
        ensures
            r@ == plain_error(ErrorCategory::ScriptExecution, message@),
    {
        JobError::new(ErrorCategory::ScriptExecution, message)
    }

    pub fn navigation_error(message: &str) -> (r: JobError)
        ensures
            r@ == delayed_error(ErrorCategory::Navigation, message@, 1500),
    {
        JobError::new(ErrorCategory::Navigation, message).recoverable().with_retry_delay(1500)
    }

    pub fn browser_error(message: &str) -> (r: JobError)
        ensures
            r@ == plain_error(ErrorCategory::Browser, message@),
    {
        JobError::new(ErrorCategory::Browser, message)
    }

    pub fn parsing_error(message: &str) -> (r: JobError)
        ensures
            r@ == plain_error(ErrorCategory::Parsing, message@),
    {
        JobError::new(ErrorCategory::Parsing, message)
    }

    /// A CAPTCHA error, with a hint in its context.
    pub fn captcha_detected(message: &str) -> (r: JobError)
        ensures
            r@ == (JobErrorView {
                context: single_field("hint"@, Json::Str("CAPTCHA detected, job cannot proceed"@)),
                ..plain_error(ErrorCategory::Captcha, message@)
            }),
    {
        JobError::new(ErrorCategory::Captcha, message)
            .with_context(single_object("hint", JsonValue::text("CAPTCHA detected, job cannot proceed")))
    }
}

} // verus!
