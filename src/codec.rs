use vstd::prelude::*;
use crate::error::{ErrorCategory, JobError, JobErrorView};
use crate::job::JobResult;
use crate::json::{field_in, lemma_object_fields, Json, JsonValue};
use crate::text::same_text;

verus! {

/// The name under which a category is written.
pub open spec fn category_name(c: ErrorCategory) -> Seq<char> {
    match c {
        ErrorCategory::Network => "Network"@,
        ErrorCategory::ElementNotFound => "ElementNotFound"@,
        ErrorCategory::ScriptExecution => "ScriptExecution"@,
        ErrorCategory::Navigation => "Navigation"@,
        ErrorCategory::Browser => "Browser"@,
        ErrorCategory::Parsing => "Parsing"@,
        ErrorCategory::Timeout => "Timeout"@,
        ErrorCategory::Auth => "Auth"@,
        ErrorCategory::RateLimit => "RateLimit"@,
        ErrorCategory::Captcha => "Captcha"@,
        ErrorCategory::Unknown => "Unknown"@,
    }
}

/// The category written as `name`, if any.
pub open spec fn category_named(name: Seq<char>) -> Option<ErrorCategory> {
    if exists|c: ErrorCategory| category_name(c) == name {
        Some(choose|c: ErrorCategory| category_name(c) == name)
    } else {
        None
    }
}

/// An error as a JSON object: category, message, context, recoverable and
/// retry_after_ms (`null` when there is none), in that order.
pub open spec fn error_json(e: JobErrorView) -> Json {
    Json::Object(seq![
        ("category"@, Json::Str(category_name(e.category))),
        ("message"@, Json::Str(e.message)),
        ("context"@, e.context),
        ("recoverable"@, Json::Bool(e.recoverable)),
        ("retry_after_ms"@, match e.retry_after_ms {
            Some(ms) => Json::UInt(ms),
            None => Json::Null,
        }),
    ])
}

/// The error that a JSON value describes, if it describes one. Every field is
/// required; retry_after_ms is an unsigned integer or `null`.
pub open spec fn error_from(j: Json) -> Option<JobErrorView> {
    match (j.get("category"@), j.get("message"@), j.get("context"@), j.get("recoverable"@), j.get("retry_after_ms"@)) {
        (Some(Json::Str(name)), Some(Json::Str(message)), Some(context), Some(Json::Bool(recoverable)), Some(retry)) => {
            match (category_named(name), retry) {
                (Some(category), Json::UInt(ms)) => Some(JobErrorView { category, message, context, recoverable, retry_after_ms: Some(ms) }),
                (Some(category), Json::Null) => Some(JobErrorView { category, message, context, recoverable, retry_after_ms: None }),
                _ => None,
            }
        },
        _ => None,
    }
}

pub ghost struct JobResultView {
    pub job_id: Seq<char>,
    pub success: bool,
    pub output: Json,
}

impl View for JobResult {
    type V = JobResultView;

    open spec fn view(&self) -> JobResultView {
        JobResultView { job_id: self.job_id@, success: self.success, output: self.output.view_json() }
    }
}

/// A result as the JSON object that storage keeps: job_id, success, output.
pub open spec fn result_json(r: JobResultView) -> Json {
    Json::Object(seq![
        ("job_id"@, Json::Str(r.job_id)),
        ("success"@, Json::Bool(r.success)),
        ("output"@, r.output),
    ])
}

/// The result that a stored JSON value describes, if it describes one.
pub open spec fn result_from(j: Json) -> Option<JobResultView> {
    match (j.get("job_id"@), j.get("success"@), j.get("output"@)) {
        (Some(Json::Str(job_id)), Some(Json::Bool(success)), Some(output)) => Some(JobResultView { job_id, success, output }),
        _ => None,
    }
}

pub fn category_text(c: ErrorCategory) -> (r: &'static str)
    ensures
        r@ == category_name(c),
{
    match c {
        ErrorCategory::Network => "Network",
        ErrorCategory::ElementNotFound => "ElementNotFound",
        ErrorCategory::ScriptExecution => "ScriptExecution",
        ErrorCategory::Navigation => "Navigation",
        ErrorCategory::Browser => "Browser",
        ErrorCategory::Parsing => "Parsing",
        ErrorCategory::Timeout => "Timeout",
        ErrorCategory::Auth => "Auth",
        ErrorCategory::RateLimit => "RateLimit",
        ErrorCategory::Captcha => "Captcha",
        ErrorCategory::Unknown => "Unknown",
    }
}

proof fn lemma_category_names_distinct()
    ensures
        forall|a: ErrorCategory, b: ErrorCategory| category_name(a) == category_name(b) ==> a == b,
{
    reveal_strlit("Network");
    reveal_strlit("ElementNotFound");
    reveal_strlit("ScriptExecution");
    reveal_strlit("Navigation");
    reveal_strlit("Browser");
    reveal_strlit("Parsing");
    reveal_strlit("Timeout");
    reveal_strlit("Auth");
    reveal_strlit("RateLimit");
    reveal_strlit("Captcha");
    reveal_strlit("Unknown");
    assert forall|c: ErrorCategory| #[trigger] category_name(c).len() == category_len(c) && category_name(c)[0] == category_initial(c) by {
        match c {
            ErrorCategory::Network => {},
            ErrorCategory::ElementNotFound => {},
            ErrorCategory::ScriptExecution => {},
            ErrorCategory::Navigation => {},
            ErrorCategory::Browser => {},
            ErrorCategory::Parsing => {},
            ErrorCategory::Timeout => {},
            ErrorCategory::Auth => {},
            ErrorCategory::RateLimit => {},
            ErrorCategory::Captcha => {},
            ErrorCategory::Unknown => {},
        }
    }
    assert forall|a: ErrorCategory, b: ErrorCategory| category_name(a) == category_name(b) implies a == b by {
        assert(category_name(a).len() == category_len(a) && category_name(b).len() == category_len(b));
    }
}

spec fn category_len(c: ErrorCategory) -> int {
    match c {
        ErrorCategory::Network => 7,
        ErrorCategory::ElementNotFound => 15,
        ErrorCategory::ScriptExecution => 15,
        ErrorCategory::Navigation => 10,
        ErrorCategory::Browser => 7,
        ErrorCategory::Parsing => 7,
        ErrorCategory::Timeout => 7,
        ErrorCategory::Auth => 4,
        ErrorCategory::RateLimit => 9,
        ErrorCategory::Captcha => 7,
        ErrorCategory::Unknown => 7,
    }
}

spec fn category_initial(c: ErrorCategory) -> char {
    match c {
        ErrorCategory::Network => 'N',
        ErrorCategory::ElementNotFound => 'E',
        ErrorCategory::ScriptExecution => 'S',
        ErrorCategory::Navigation => 'N',
        ErrorCategory::Browser => 'B',
        ErrorCategory::Parsing => 'P',
        ErrorCategory::Timeout => 'T',
        ErrorCategory::Auth => 'A',
        ErrorCategory::RateLimit => 'R',
        ErrorCategory::Captcha => 'C',
        ErrorCategory::Unknown => 'U',
    }
}

/// The category written as `name`.
pub fn category_from_text(name: &str) -> (r: Option<ErrorCategory>)
    ensures
        r == category_named(name@),
{
    proof { lemma_category_names_distinct(); }
    let all = [
        ErrorCategory::Network, ErrorCategory::ElementNotFound, ErrorCategory::ScriptExecution,
        ErrorCategory::Navigation, ErrorCategory::Browser, ErrorCategory::Parsing, ErrorCategory::Timeout,
        ErrorCategory::Auth, ErrorCategory::RateLimit, ErrorCategory::Captcha, ErrorCategory::Unknown,
    ];
    let mut i: usize = 0;
    while i < 11
        invariant
            0 <= i <= 11,
            all@ == seq![
                ErrorCategory::Network, ErrorCategory::ElementNotFound, ErrorCategory::ScriptExecution,
                ErrorCategory::Navigation, ErrorCategory::Browser, ErrorCategory::Parsing, ErrorCategory::Timeout,
                ErrorCategory::Auth, ErrorCategory::RateLimit, ErrorCategory::Captcha, ErrorCategory::Unknown,
            ],
            forall|j: int| 0 <= j < i ==> category_name(all@[j]) != name@,
        decreases 11 - i,
    {
        if same_text(category_text(all[i]), name) {
            proof { lemma_category_names_distinct(); }
            let ghost c = all@[i as int];
            assert(category_name(c) == name@);
            let ghost d = choose|d: ErrorCategory| category_name(d) == name@;
            assert(category_name(d) == name@);
            assert(d == c);
            return Some(all[i]);
        }
        i = i + 1;
    }
    assert forall|c: ErrorCategory| category_name(c) != name@ by {
        match c {
            ErrorCategory::Network => assert(all@[0] == c),
            ErrorCategory::ElementNotFound => assert(all@[1] == c),
            ErrorCategory::ScriptExecution => assert(all@[2] == c),
            ErrorCategory::Navigation => assert(all@[3] == c),
            ErrorCategory::Browser => assert(all@[4] == c),
            ErrorCategory::Parsing => assert(all@[5] == c),
            ErrorCategory::Timeout => assert(all@[6] == c),
            ErrorCategory::Auth => assert(all@[7] == c),
            ErrorCategory::RateLimit => assert(all@[8] == c),
            ErrorCategory::Captcha => assert(all@[9] == c),
            ErrorCategory::Unknown => assert(all@[10] == c),
        }
    }
    None
}

impl JobError {
    /// This error as a JSON object (see `error_json`).
    pub fn to_json(&self) -> (r: JsonValue)
        ensures
            r.view_json() == error_json(self@),
    {
        let retry = match self.retry_after_ms {
            Some(ms) => JsonValue::UInt(ms),
            None => JsonValue::Null,
        };
        let k0 = String::from_str("category");
        let k1 = String::from_str("message");
        let k2 = String::from_str("context");
        let k3 = String::from_str("recoverable");
        let k4 = String::from_str("retry_after_ms");
        let v0 = JsonValue::text(category_text(self.category));
        let v1 = JsonValue::Str(self.message.clone());
        let v2 = self.context.clone_value();
        let v3 = JsonValue::Bool(self.recoverable);
        let fields = vec![(k0, v0), (k1, v1), (k2, v2), (k3, v3), (k4, retry)];
        proof { lemma_object_fields(fields); }
        let ghost model = error_json(self@)->Object_0;
        assert(fields@[0].0@ == model[0].0 && fields@[0].1.view_json() == model[0].1);
        assert(fields@[1].0@ == model[1].0 && fields@[1].1.view_json() == model[1].1);
        assert(fields@[2].0@ == model[2].0 && fields@[2].1.view_json() == model[2].1);
        assert(fields@[3].0@ == model[3].0 && fields@[3].1.view_json() == model[3].1);
        assert(fields@[4].0@ == model[4].0 && fields@[4].1.view_json() == model[4].1);
        let r = JsonValue::Object(fields);
        assert(r.view_json()->Object_0 =~= error_json(self@)->Object_0);
        r
    }

    /// The error that `j` describes; nothing when it describes none.
    pub fn from_json(j: &JsonValue) -> (r: Option<JobError>)
        ensures
            r matches Some(e) ==> error_from(j.view_json()) == Some(e@),
            r is None ==> error_from(j.view_json()) is None,
    {
        let name = match j.get("category") { Some(JsonValue::Str(s)) => s, _ => { return None; } };
        let message = match j.get("message") { Some(JsonValue::Str(s)) => s, _ => { return None; } };
        let context = match j.get("context") { Some(v) => v, None => { return None; } };
        let recoverable = match j.get("recoverable") { Some(JsonValue::Bool(b)) => *b, _ => { return None; } };
        let retry = match j.get("retry_after_ms") { Some(v) => v, None => { return None; } };
        let category = match category_from_text(name.as_str()) { Some(c) => c, None => { return None; } };
        let retry_after_ms = match retry {
            JsonValue::UInt(ms) => Some(*ms),
            JsonValue::Null => None,
            _ => { return None; },
        };
        Some(JobError { category, message: message.clone(), context: context.clone_value(), recoverable, retry_after_ms })
    }
}

impl JobResult {
    /// This result as the JSON object that storage keeps (see `result_json`).
    pub fn to_json(&self) -> (r: JsonValue)
        ensures
            r.view_json() == result_json(self@),
    {
        let k0 = String::from_str("job_id");
        let k1 = String::from_str("success");
        let k2 = String::from_str("output");
        let v0 = JsonValue::Str(self.job_id.clone());
        let v2 = self.output.clone_value();
        let fields = vec![(k0, v0), (k1, JsonValue::Bool(self.success)), (k2, v2)];
        proof { lemma_object_fields(fields); }
        assert(fields@[0].0@ == "job_id"@ && fields@[0].1.view_json() == Json::Str(self.job_id@));
        assert(fields@[1].0@ == "success"@ && fields@[1].1.view_json() == Json::Bool(self.success));
        assert(fields@[2].0@ == "output"@ && fields@[2].1.view_json() == self.output.view_json());
        let r = JsonValue::Object(fields);
        assert(r.view_json()->Object_0 =~= result_json(self@)->Object_0);
        r
    }

    /// The result that a stored JSON value describes; nothing when it describes none.
    pub fn from_json(j: &JsonValue) -> (r: Option<JobResult>)
        ensures
            r matches Some(res) ==> result_from(j.view_json()) == Some(res@),
            r is None ==> result_from(j.view_json()) is None,
    {
        let job_id = match j.get("job_id") { Some(JsonValue::Str(s)) => s, _ => { return None; } };
        let success = match j.get("success") { Some(JsonValue::Bool(b)) => *b, _ => { return None; } };
        let output = match j.get("output") { Some(v) => v, None => { return None; } };
        Some(JobResult { job_id: job_id.clone(), success, output: output.clone_value() })
    }
}

/// Reading back the JSON form of an error gives the same error.
pub proof fn lemma_error_round_trip(e: JobErrorView)
    ensures
        error_from(error_json(e)) == Some(e),
{
    reveal_strlit("category");
    reveal_strlit("message");
    reveal_strlit("context");
    reveal_strlit("recoverable");
    reveal_strlit("retry_after_ms");
    reveal_with_fuel(field_in, 6);
    lemma_category_names_distinct();
    assert("message"@[0] != "context"@[0]);
    assert("category"@[1] != "context"@[1]);
    assert("category"@[0] != "message"@[0] && "category"@[0] != "recoverable"@[0] && "category"@[0] != "retry_after_ms"@[0]);
    assert("message"@[0] != "recoverable"@[0] && "message"@[0] != "retry_after_ms"@[0]);
    assert("context"@[0] != "recoverable"@[0] && "context"@[0] != "retry_after_ms"@[0]);
    assert("recoverable"@[2] != "retry_after_ms"@[2]);
    let fields = error_json(e)->Object_0;
    let f1 = fields.drop_first();
    let f2 = f1.drop_first();
    let f3 = f2.drop_first();
    let f4 = f3.drop_first();
    assert(f1[0] == fields[1] && f2[0] == fields[2] && f3[0] == fields[3] && f4[0] == fields[4]);
    assert(field_in(f3, "retry_after_ms"@) == Some(fields[4].1));
    assert(category_named(category_name(e.category)) == Some(e.category));
}

/// Reading back what storage keeps of a result gives the same result.
pub proof fn lemma_result_round_trip(r: JobResultView)
    ensures
        result_from(result_json(r)) == Some(r),
{
    reveal_strlit("job_id");
    reveal_strlit("success");
    reveal_strlit("output");
    reveal_with_fuel(field_in, 4);
    let fields = result_json(r)->Object_0;
    assert(fields.drop_first()[0] == fields[1]);
    assert(fields.drop_first().drop_first()[0] == fields[2]);
    assert("job_id"@[0] != "output"@[0] && "job_id"@[0] != "success"@[0] && "success"@[0] != "output"@[0]);
}

} // verus!
