use vstd::prelude::*;
use crate::error::{plain_error, ErrorCategory, JobError};
use crate::job::{Action, Job, JobResult, ScrapingAction};
use crate::json::{lemma_array_items, Json, JsonValue};
use crate::actions::names_of;
use crate::output::{job_output, put, Fields, ObjectBuilder};
use crate::text::same_text;

verus! {

/// The selector text is valid CSS selector syntax.
pub uninterp spec fn selector_parses(selector: Seq<char>) -> bool;

/// Relies on `scraper::Selector::parse`: the parse error, written with its
/// derived `Debug`, or nothing when the selector parses.
#[verifier::external_body]
fn selector_error(selector: &str) -> (r: Option<String>)
    ensures
        r is None <==> selector_parses(selector@),
{
    scraper::Selector::parse(selector).err().map(|e| format!("{:?}", e))
}

/// What the elements of the page `html` that `selector` matches show, in
/// document order: for each, its text, its inner HTML, and the value of each
/// attribute named in `attrs` (nothing where it is missing).
pub uninterp spec fn page_matches(html: Seq<char>, selector: Seq<char>, attrs: Seq<Seq<char>>) -> Seq<(Seq<char>, Seq<char>, Seq<Option<Seq<char>>>)>;

/// What the static worker reads of one matched element: its text, its inner
/// HTML, and the requested attributes (nothing where one is missing).
pub struct ScrapedElement {
    pub text: String,
    pub inner_html: String,
    pub attrs: Vec<Option<String>>,
}

pub ghost struct ScrapedView {
    pub text: Seq<char>,
    pub inner_html: Seq<char>,
    pub attrs: Seq<Option<Seq<char>>>,
}

impl View for ScrapedElement {
    type V = ScrapedView;

    open spec fn view(&self) -> ScrapedView {
        ScrapedView {
            text: self.text@,
            inner_html: self.inner_html@,
            attrs: self.attrs@.map_values(|a: Option<String>| match a {
                Some(s) => Some(s@),
                None => None,
            }),
        }
    }
}

pub open spec fn scraped_of(t: (Seq<char>, Seq<char>, Seq<Option<Seq<char>>>)) -> ScrapedView {
    ScrapedView { text: t.0, inner_html: t.1, attrs: t.2 }
}

pub open spec fn scraped_all(ts: Seq<(Seq<char>, Seq<char>, Seq<Option<Seq<char>>>)>) -> Seq<ScrapedView> {
    ts.map_values(|t: (Seq<char>, Seq<char>, Seq<Option<Seq<char>>>)| scraped_of(t))
}

/// Relies on `scraper::Html::parse_document` of `html`, `Selector::parse`,
/// `Html::select`, and on each match `ElementRef::text`, `ElementRef::inner_html`
/// and `Element::attr`: one entry per match, one attribute slot per name.
/// With scraper's `deterministic` feature an element keeps its attributes in
/// source order, so the inner HTML, like the rest, depends on the page alone.
#[verifier::external_body]
fn select_matches(html: &str, selector: &str, attrs: &Vec<String>) -> (r: Vec<ScrapedElement>)
    requires
        selector_parses(selector@),
    ensures
        elements_view(r@) == scraped_all(page_matches(html@, selector@, names_of(*attrs))),
        forall|i: int| 0 <= i < r.len() ==> (#[trigger] r[i]).attrs.len() == attrs.len(),
{
    let sel = match scraper::Selector::parse(selector) {
        Ok(sel) => sel,
        Err(_) => return Vec::new(),
    };
    scraper::Html::parse_document(html).select(&sel).map(|e| ScrapedElement {
        text: e.text().collect::<String>(),
        inner_html: e.inner_html(),
        attrs: attrs.iter().map(|a| e.value().attr(a).map(|v| v.to_string())).collect(),
    }).collect()
}

pub open spec fn elements_view(elems: Seq<ScrapedElement>) -> Seq<ScrapedView> {
    elems.map_values(|e: ScrapedElement| e@)
}

/// An attribute value, or the empty text where the attribute is missing.
pub open spec fn attr_or_empty(v: Option<Seq<char>>) -> Seq<char> {
    match v {
        Some(s) => s,
        None => Seq::empty(),
    }
}

/// The field `name` of a matched element: its text for `text`, its inner HTML
/// for `html`, else the attribute in slot `k`.
pub open spec fn element_field(e: ScrapedView, name: Seq<char>, k: int) -> Json {
    if name == "text"@ {
        Json::Str(e.text)
    } else if name == "html"@ {
        Json::Str(e.inner_html)
    } else {
        Json::Str(attr_or_empty(e.attrs[k]))
    }
}

/// The object of an element with one field per name, later names over earlier.
pub open spec fn element_object(e: ScrapedView, names: Seq<Seq<char>>) -> Fields
    decreases names.len(),
{
    if names.len() == 0 {
        Seq::empty()
    } else {
        let n = names.len() - 1;
        put(element_object(e, names.take(n)), names[n], element_field(e, names[n], n))
    }
}

/// The value that a scraping action records for the elements its selector matched.
pub open spec fn scraped_value(a: ScrapingAction, elems: Seq<ScrapedView>) -> Json {
    match a {
        ScrapingAction::WaitFor { .. } => Json::Bool(elems.len() > 0),
        ScrapingAction::Extract { attr, .. } => match attr {
            None => Json::Array(elems.map_values(|e: ScrapedView| Json::Str(e.text))),
            Some(_) => Json::Array(elems.map_values(|e: ScrapedView| Json::Str(attr_or_empty(e.attrs[0])))),
        },
        ScrapingAction::ExtractMultiple { attrs, .. } => Json::Array(
            elems.map_values(|e: ScrapedView| Json::Object(element_object(e, attrs@.map_values(|s: String| s@)))),
        ),
        ScrapingAction::Fetch { .. } => Json::Null,
    }
}

/// The attribute names an action needs from each match.
pub open spec fn wanted_attrs(a: ScrapingAction) -> Seq<Seq<char>> {
    match a {
        ScrapingAction::Extract { attr: Some(n), .. } => seq![n@],
        ScrapingAction::ExtractMultiple { attrs, .. } => attrs@.map_values(|s: String| s@),
        _ => Seq::empty(),
    }
}

/// The text of every match, in document order.
fn texts_of(elems: &Vec<ScrapedElement>) -> (r: JsonValue)
    ensures
        r.view_json() == Json::Array(elements_view(elems@).map_values(|e: ScrapedView| Json::Str(e.text))),
{
    let mut out: Vec<JsonValue> = Vec::new();
    let mut i: usize = 0;
    while i < elems.len()
        invariant
            0 <= i <= elems.len(),
            out.len() == i,
            forall|j: int| 0 <= j < i ==> #[trigger] out[j].view_json() == Json::Str(elems[j].text@),
        decreases elems.len() - i,
    {
        out.push(JsonValue::Str(elems[i].text.clone()));
        i = i + 1;
    }
    proof { lemma_array_items(out); }
    let r = JsonValue::Array(out);
    assert(r.view_json()->Array_0 =~= elements_view(elems@).map_values(|e: ScrapedView| Json::Str(e.text)));
    r
}

/// The first requested attribute of every match, empty where it is missing.
fn first_attrs_of(elems: &Vec<ScrapedElement>) -> (r: JsonValue)
    requires
        forall|i: int| 0 <= i < elems.len() ==> (#[trigger] elems[i]).attrs.len() == 1,
    ensures
        r.view_json() == Json::Array(elements_view(elems@).map_values(|e: ScrapedView| Json::Str(attr_or_empty(e.attrs[0])))),
{
    let mut out: Vec<JsonValue> = Vec::new();
    let mut i: usize = 0;
    while i < elems.len()
        invariant
            0 <= i <= elems.len(),
            out.len() == i,
            forall|i: int| 0 <= i < elems.len() ==> (#[trigger] elems[i]).attrs.len() == 1,
            forall|j: int| 0 <= j < i ==> #[trigger] out[j].view_json() == Json::Str(attr_or_empty(elems[j]@.attrs[0])),
        decreases elems.len() - i,
    {
        let v = match &elems[i].attrs[0] {
            Some(s) => s.clone(),
            None => String::new(),
        };
        out.push(JsonValue::Str(v));
        i = i + 1;
    }
    proof { lemma_array_items(out); }
    let r = JsonValue::Array(out);
    assert(r.view_json()->Array_0 =~= elements_view(elems@).map_values(|e: ScrapedView| Json::Str(attr_or_empty(e.attrs[0]))));
    r
}

/// The object of one match, with one field per requested name.
fn element_object_of(e: &ScrapedElement, names: &Vec<String>) -> (r: JsonValue)
    requires
        e.attrs.len() == names.len(),
    ensures
        r.view_json() == Json::Object(element_object(e@, names@.map_values(|s: String| s@))),
{
    let ghost nv = names@.map_values(|s: String| s@);
    let mut obj = ObjectBuilder::new();
    let mut k: usize = 0;
    while k < names.len()
        invariant
            0 <= k <= names.len(),
            e.attrs.len() == names.len(),
            nv == names@.map_values(|s: String| s@),
            obj.wf(),
            obj.model() == element_object(e@, nv.take(k as int)),
        decreases names.len() - k,
    {
        let name = names[k].as_str();
        let value = if same_text(name, "text") {
            e.text.clone()
        } else if same_text(name, "html") {
            e.inner_html.clone()
        } else {
            match &e.attrs[k] {
                Some(s) => s.clone(),
                None => String::new(),
            }
        };
        let ghost before = obj.model();
        obj.insert(names[k].clone(), JsonValue::Str(value));
        proof {
            assert(nv.take(k + 1).take(k as int) =~= nv.take(k as int));
            assert(nv.take(k + 1)[k as int] == name@);
        }
        k = k + 1;
    }
    assert(nv.take(names.len() as int) =~= nv);
    obj.finish()
}

fn objects_of(elems: &Vec<ScrapedElement>, names: &Vec<String>) -> (r: JsonValue)
    requires
        forall|i: int| 0 <= i < elems.len() ==> (#[trigger] elems[i]).attrs.len() == names.len(),
    ensures
        r.view_json() == Json::Array(
            elements_view(elems@).map_values(|e: ScrapedView| Json::Object(element_object(e, names@.map_values(|s: String| s@)))),
        ),
{
    let mut out: Vec<JsonValue> = Vec::new();
    let mut i: usize = 0;
    while i < elems.len()
        invariant
            0 <= i <= elems.len(),
            out.len() == i,
            forall|i: int| 0 <= i < elems.len() ==> (#[trigger] elems[i]).attrs.len() == names.len(),
            forall|j: int| 0 <= j < i ==> #[trigger] out[j].view_json() == Json::Object(element_object(elems[j]@, names@.map_values(|s: String| s@))),
        decreases elems.len() - i,
    {
        out.push(element_object_of(&elems[i], names));
        i = i + 1;
    }
    proof { lemma_array_items(out); }
    let r = JsonValue::Array(out);
    assert(r.view_json()->Array_0 =~= elements_view(elems@).map_values(
        |e: ScrapedView| Json::Object(element_object(e, names@.map_values(|s: String| s@))),
    ));
    r
}

/// The value that `action` records, given what its selector matched: whether
/// anything matched for `WaitFor`, the texts or attribute values for `Extract`,
/// one object per match for `ExtractMultiple`, `null` for `Fetch`.
pub fn scraped_value_of(action: &ScrapingAction, elems: &Vec<ScrapedElement>) -> (r: JsonValue)
    requires
        forall|i: int| 0 <= i < elems.len() ==> (#[trigger] elems[i]).attrs.len() == wanted_attrs(*action).len(),
    ensures
        r.view_json() == scraped_value(*action, elements_view(elems@)),
{
    match action {
        ScrapingAction::WaitFor { .. } => JsonValue::Bool(elems.len() > 0),
        ScrapingAction::Extract { attr, .. } => match attr {
            None => texts_of(elems),
            Some(_) => first_attrs_of(elems),
        },
        ScrapingAction::ExtractMultiple { attrs, .. } => objects_of(elems, attrs),
        ScrapingAction::Fetch { .. } => JsonValue::Null,
    }
}

/// The attribute names that `action` needs from each match.
fn wanted_attrs_of(action: &ScrapingAction) -> (r: Vec<String>)
    ensures
        names_of(r) == wanted_attrs(*action),
{
    let r = match action {
        ScrapingAction::Extract { attr: Some(n), .. } => vec![n.clone()],
        ScrapingAction::ExtractMultiple { attrs, .. } => attrs.clone(),
        _ => Vec::new(),
    };
    assert(r@.map_values(|s: String| s@) =~= wanted_attrs(*action));
    r
}

/// The action reads the page through a selector.
pub open spec fn uses_selector(a: ScrapingAction) -> bool {
    !(a is Fetch)
}

pub open spec fn action_selector(a: ScrapingAction) -> Seq<char> {
    match a {
        ScrapingAction::Fetch { .. } => Seq::empty(),
        ScrapingAction::Extract { selector, .. } => selector@,
        ScrapingAction::ExtractMultiple { selector, .. } => selector@,
        ScrapingAction::WaitFor { selector, .. } => selector@,
    }
}

/// The job holds an action that only a browser can run.
pub open spec fn has_browser_action(actions: Seq<Action>) -> bool {
    exists|i: int| 0 <= i < actions.len() && #[trigger] actions[i] is Browser
}

/// The error that refuses a browser action to the static worker.
pub open spec fn static_refusal() -> crate::error::JobErrorView {
    plain_error(ErrorCategory::Unknown, "ParserWorker cannot execute browser actions. Use BrowserWorker instead."@)
}

/// Refuses, before anything runs, a job that holds a browser action.
pub fn check_static_job(job: &Job) -> (r: Result<(), JobError>)
    ensures
        r is Ok <==> !has_browser_action(job.actions@),
        r matches Err(e) ==> e@ == static_refusal(),
{
    let mut i: usize = 0;
    while i < job.actions.len()
        invariant
            0 <= i <= job.actions.len(),
            forall|j: int| 0 <= j < i ==> !(job.actions@[j] is Browser),
        decreases job.actions.len() - i,
    {
        if let Action::Browser(_) = &job.actions[i] {
            return Err(JobError::new(
                ErrorCategory::Unknown,
                "ParserWorker cannot execute browser actions. Use BrowserWorker instead.",
            ));
        }
        i = i + 1;
    }
    Ok(())
}

/// The matches of a scraping action's selector on the page `html`.
pub open spec fn action_matches(s: ScrapingAction, html: Seq<char>) -> Seq<ScrapedView> {
    scraped_all(page_matches(html, action_selector(s), wanted_attrs(s)))
}

/// What action `a` records on the page `html`.
pub open spec fn page_value(a: Action, html: Seq<char>) -> Json {
    match a {
        Action::Scraping(s) => match s {
            ScrapingAction::Fetch { .. } => Json::Null,
            _ => scraped_value(s, action_matches(s, html)),
        },
        Action::Browser(_) => Json::Null,
    }
}

/// What each action records on the page `html`, in order.
pub open spec fn page_values(actions: Seq<Action>, html: Seq<char>) -> Seq<Json> {
    actions.map_values(|a: Action| page_value(a, html))
}

/// Every selector of the first `n` actions parses.
pub open spec fn selectors_parse(actions: Seq<Action>, n: int) -> bool {
    forall|j: int| 0 <= j < n ==> match #[trigger] actions[j] {
        Action::Scraping(s) => uses_selector(s) ==> selector_parses(action_selector(s)),
        Action::Browser(_) => true,
    }
}

/// The selector of action `i` is the first that does not parse.
pub open spec fn first_bad_selector(actions: Seq<Action>, i: int) -> bool {
    selectors_parse(actions, i) && !selectors_parse(actions, i + 1)
}

/// Runs the scraping actions of `job` on the page text `html`, in order.
///
/// A job with a browser action is refused before anything runs. Otherwise the
/// first selector that does not parse fails the job with a parsing error.
/// Otherwise the result holds, under each action's key, the value that the
/// action records for what its selector matches on the page.
pub fn scrape_page(job: &Job, html: &str) -> (r: Result<JobResult, JobError>)
    ensures
        has_browser_action(job.actions@) ==> (r matches Err(e) && e@ == static_refusal()),
        !has_browser_action(job.actions@) ==> (r is Ok <==> selectors_parse(job.actions@, job.actions.len() as int)),
        !has_browser_action(job.actions@) ==> (r matches Err(e) ==> e@.category == ErrorCategory::Parsing && exists|i: int|
            0 <= i < job.actions.len() && #[trigger] first_bad_selector(job.actions@, i)),
        r matches Ok(res) ==> {
            &&& res.job_id@ == job.id@
            &&& res.success
            &&& res.output.view_json() == Json::Object(job_output(job.actions@, page_values(job.actions@, html@)))
        },
{
    check_static_job(job)?;
    let mut out = ObjectBuilder::new();
    let ghost mut values: Seq<Json> = Seq::empty();
    let mut i: usize = 0;
    while i < job.actions.len()
        invariant
            0 <= i <= job.actions.len(),
            !has_browser_action(job.actions@),
            out.wf(),
            values.len() == i,
            out.model() == job_output(job.actions@.take(i as int), values),
            selectors_parse(job.actions@, i as int),
            forall|j: int| 0 <= j < i ==> values[j] == page_value(#[trigger] job.actions@[j], html@),
        decreases job.actions.len() - i,
    {
        let action = &job.actions[i];
        assert(!(job.actions@[i as int] is Browser));
        let value = match action {
            Action::Scraping(s) => match s {
                ScrapingAction::Fetch { .. } => JsonValue::Null,
                ScrapingAction::Extract { selector, .. } | ScrapingAction::ExtractMultiple { selector, .. } | ScrapingAction::WaitFor { selector, .. } => {
                    if let Some(msg) = selector_error(selector.as_str()) {
                        assert(first_bad_selector(job.actions@, i as int));
                        return Err(JobError::parsing_error(msg.as_str()));
                    }
                    let names = wanted_attrs_of(s);
                    let elems = select_matches(html, selector.as_str(), &names);
                    assert(names@.map_values(|s: String| s@).len() == names.len());
                    let v = scraped_value_of(s, &elems);
                    assert(v.view_json() == scraped_value(*s, action_matches(*s, html@)));
                    v
                },
            },
            Action::Browser(_) => JsonValue::Null,
        };
        proof {
            let ghost v = value.view_json();
            assert(job.actions@.take(i + 1).take(i as int) =~= job.actions@.take(i as int));
            assert(values.push(v).take(i as int) =~= values);
            assert(job.actions@.take(i + 1)[i as int] == job.actions@[i as int]);
        }
        let ghost v = value.view_json();
        out.record(action, value);
        proof {
            assert(v == page_value(job.actions@[i as int], html@));
            assert(forall|j: int| 0 <= j < i ==> values.push(v)[j] == values[j]);
            values = values.push(v);
        }
        i = i + 1;
    }
    assert(job.actions@.take(job.actions.len() as int) =~= job.actions@);
    assert(values =~= page_values(job.actions@, html@));
    Ok(JobResult { job_id: job.id.clone(), success: true, output: out.finish() })
}

} // verus!
