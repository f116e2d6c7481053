use vstd::prelude::*;
use crate::error::{single_field, plain_error, ErrorCategory, JobError, JobErrorView};
use crate::json::{lemma_array_items, lemma_object_fields, Json, JsonValue};
use crate::scripts::{build_js_call, join_texts, joined, js_call, DETECT_CAPTCHA};
use crate::text::join3;
use crate::wait::text_or;

verus! {

/// The strings among `items`, in order.
pub open spec fn strings_in(items: Seq<Json>) -> Seq<Seq<char>>
    decreases items.len(),
{
    if items.len() == 0 {
        Seq::empty()
    } else {
        let rest = strings_in(items.drop_last());
        match items.last() {
            Json::Str(s) => rest.push(s),
            _ => rest,
        }
    }
}

/// The strings in the array field `key`; empty when there is no such array.
pub open spec fn string_list(v: Json, key: Seq<char>) -> Seq<Seq<char>> {
    match v.get(key) {
        Some(Json::Array(items)) => strings_in(items),
        _ => Seq::empty(),
    }
}

pub open spec fn strings_json(items: Seq<Seq<char>>) -> Json {
    Json::Array(items.map_values(|s: Seq<char>| Json::Str(s)))
}

/// The message of a CAPTCHA error: keywords point at a consent or CAPTCHA
/// page, matched widgets name their kind.
pub open spec fn captcha_message(title: Seq<char>, types: Seq<Seq<char>>, keywords: Seq<Seq<char>>) -> Seq<char> {
    if keywords.len() > 0 {
        "CAPTCHA or consent page detected on '"@ + title + "'"@
    } else if types.len() > 0 {
        "CAPTCHA detected on '"@ + title + "' (type: "@ + joined(types, ", "@) + ")"@
    } else {
        "CAPTCHA or verification page detected on '"@ + title + "'"@
    }
}

/// The error for a page that the CAPTCHA probe flagged, with what it found.
pub open spec fn captcha_error(v: Json) -> JobErrorView {
    let types = string_list(v, "types"@);
    let keywords = string_list(v, "keywords"@);
    let title = text_or(v, "pageTitle"@, "unknown"@);
    JobErrorView {
        context: Json::Object(seq![
            ("types"@, strings_json(types)),
            ("keywords"@, strings_json(keywords)),
            ("page_title"@, Json::Str(title)),
            ("url"@, Json::Str(text_or(v, "url"@, "unknown"@))),
            ("title_match"@, Json::Bool(v.flag("titleMatch"@))),
            ("url_match"@, Json::Bool(v.flag("urlMatch"@))),
            ("body_sample"@, Json::Str(text_or(v, "bodyTextSample"@, Seq::empty()))),
        ]),
        ..plain_error(ErrorCategory::Captcha, captcha_message(title, types, keywords))
    }
}

fn string_list_of(v: &JsonValue, key: &str) -> (r: Vec<String>)
    ensures
        r@.map_values(|s: String| s@) == string_list(v.view_json(), key@),
{
    match v.get(key) {
        Some(JsonValue::Array(items)) => {
            let ghost iv = JsonValue::Array(*items).view_json()->Array_0;
            proof { lemma_array_items(*items); }
            let mut out: Vec<String> = Vec::new();
            let mut i: usize = 0;
            while i < items.len()
                invariant
                    0 <= i <= items.len(),
                    iv == JsonValue::Array(*items).view_json()->Array_0,
                    iv.len() == items.len(),
                    forall|j: int| 0 <= j < items.len() ==> #[trigger] iv[j] == items[j].view_json(),
                    out@.map_values(|s: String| s@) == strings_in(iv.take(i as int)),
                decreases items.len() - i,
            {
                proof {
                    assert(iv.take(i + 1).drop_last() =~= iv.take(i as int));
                }
                let ghost before = out@;
                if let JsonValue::Str(s) = &items[i] {
                    out.push(s.clone());
                    assert(out@.map_values(|s: String| s@) =~= before.map_values(|s: String| s@).push(s@));
                }
                i = i + 1;
            }
            assert(iv.take(items.len() as int) =~= iv);
            out
        },
        _ => {
            let out: Vec<String> = Vec::new();
            assert(out@.map_values(|s: String| s@) =~= Seq::<Seq<char>>::empty());
            out
        },
    }
}

fn strings_value(items: &Vec<String>) -> (r: JsonValue)
    ensures
        r.view_json() == strings_json(items@.map_values(|s: String| s@)),
{
    let mut out: Vec<JsonValue> = Vec::new();
    let mut i: usize = 0;
    while i < items.len()
        invariant
            0 <= i <= items.len(),
            out.len() == i,
            forall|j: int| 0 <= j < i ==> #[trigger] out[j].view_json() == Json::Str(items[j]@),
        decreases items.len() - i,
    {
        out.push(JsonValue::Str(items[i].clone()));
        i = i + 1;
    }
    proof { lemma_array_items(out); }
    let r = JsonValue::Array(out);
    assert(r.view_json()->Array_0 =~= items@.map_values(|s: String| s@).map_values(|s: Seq<char>| Json::Str(s)));
    r
}

fn text_or_of(v: &JsonValue, key: &str, fallback: &str) -> (r: String)
    ensures
        r@ == text_or(v.view_json(), key@, fallback@),
{
    match v.text_field(key) {
        Some(s) => s.clone(),
        None => fallback.to_owned(),
    }
}

/// Reads the result of the CAPTCHA probe: an error when it flagged the page
/// as `detected`, nothing otherwise.
pub fn captcha_verdict(probe: &JsonValue) -> (r: Result<(), JobError>)
    ensures
        r is Err <==> probe.view_json().flag("detected"@),
        r matches Err(e) ==> e@ == captcha_error(probe.view_json()),
{
    if !probe.flag("detected") {
        return Ok(());
    }
    let types = string_list_of(probe, "types");
    let keywords = string_list_of(probe, "keywords");
    let title = text_or_of(probe, "pageTitle", "unknown");
    let message = if keywords.len() > 0 {
        join3("CAPTCHA or consent page detected on '", title.as_str(), "'")
    } else if types.len() > 0 {
        join3("CAPTCHA detected on '", title.as_str(), "' (type: ").concat(join_texts(&types, ", ").as_str()).concat(")")
    } else {
        join3("CAPTCHA or verification page detected on '", title.as_str(), "'")
    };
    let ghost model = captcha_error(probe.view_json()).context->Object_0;
    let fields = vec![
        ("types".to_owned(), strings_value(&types)),
        ("keywords".to_owned(), strings_value(&keywords)),
        ("page_title".to_owned(), JsonValue::Str(title)),
        ("url".to_owned(), JsonValue::Str(text_or_of(probe, "url", "unknown"))),
        ("title_match".to_owned(), JsonValue::Bool(probe.flag("titleMatch"))),
        ("url_match".to_owned(), JsonValue::Bool(probe.flag("urlMatch"))),
        ("body_sample".to_owned(), JsonValue::Str(text_or_of(probe, "bodyTextSample", ""))),
    ];
    proof {
        lemma_object_fields(fields);
        reveal_strlit("");
        assert(""@ =~= Seq::<char>::empty());
    }
    assert(fields@[0].0@ == model[0].0 && fields@[0].1.view_json() == model[0].1);
    assert(fields@[1].0@ == model[1].0 && fields@[1].1.view_json() == model[1].1);
    assert(fields@[2].0@ == model[2].0 && fields@[2].1.view_json() == model[2].1);
    assert(fields@[3].0@ == model[3].0 && fields@[3].1.view_json() == model[3].1);
    assert(fields@[4].0@ == model[4].0 && fields@[4].1.view_json() == model[4].1);
    assert(fields@[5].0@ == model[5].0 && fields@[5].1.view_json() == model[5].1);
    assert(fields@[6].0@ == model[6].0 && fields@[6].1.view_json() == model[6].1);
    let context = JsonValue::Object(fields);
    assert(context.view_json()->Object_0 =~= model);
    Err(JobError::captcha_detected(message.as_str()).with_context(context))
}

/// The CAPTCHA probe.
pub fn captcha_probe_script() -> (r: String)
    ensures
        r@ == js_call(DETECT_CAPTCHA@, Seq::empty()),
{
    let args: Vec<String> = Vec::new();
    assert(args@.map_values(|s: String| s@) =~= Seq::<Seq<char>>::empty());
    build_js_call(DETECT_CAPTCHA, &args)
}

/// The error for a CAPTCHA probe that the driver could not run.
pub fn captcha_probe_error(e: &str) -> (r: JobError)
    ensures
        r@ == plain_error(ErrorCategory::ScriptExecution, "CAPTCHA detection failed: "@ + e@),
{
    JobError::script_error(crate::text::join2("CAPTCHA detection failed: ", e).as_str())
}

} // verus!
