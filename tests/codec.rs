use rocky::codec::category_from_text;
use rocky::error::{ErrorCategory, JobError};
use rocky::job::JobResult;
use rocky::json::JsonValue;

fn field(k: &str, v: JsonValue) -> (String, JsonValue) {
    (k.to_string(), v)
}

#[test]
fn job_error_round_trips_through_json() {
    let context = JsonValue::Object(vec![
        field("selector", JsonValue::Str("#a".to_string())),
        field("timeout_ms", JsonValue::UInt(0)),
        field("nested", JsonValue::Array(vec![JsonValue::NegInt(-3), JsonValue::Decimal("1.5".to_string()), JsonValue::Null])),
    ]);
    let e = JobError::timeout_error("slow").with_context(context);
    let j = e.to_json();
    assert_eq!(JobError::from_json(&j), Some(e));
}

#[test]
fn job_error_json_shape() {
    let j = JobError::fetch_error("down").to_json();
    assert_eq!(j.text_field("category").map(|s| s.as_str()), Some("Network"));
    assert_eq!(j.get("retry_after_ms"), Some(&JsonValue::UInt(1000)));
    let k = JobError::script_error("x").to_json();
    assert_eq!(k.get("retry_after_ms"), Some(&JsonValue::Null));
    assert_eq!(k.get("recoverable"), Some(&JsonValue::Bool(false)));
}

#[test]
fn malformed_error_json_is_refused() {
    let j = JsonValue::Object(vec![field("category", JsonValue::Str("Nope".to_string()))]);
    assert_eq!(JobError::from_json(&j), None);
    assert_eq!(category_from_text("Captcha"), Some(ErrorCategory::Captcha));
    assert_eq!(category_from_text("captcha"), None);
}

#[test]
fn job_result_round_trips_through_json() {
    let r = JobResult {
        job_id: "a".to_string(),
        success: true,
        output: JsonValue::Object(vec![field(
            "extract:h1",
            JsonValue::Array(vec![JsonValue::Str("Hi".to_string()), JsonValue::Str("Yo".to_string())]),
        )]),
    };
    let j = r.to_json();
    assert_eq!(j.text_field("job_id").map(|s| s.as_str()), Some("a"));
    assert_eq!(JobResult::from_json(&j), Some(r));
}
