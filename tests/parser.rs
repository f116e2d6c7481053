use rocky::error::ErrorCategory;
use rocky::job::{Action, BrowserAction, Job, ScrapingAction};
use rocky::json::JsonValue;
use rocky::parser::{check_static_job, scrape_page};

fn job(actions: Vec<Action>) -> Job {
    Job { id: "a".to_string(), url: "http://example.com".to_string(), use_browser: false, actions, browser_config: None }
}

fn strs(items: &[&str]) -> JsonValue {
    JsonValue::Array(items.iter().map(|s| JsonValue::Str(s.to_string())).collect())
}

#[test]
fn static_extraction_of_headings() {
    let j = job(vec![Action::Scraping(ScrapingAction::Extract { selector: "h1".to_string(), attr: None })]);
    let r = scrape_page(&j, "<html><body><h1>Hi</h1><h1>Yo</h1></body></html>").unwrap();
    assert_eq!(r.job_id, "a");
    assert!(r.success);
    assert_eq!(r.output, JsonValue::Object(vec![("extract:h1".to_string(), strs(&["Hi", "Yo"]))]));
}

#[test]
fn static_waitfor_attributes_and_fields() {
    let html = r#"<div><a href="/x" class="k">One <b>bold</b></a><a class="k">Two</a></div>"#;
    let j = job(vec![
        Action::Scraping(ScrapingAction::WaitFor { selector: "a".to_string(), timeout_ms: 10 }),
        Action::Scraping(ScrapingAction::WaitFor { selector: "table".to_string(), timeout_ms: 10 }),
        Action::Scraping(ScrapingAction::Fetch { url: "http://example.com".to_string() }),
        Action::Scraping(ScrapingAction::Extract { selector: "a".to_string(), attr: Some("href".to_string()) }),
        Action::Scraping(ScrapingAction::ExtractMultiple {
            selector: "a".to_string(),
            attrs: vec!["text".to_string(), "html".to_string(), "class".to_string()],
        }),
    ]);
    let r = scrape_page(&j, html).unwrap();
    let item = |t: &str, h: &str| {
        JsonValue::Object(vec![
            ("text".to_string(), JsonValue::Str(t.to_string())),
            ("html".to_string(), JsonValue::Str(h.to_string())),
            ("class".to_string(), JsonValue::Str("k".to_string())),
        ])
    };
    assert_eq!(
        r.output,
        JsonValue::Object(vec![
            ("waitfor:a".to_string(), JsonValue::Bool(true)),
            ("waitfor:table".to_string(), JsonValue::Bool(false)),
            ("extract:a".to_string(), strs(&["/x", ""])),
            ("extract_multiple:a".to_string(), JsonValue::Array(vec![item("One bold", "One <b>bold</b>"), item("Two", "Two")])),
        ])
    );
}

#[test]
fn repeated_key_keeps_one_entry() {
    let j = job(vec![
        Action::Scraping(ScrapingAction::Extract { selector: "p".to_string(), attr: None }),
        Action::Scraping(ScrapingAction::Extract { selector: "p".to_string(), attr: Some("id".to_string()) }),
    ]);
    let r = scrape_page(&j, "<p id='q'>x</p>").unwrap();
    assert_eq!(r.output, JsonValue::Object(vec![("extract:p".to_string(), strs(&["q"]))]));
}

#[test]
fn browser_action_is_refused_before_anything_runs() {
    let j = job(vec![
        Action::Scraping(ScrapingAction::Extract { selector: "[[[".to_string(), attr: None }),
        Action::Browser(BrowserAction::Click { selector: "#b".to_string(), timeout_ms: 10 }),
    ]);
    let e = check_static_job(&j).unwrap_err();
    assert_eq!(e.category, ErrorCategory::Unknown);
    let e2 = scrape_page(&j, "<p></p>").unwrap_err();
    assert_eq!(e2.category, ErrorCategory::Unknown);
    assert_eq!(e2.message, "ParserWorker cannot execute browser actions. Use BrowserWorker instead.");
}

#[test]
fn bad_selector_is_a_parsing_error() {
    let j = job(vec![Action::Scraping(ScrapingAction::Extract { selector: "[[[".to_string(), attr: None })]);
    let e = scrape_page(&j, "<p></p>").unwrap_err();
    assert_eq!(e.category, ErrorCategory::Parsing);
    assert!(!e.message.is_empty());
}

#[test]
fn empty_job_has_empty_output() {
    let r = scrape_page(&job(vec![]), "").unwrap();
    assert_eq!(r.output, JsonValue::Object(vec![]));
}
