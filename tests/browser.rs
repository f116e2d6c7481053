use rocky::actions::{ActionHandler, EvalFailure, Record, Step, WaitStrategy};
use rocky::browser::{BrowserRun, ChromiumWorker, SetupStep, StepResults};
use rocky::captcha::captcha_verdict;
use rocky::error::ErrorCategory;
use rocky::job::{Action, BrowserAction, BrowserConfig, BrowserType, Job, ScrapingAction, ScrollTarget};
use rocky::json::JsonValue;
use rocky::scripts::{build_js_call, PRESS_ENTER};
use rocky::timeouts::TimeoutConfig;
use rocky::wait::{cookie_banner_clicked, cookie_banner_not_found, to_job_error, StabilityVerdict, WaitVerdict};

fn obj(fields: &[(&str, JsonValue)]) -> JsonValue {
    JsonValue::Object(fields.iter().map(|(k, v)| (k.to_string(), v.clone_value())).collect())
}

fn s(t: &str) -> JsonValue {
    JsonValue::Str(t.to_string())
}

fn strategy() -> WaitStrategy {
    WaitStrategy::new(TimeoutConfig::default())
}

#[test]
fn zero_timeout_on_missing_element_fails_on_first_probe() {
    let w = strategy().wait_for_element("#missing", 0, false);
    let probe = obj(&[("exists", JsonValue::Bool(false))]);
    match w.step(&Ok(probe), 0) {
        WaitVerdict::Fail(e) => {
            assert_eq!(e.category, ErrorCategory::ElementNotFound);
            assert_eq!(e.message, "Element not found: Element '#missing' not found after 0ms");
            assert_eq!(e.context.get("timeout_ms"), Some(&JsonValue::UInt(0)));
        }
        other => panic!("unexpected {:?}", other),
    }
}

#[test]
fn element_becomes_ready_then_is_extracted() {
    let job = Job {
        id: "b".to_string(),
        url: "http://example.com".to_string(),
        use_browser: true,
        actions: vec![
            Action::Scraping(ScrapingAction::WaitFor { selector: "#ok".to_string(), timeout_ms: 1000 }),
            Action::Scraping(ScrapingAction::Extract { selector: "#ok".to_string(), attr: None }),
        ],
        browser_config: None,
    };
    let handler = ActionHandler::new(TimeoutConfig::default());
    let mut run = BrowserRun::start(&job);

    let plan = run.next_plan(&job, &handler).unwrap();
    let (selector, timeout_ms) = match &plan.steps[0] {
        Step::WaitElement { selector, timeout_ms, clickable: false } => (selector.clone(), *timeout_ms),
        other => panic!("unexpected {:?}", other),
    };
    let w = handler.wait_strategy.wait_for_element(&selector, timeout_ms, false);
    let absent = obj(&[("exists", JsonValue::Bool(false))]);
    match w.step(&Ok(absent), 100) {
        WaitVerdict::Poll { delay_ms } => assert_eq!(delay_ms, 300),
        other => panic!("unexpected {:?}", other),
    }
    let ready = obj(&[("exists", JsonValue::Bool(true)), ("visible", JsonValue::Bool(true)), ("obscured", JsonValue::Bool(false))]);
    assert!(matches!(w.step(&Ok(ready), 400), WaitVerdict::Ready));
    run.record_plan(&job, plan, StepResults::new());

    let plan = run.next_plan(&job, &handler).unwrap();
    assert!(matches!(&plan.steps[0], Step::Evaluate { on_error: EvalFailure::Script("Extract failed: "), .. }));
    let mut results = StepResults::new();
    results.evaluated(&plan.steps[0], Some(JsonValue::Array(vec![s("text")]))).unwrap();
    run.record_plan(&job, plan, results);
    assert!(run.next_plan(&job, &handler).is_none());

    let result = run.finish(&job);
    assert_eq!(
        result.output,
        obj(&[("waitfor:#ok", JsonValue::Bool(true)), ("extract:#ok", JsonValue::Array(vec![s("text")]))])
    );
}

#[test]
fn obscured_element_names_what_covers_it() {
    let w = strategy().wait_for_element("#btn", 500, false);
    let probe = obj(&[
        ("exists", JsonValue::Bool(true)),
        ("visible", JsonValue::Bool(true)),
        ("obscured", JsonValue::Bool(true)),
        ("obscuredBy", s("DIV.cookie-overlay")),
    ]);
    match w.step(&Ok(probe), 600) {
        WaitVerdict::Fail(e) => {
            assert_eq!(e.category, ErrorCategory::ElementNotFound);
            assert_eq!(e.context.text_field("obscured_by").map(|x| x.as_str()), Some("DIV.cookie-overlay"));
            assert!(e.context.text_field("suggestion").unwrap().contains("HandleCookieBanner"));
        }
        other => panic!("unexpected {:?}", other),
    }
}

#[test]
fn hidden_disabled_and_unreadable_probes() {
    let w = strategy().wait_for_element("#b", 100, true);
    let hidden = obj(&[("exists", JsonValue::Bool(true))]);
    match w.step(&Ok(hidden), 100) {
        WaitVerdict::Fail(e) => assert_eq!(e.context.text_field("hint").map(|x| x.as_str()), Some("Element may be hidden with CSS")),
        other => panic!("unexpected {:?}", other),
    }
    let disabled = obj(&[("exists", JsonValue::Bool(true)), ("visible", JsonValue::Bool(true)), ("disabled", JsonValue::Bool(true))]);
    match w.step(&Ok(disabled), 100) {
        WaitVerdict::Fail(e) => assert_eq!(e.message, "Element not found: Element '#b' is disabled"),
        other => panic!("unexpected {:?}", other),
    }
    match w.step(&Ok(JsonValue::Null), 100) {
        WaitVerdict::Fail(e) => assert_eq!(e.category, ErrorCategory::Timeout),
        other => panic!("unexpected {:?}", other),
    }
    let lost = Err("Execution context was destroyed, most likely because of a navigation".to_string());
    assert!(matches!(w.step(&lost, 50), WaitVerdict::Poll { delay_ms: 500 }));
    match w.step(&lost, 100) {
        WaitVerdict::Fail(e) => assert_eq!(e.category, ErrorCategory::Timeout),
        other => panic!("unexpected {:?}", other),
    }
}

#[test]
fn driver_errors_are_classified_by_their_words() {
    assert_eq!(to_job_error("Request Timeout", "Scroll").category, ErrorCategory::Timeout);
    assert_eq!(to_job_error("Request Timeout", "Scroll").message, "Scroll timed out: Request Timeout");
    assert_eq!(to_job_error("navigation aborted", "Scroll").category, ErrorCategory::Navigation);
    assert_eq!(to_job_error("node not found", "Scroll").category, ErrorCategory::ElementNotFound);
    assert_eq!(to_job_error("socket closed", "Scroll").category, ErrorCategory::Browser);
}

#[test]
fn page_becomes_stable_after_five_quiet_probes() {
    let mut w = strategy().wait_for_stable(30000);
    let quiet = obj(&[("readyState", s("complete")), ("activeRequests", JsonValue::UInt(0))]);
    let busy = obj(&[("readyState", s("loading")), ("activeRequests", JsonValue::UInt(2))]);
    for _ in 0..4 {
        assert!(matches!(w.step(&Ok(quiet.clone_value()), 10), StabilityVerdict::Poll { delay_ms: 300 }));
    }
    assert!(matches!(w.step(&Ok(busy), 10), StabilityVerdict::Poll { .. }));
    assert_eq!(w.stable_checks, 0);
    for _ in 0..4 {
        w.step(&Ok(quiet.clone_value()), 10);
    }
    assert!(matches!(w.step(&Ok(quiet), 10), StabilityVerdict::Stable));
}

#[test]
fn stability_gives_up_softly() {
    let mut w = strategy().wait_for_stable(1000);
    let busy = obj(&[("readyState", s("interactive"))]);
    assert!(matches!(w.step(&Ok(busy), 1000), StabilityVerdict::TimedOut));
    assert!(matches!(w.step(&Err("Cannot find context with specified id".to_string()), 5), StabilityVerdict::Poll { delay_ms: 1000 }));
    assert!(matches!(w.step(&Err("Cannot find context with specified id".to_string()), 1000), StabilityVerdict::TimedOut));
}

#[test]
fn unreadable_probe_starts_the_count_again() {
    let mut w = strategy().wait_for_stable(30000);
    let quiet = obj(&[("readyState", s("complete")), ("activeRequests", JsonValue::UInt(0))]);
    w.step(&Ok(quiet.clone_value()), 10);
    w.step(&Ok(JsonValue::Null), 10);
    assert_eq!(w.stable_checks, 0);
    for _ in 0..4 {
        assert!(matches!(w.step(&Ok(quiet.clone_value()), 10), StabilityVerdict::Poll { .. }));
    }
    assert!(matches!(w.step(&Ok(quiet), 10), StabilityVerdict::Stable));
}

#[test]
fn cookie_banner_clicked_or_not_found() {
    let clicked = obj(&[("clicked", JsonValue::Bool(true)), ("text", s("Accept All"))]);
    assert_eq!(
        cookie_banner_clicked(&Ok(clicked)),
        Some(obj(&[("clicked", JsonValue::Bool(true)), ("button_text", s("Accept All"))]))
    );
    assert_eq!(cookie_banner_clicked(&Ok(obj(&[("clicked", JsonValue::Bool(false))]))), None);
    assert_eq!(cookie_banner_not_found(), obj(&[("clicked", JsonValue::Bool(false)), ("reason", s("not found"))]));
}

#[test]
fn cookie_banner_search_until_click_or_timeout() {
    let w = rocky::wait::CookieBannerWait::new(2000);
    assert!(matches!(w.step(None, 0), rocky::wait::CookieVerdict::Search));
    let none = Ok(obj(&[("clicked", JsonValue::Bool(false))]));
    assert!(matches!(w.step(Some(&none), 100), rocky::wait::CookieVerdict::Poll { delay_ms: 500 }));
    assert!(matches!(w.step(None, 2000), rocky::wait::CookieVerdict::GaveUp));
    let hit = Ok(obj(&[("clicked", JsonValue::Bool(true)), ("text", s("Accept All"))]));
    match w.step(Some(&hit), 2100) {
        rocky::wait::CookieVerdict::Clicked(v) => {
            assert_eq!(v, obj(&[("clicked", JsonValue::Bool(true)), ("button_text", s("Accept All"))]))
        }
        other => panic!("unexpected {:?}", other),
    }
    assert!(matches!(rocky::wait::CookieBannerWait::new(0).step(None, 0), rocky::wait::CookieVerdict::GaveUp));
}

#[test]
fn captcha_page_is_reported() {
    let probe = obj(&[
        ("detected", JsonValue::Bool(true)),
        ("types", JsonValue::Array(vec![])),
        ("keywords", JsonValue::Array(vec![s("unusual traffic"), s("automated requests")])),
        ("pageTitle", s("Before you continue to Google")),
        ("url", s("https://www.google.com/sorry/index")),
        ("titleMatch", JsonValue::Bool(true)),
        ("urlMatch", JsonValue::Bool(true)),
        ("bodyTextSample", s("Our systems have detected unusual traffic from your computer network")),
    ]);
    let e = captcha_verdict(&probe).unwrap_err();
    assert_eq!(e.category, ErrorCategory::Captcha);
    assert_eq!(e.message, "CAPTCHA or consent page detected on 'Before you continue to Google'");
    assert_eq!(e.context.get("title_match"), Some(&JsonValue::Bool(true)));
    match e.context.get("keywords") {
        Some(JsonValue::Array(items)) => assert!(items.contains(&s("unusual traffic"))),
        other => panic!("unexpected {:?}", other),
    }
    assert!(captcha_verdict(&obj(&[("detected", JsonValue::Bool(false))])).is_ok());
}

#[test]
fn captcha_widget_names_its_type() {
    let probe = obj(&[("detected", JsonValue::Bool(true)), ("types", JsonValue::Array(vec![s("recaptcha"), s("hcaptcha")]))]);
    let e = captcha_verdict(&probe).unwrap_err();
    assert_eq!(e.message, "CAPTCHA detected on 'unknown' (type: recaptcha, hcaptcha)");
}

#[test]
fn plans_of_browser_actions() {
    let h = ActionHandler::new(TimeoutConfig::fast());
    let click = h.handle_browser(&BrowserAction::Click { selector: "#go".to_string(), timeout_ms: 700 });
    assert_eq!(click.steps.len(), 5);
    assert_eq!(click.steps[0], Step::WaitElement { selector: "#go".to_string(), timeout_ms: 700, clickable: true });
    assert_eq!(click.record, Record::Value(JsonValue::Bool(true)));

    let enter = h.handle_browser(&BrowserAction::PressKey { key: "ENTER".to_string() });
    assert!(matches!(&enter.steps[0], Step::Evaluate { script, .. } if script == PRESS_ENTER));
    let tab = h.handle_browser(&BrowserAction::PressKey { key: "Tab".to_string() });
    assert!(matches!(&tab.steps[0], Step::Evaluate { script, .. } if script.ends_with(")(\"Tab\")")));

    let scroll = h.handle_browser(&BrowserAction::Scroll { target: ScrollTarget::Position { x: -5, y: 120 } });
    assert_eq!(scroll.steps[0], Step::Evaluate {
        script: "window.scrollTo(-5,120)".to_string(),
        on_error: EvalFailure::Driver("Scroll"),
        checked: false,
    });

    let cookie = h.handle_browser(&BrowserAction::SetCookie { name: "n".to_string(), value: "v".to_string(), domain: Some("x.org".to_string()) });
    assert!(matches!(&cookie.steps[0], Step::Evaluate { script, .. } if script.ends_with("(\"n\", \"v\", {\"domain\":\"x.org\"})")));

    let banner = h.handle_browser(&BrowserAction::HandleCookieBanner { timeout_ms: 2000 });
    assert!(matches!(&banner.steps[0], Step::FindCookieBanner { script, timeout_ms: 2000 } if script.contains("[\"Accept all\",\"Accept All\"")));
    assert_eq!(banner.record, Record::CookieBanner);

    let extract = h.handle_scraping(&ScrapingAction::ExtractMultiple { selector: "a".to_string(), attrs: vec!["href".to_string()] });
    assert!(matches!(&extract.steps[0], Step::Evaluate { script, .. } if script.ends_with(")(\"a\", [\"href\"])")));
}

#[test]
fn checked_evaluation_can_fail_the_action() {
    let h = ActionHandler::new(TimeoutConfig::default());
    let plan = h.handle_browser(&BrowserAction::Select { selector: "#s".to_string(), value: "9".to_string() });
    let missing = obj(&[("success", JsonValue::Bool(false)), ("error", s("Option not found"))]);
    let mut results = StepResults::new();
    assert_eq!(results.evaluated(&plan.steps[1], Some(missing)).unwrap_err().category, ErrorCategory::ScriptExecution);
    let mut quiet = StepResults::new();
    assert!(quiet.evaluated(&plan.steps[1], None).is_ok());
}

#[test]
fn select_reports_missing_option() {
    let v = obj(&[
        ("success", JsonValue::Bool(false)),
        ("error", s("Option not found")),
        ("availableOptions", JsonValue::Array(vec![obj(&[("value", s("1")), ("text", s("One"))])])),
    ]);
    let e = rocky::actions::checked_result(&v).unwrap_err();
    assert_eq!(e.category, ErrorCategory::ScriptExecution);
    assert_eq!(e.message, "Select failed: Option not found");
    assert!(matches!(e.context.get("available_options"), Some(JsonValue::Array(items)) if items.len() == 1));
    assert!(rocky::actions::checked_result(&obj(&[("success", JsonValue::Bool(true))])).is_ok());
}

#[test]
fn js_calls_quote_their_arguments() {
    let w = strategy().wait_for_element("a[title=\"x\"]\n", 10, false);
    let script = w.probe_script();
    assert!(script.starts_with("("));
    assert!(script.ends_with(")(\"a[title=\\\"x\\\"]\\n\")"));
    assert_eq!(build_js_call("f", &vec!["1".to_string(), "true".to_string()]), "(f)(1, true)");
    assert_eq!(build_js_call("g", &vec![]), "(g)()");
}

#[test]
fn job_setup_decisions() {
    let mut job = Job { id: "c".to_string(), url: "u".to_string(), use_browser: true, actions: vec![], browser_config: None };
    assert!(ChromiumWorker::launch_options(&job).headless);
    assert!(!ChromiumWorker::checks_captcha(&job));
    job.browser_config = Some(BrowserConfig {
        browser_type: BrowserType::Chromium,
        headless: false,
        viewport_width: Some(800),
        viewport_height: Some(600),
        fail_on_captcha: true,
    });
    let o = ChromiumWorker::launch_options(&job);
    assert!(!o.headless);
    assert_eq!(o.window, Some((800, 600)));
    assert!(ChromiumWorker::checks_captcha(&job));
    let e = ChromiumWorker::setup_failure(SetupStep::Navigate, "dns");
    assert_eq!((e.category, e.message.as_str(), e.retry_after_ms), (ErrorCategory::Navigation, "Navigation failed: dns", Some(1500)));
}

#[test]
fn timeout_presets() {
    let d = TimeoutConfig::default();
    assert_eq!((d.element_wait, d.navigation, d.page_stable, d.cookie_banner, d.check_interval, d.settle_delay), (15000, 30000, 30000, 5000, 300, 1000));
    let f = TimeoutConfig::fast();
    assert_eq!((f.element_wait, f.navigation, f.page_stable, f.cookie_banner, f.check_interval, f.settle_delay), (8000, 20000, 20000, 3000, 200, 500));
    let p = TimeoutConfig::patient();
    assert_eq!((p.element_wait, p.navigation, p.page_stable, p.cookie_banner, p.check_interval, p.settle_delay), (30000, 60000, 60000, 10000, 500, 2000));
    let c = TimeoutConfig::default().with_element_wait(1).with_navigation(2);
    assert_eq!((c.element_wait, c.navigation, c.page_stable), (1, 2, 30000));
}
