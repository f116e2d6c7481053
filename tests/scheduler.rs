use rocky::error::JobError;
use rocky::healing::{DefaultErrorHealer, HealingAction};
use rocky::job::{output_key, Action, BrowserAction, Job, ScrapingAction, ScrollTarget};
use rocky::scheduler::{FollowUp, SchedulerCore, SubmitError, WorkerKind};
use rocky::storage::JsonFileStorage;

fn job(id: &str, use_browser: bool) -> Job {
    Job { id: id.to_string(), url: "http://example.com".to_string(), use_browser, actions: vec![], browser_config: None }
}

#[test]
fn retry_count_grows_per_failure_and_is_erased_on_success() {
    let healer = DefaultErrorHealer::new(3);
    let mut s = SchedulerCore::new(4, 2, 3);
    s.submit(job("a", false)).unwrap();
    let (a, _) = s.dispatch().unwrap();
    let f1 = s.on_failure(&healer, a, JobError::fetch_error("down"));
    assert_eq!(f1.attempt, 1);
    assert_eq!(s.attempts_of(&"a".to_string()), 1);
    assert!(matches!(f1.follow_up, FollowUp::Later { delay_ms: 1000, .. }));
    let again = match f1.follow_up {
        FollowUp::Later { job, .. } => job,
        other => panic!("unexpected {:?}", other),
    };
    assert!(s.requeue(again).is_none());
    let (a, _) = s.dispatch().unwrap();
    let f2 = s.on_failure(&healer, a, JobError::fetch_error("down"));
    assert_eq!(f2.attempt, 2);
    let again = match f2.follow_up {
        FollowUp::Later { job, .. } => job,
        other => panic!("unexpected {:?}", other),
    };
    s.requeue(again);
    let (a, _) = s.dispatch().unwrap();
    s.on_success(&a.id);
    assert_eq!(s.attempts_of(&"a".to_string()), 0);
    assert_eq!(s.running_count(), 0);
}

#[test]
fn single_slot_runs_jobs_one_at_a_time_in_order() {
    let mut s = SchedulerCore::new(8, 1, 3);
    for id in ["1", "2", "3"] {
        s.submit(job(id, false)).unwrap();
    }
    let mut order = Vec::new();
    while let Some((j, _)) = s.dispatch() {
        assert!(s.dispatch().is_none());
        assert_eq!(s.running_count(), 1);
        order.push(j.id.clone());
        s.on_success(&j.id);
    }
    assert_eq!(order, vec!["1", "2", "3"]);
}

#[test]
fn full_queue_refuses_a_submit() {
    let mut s = SchedulerCore::new(1, 1, 3);
    s.submit(job("running", false)).unwrap();
    let (_running, _) = s.dispatch().unwrap();
    s.submit(job("buffered", false)).unwrap();
    match s.submit(job("third", false)) {
        Err(SubmitError::QueueFull(j)) => assert_eq!(j.id, "third"),
        other => panic!("unexpected {:?}", other),
    }
    s.close();
    assert!(matches!(s.submit(job("late", false)), Err(SubmitError::Closed(_))));
    assert!(!s.is_drained());
}

#[test]
fn retry_after_lets_the_next_job_run_and_skips_after_three_failures() {
    let healer = DefaultErrorHealer::new(3);
    let mut s = SchedulerCore::new(4, 1, 3);
    s.submit(job("A", false)).unwrap();
    s.submit(job("B", true)).unwrap();
    let mut seen = Vec::new();
    let mut verdicts = Vec::new();
    let mut waiting: Option<Job> = None;
    loop {
        match s.dispatch() {
            Some((j, kind)) => {
                seen.push(j.id.clone());
                if j.id == "A" {
                    assert_eq!(kind, WorkerKind::Parser);
                    let f = s.on_failure(&healer, j, JobError::fetch_error("down"));
                    verdicts.push(f.verdict);
                    if let FollowUp::Later { job, delay_ms } = f.follow_up {
                        assert_eq!(delay_ms, 1000);
                        waiting = Some(job);
                    }
                } else {
                    assert_eq!(kind, WorkerKind::Browser);
                    s.on_success(&j.id);
                }
            }
            None => match waiting.take() {
                Some(j) => {
                    s.requeue(j);
                }
                None => break,
            },
        }
    }
    assert_eq!(seen, vec!["A", "B", "A", "A"]);
    assert_eq!(verdicts, vec![HealingAction::RetryAfter(1000), HealingAction::RetryAfter(1000), HealingAction::Skip]);
    s.close();
    assert!(s.is_drained());
}

#[test]
fn immediate_retry_is_dropped_when_the_queue_is_full() {
    let mut s = SchedulerCore::new(1, 1, 3);
    s.submit(job("x", false)).unwrap();
    let (x, _) = s.dispatch().unwrap();
    s.submit(job("y", false)).unwrap();
    match s.apply_verdict(x, HealingAction::Retry) {
        FollowUp::Dropped(j) => assert_eq!(j.id, "x"),
        other => panic!("unexpected {:?}", other),
    }
    assert_eq!(s.queued_count(), 1);
}

#[test]
fn output_keys_follow_the_scheme() {
    let key = |a: Action| output_key(&a);
    let sel = || "#s".to_string();
    assert_eq!(key(Action::Scraping(ScrapingAction::WaitFor { selector: sel(), timeout_ms: 1 })), Some("waitfor:#s".to_string()));
    assert_eq!(key(Action::Scraping(ScrapingAction::ExtractMultiple { selector: sel(), attrs: vec![] })), Some("extract_multiple:#s".to_string()));
    assert_eq!(key(Action::Scraping(ScrapingAction::Fetch { url: "u".to_string() })), None);
    assert_eq!(key(Action::Browser(BrowserAction::WaitAndClick { selector: sel(), timeout_ms: 1 })), Some("wait_and_click:#s".to_string()));
    assert_eq!(key(Action::Browser(BrowserAction::SetCookie { name: "sid".to_string(), value: "v".to_string(), domain: None })), Some("set_cookie:sid".to_string()));
    assert_eq!(key(Action::Browser(BrowserAction::Scroll { target: ScrollTarget::Top })), Some("scroll".to_string()));
    assert_eq!(key(Action::Browser(BrowserAction::HandleCookieBanner { timeout_ms: 1 })), Some("cookie_banner_handled".to_string()));
    assert_eq!(key(Action::Browser(BrowserAction::WaitForNavigation { timeout_ms: 1 })), Some("wait_for_navigation".to_string()));
}

#[test]
fn results_are_kept_per_job_id() {
    let st = JsonFileStorage::new("results");
    assert_eq!(st.result_path("job-001"), "results/job-001.json");
}

#[test]
fn abort_closes_the_scheduler() {
    let mut s = SchedulerCore::new(2, 1, 3);
    s.submit(job("x", false)).unwrap();
    s.submit(job("y", false)).unwrap();
    let (x, _) = s.dispatch().unwrap();
    assert!(matches!(s.apply_verdict(x, HealingAction::Abort), FollowUp::Aborted));
    assert!(matches!(s.submit(job("z", false)), Err(SubmitError::Closed(_))));
    let (y, _) = s.dispatch().unwrap();
    s.on_success(&y.id);
    assert!(s.is_drained());
}
