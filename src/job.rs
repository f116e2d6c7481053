use vstd::prelude::*;
use crate::json::JsonValue;
use crate::text::join2;

verus! {

/// Actions that need no JavaScript: both backends run them.
#[derive(Clone, Debug)]
pub enum ScrapingAction {
    Fetch { url: String },
    Extract { selector: String, attr: Option<String> },
    ExtractMultiple { selector: String, attrs: Vec<String> },
    WaitFor { selector: String, timeout_ms: u64 },
}

/// Actions that only the browser backend can run.
#[derive(Clone, Debug)]
pub enum BrowserAction {
    Click { selector: String, timeout_ms: u64 },
    Type { selector: String, text: String, clear_first: bool },
    PressKey { key: String },
    Scroll { target: ScrollTarget },
    Screenshot { path: String, full_page: bool },
    Hover { selector: String },
    Select { selector: String, value: String },
    Navigate { url: String },
    ExecuteScript { script: String },
    SetCookie { name: String, value: String, domain: Option<String> },
    WaitForNavigation { timeout_ms: u64 },
    WaitFor { selector: String, timeout_ms: u64 },
    /// Find a cookie consent button by its text and click it.
    HandleCookieBanner { timeout_ms: u64 },
    /// Wait until an element is visible, not obscured and enabled, then click it.
    WaitAndClick { selector: String, timeout_ms: u64 },
}

#[derive(Clone, Debug)]
pub enum ScrollTarget {
    Element { selector: String },
    Position { x: i32, y: i32 },
    Bottom,
    Top,
}

#[derive(Clone, Debug)]
pub enum Action {
    Scraping(ScrapingAction),
    Browser(BrowserAction),
}

#[derive(Clone, Copy, Debug, PartialEq, Eq, Structural)]
pub enum BrowserType {
    Chromium,
    Firefox,
}

#[derive(Clone, Debug)]
pub struct BrowserConfig {
    pub browser_type: BrowserType,
    pub headless: bool,
    pub viewport_width: Option<u32>,
    pub viewport_height: Option<u32>,
    /// Check for a CAPTCHA after the first navigation and fail the job on one.
    pub fail_on_captcha: bool,
}

/// A unit of work: a page and the actions to run on it, in order.
#[derive(Clone, Debug)]
pub struct Job {
    pub id: String,
    pub url: String,
    pub use_browser: bool,
    pub actions: Vec<Action>,
    pub browser_config: Option<BrowserConfig>,
}

/// What a successful job produced: one output entry per action.
#[derive(Debug, PartialEq)]
pub struct JobResult {
    pub job_id: String,
    pub success: bool,
    pub output: JsonValue,
}

/// The key under which an action records its output: a verb, and for actions
/// aimed at one element or cookie, `:` and its selector or name. `Fetch`
/// records nothing.
pub open spec fn action_key(a: Action) -> Option<Seq<char>> {
    match a {
        Action::Scraping(s) => match s {
            ScrapingAction::Fetch { .. } => None,
            ScrapingAction::Extract { selector, .. } => Some("extract:"@ + selector@),
            ScrapingAction::ExtractMultiple { selector, .. } => Some("extract_multiple:"@ + selector@),
            ScrapingAction::WaitFor { selector, .. } => Some("waitfor:"@ + selector@),
        },
        Action::Browser(b) => Some(browser_action_key(b)),
    }
}

pub open spec fn browser_action_key(b: BrowserAction) -> Seq<char> {
    match b {
        BrowserAction::Click { selector, .. } => "click:"@ + selector@,
        BrowserAction::Type { selector, .. } => "type:"@ + selector@,
        BrowserAction::PressKey { .. } => "press_key"@,
        BrowserAction::Scroll { .. } => "scroll"@,
        BrowserAction::Screenshot { .. } => "screenshot"@,
        BrowserAction::Hover { selector } => "hover:"@ + selector@,
        BrowserAction::Select { selector, .. } => "select:"@ + selector@,
        BrowserAction::Navigate { .. } => "navigate"@,
        BrowserAction::ExecuteScript { .. } => "execute_script"@,
        BrowserAction::SetCookie { name, .. } => "set_cookie:"@ + name@,
        BrowserAction::WaitForNavigation { .. } => "wait_for_navigation"@,
        BrowserAction::WaitFor { selector, .. } => "waitfor:"@ + selector@,
        BrowserAction::HandleCookieBanner { .. } => "cookie_banner_handled"@,
        BrowserAction::WaitAndClick { selector, .. } => "wait_and_click:"@ + selector@,
    }
}

/// The output key of an action; nothing for `Fetch`.
pub fn output_key(a: &Action) -> (r: Option<String>)
    ensures
        r matches Some(k) ==> action_key(*a) == Some(k@),
        r is None ==> action_key(*a) is None,
{
    match a {
        Action::Scraping(s) => match s {
            ScrapingAction::Fetch { .. } => None,
            ScrapingAction::Extract { selector, .. } => Some(join2("extract:", selector.as_str())),
            ScrapingAction::ExtractMultiple { selector, .. } => Some(join2("extract_multiple:", selector.as_str())),
            ScrapingAction::WaitFor { selector, .. } => Some(join2("waitfor:", selector.as_str())),
        },
        Action::Browser(b) => Some(browser_output_key(b)),
    }
}

pub fn browser_output_key(b: &BrowserAction) -> (r: String)
    ensures
        r@ == browser_action_key(*b),
{
    match b {
        BrowserAction::Click { selector, .. } => join2("click:", selector.as_str()),
        BrowserAction::Type { selector, .. } => join2("type:", selector.as_str()),
        BrowserAction::PressKey { .. } => "press_key".to_owned(),
        BrowserAction::Scroll { .. } => "scroll".to_owned(),
        BrowserAction::Screenshot { .. } => "screenshot".to_owned(),
        BrowserAction::Hover { selector } => join2("hover:", selector.as_str()),
        BrowserAction::Select { selector, .. } => join2("select:", selector.as_str()),
        BrowserAction::Navigate { .. } => "navigate".to_owned(),
        BrowserAction::ExecuteScript { .. } => "execute_script".to_owned(),
        BrowserAction::SetCookie { name, .. } => join2("set_cookie:", name.as_str()),
        BrowserAction::WaitForNavigation { .. } => "wait_for_navigation".to_owned(),
        BrowserAction::WaitFor { selector, .. } => join2("waitfor:", selector.as_str()),
        BrowserAction::HandleCookieBanner { .. } => "cookie_banner_handled".to_owned(),
        BrowserAction::WaitAndClick { selector, .. } => join2("wait_and_click:", selector.as_str()),
    }
}

} // verus!
