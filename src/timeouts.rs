use vstd::prelude::*;

verus! {

/// The waits of the browser worker, in milliseconds.
#[derive(Clone, Copy, Debug)]
pub struct TimeoutConfig {
    pub element_wait: u64,
    pub navigation: u64,
    pub page_stable: u64,
    pub cookie_banner: u64,
    pub check_interval: u64,
    pub settle_delay: u64,
}

pub open spec fn preset(e: u64, n: u64, p: u64, c: u64, i: u64, s: u64) -> TimeoutConfig {
    TimeoutConfig { element_wait: e, navigation: n, page_stable: p, cookie_banner: c, check_interval: i, settle_delay: s }
}

impl Default for TimeoutConfig {
    fn default() -> (r: TimeoutConfig)
        ensures
            r == preset(15000, 30000, 30000, 5000, 300, 1000),
    {
        TimeoutConfig {
            element_wait: 15000,
            navigation: 30000,
            page_stable: 30000,
            cookie_banner: 5000,
            check_interval: 300,
            settle_delay: 1000,
        }
    }
}

impl TimeoutConfig {
    pub fn with_element_wait(self, ms: u64) -> (r: TimeoutConfig)
        ensures
            r == (TimeoutConfig { element_wait: ms, ..self }),
    {
        TimeoutConfig { element_wait: ms, ..self }
    }

    pub fn with_navigation(self, ms: u64) -> (r: TimeoutConfig)
        ensures
            r == (TimeoutConfig { navigation: ms, ..self }),
    {
        TimeoutConfig { navigation: ms, ..self }
    }

    /// Shorter waits, for fast and stable pages.
    pub fn fast() -> (r: TimeoutConfig)
        ensures
            r == preset(8000, 20000, 20000, 3000, 200, 500),
    {
        TimeoutConfig {
            element_wait: 8000,
            navigation: 20000,
            page_stable: 20000,
            cookie_banner: 3000,
            check_interval: 200,
            settle_delay: 500,
        }
    }

    /// Longer waits, for slow pages.
    pub fn patient() -> (r: TimeoutConfig)
        ensures
            r == preset(30000, 60000, 60000, 10000, 500, 2000),
    {
        TimeoutConfig {
            element_wait: 30000,
            navigation: 60000,
            page_stable: 60000,
            cookie_banner: 10000,
            check_interval: 500,
            settle_delay: 2000,
        }
    }
}

} // verus!
