//! The per-target worker: wakes on a fixed interval, issues one bounded
//! poll of its URL, observes the status and continues on schedule.
use vstd::prelude::*;

verus! {

/// The life of a scraper: not yet running, running, or told to stop.
/// Stopped is terminal.
#[derive(Clone, Copy, Debug, PartialEq, Eq, Structural)]
pub enum ScraperState {
    Idle,
    Running,
    Stopped,
}

/// The mathematical content of a `Scraper`.
#[verifier::ext_equal]
pub ghost struct ScraperView {
    pub url: Seq<char>,
    pub interval: u64,
    pub timeout: u64,
    pub state: ScraperState,
}

/// One target's periodic poll: the URL it polls, its cadence and per-poll
/// bound in milliseconds, and its state.
#[derive(Debug, PartialEq, Eq)]
pub struct Scraper {
    /// The polled URL.
    pub url: String,
    /// Time between two polls, in milliseconds.
    pub interval: u64,
    /// Bound on one poll, in milliseconds.
    pub timeout: u64,
    /// Where the scraper stands in its life cycle.
    pub state: ScraperState,
}

impl View for Scraper {
    type V = ScraperView;

    open spec fn view(&self) -> ScraperView {
        ScraperView {
            url: self.url@,
            interval: self.interval,
            timeout: self.timeout,
            state: self.state,
        }
    }
}

impl DeepView for Scraper {
    type V = ScraperView;

    open spec fn deep_view(&self) -> ScraperView {
        self@
    }
}

/// A scraper after its stop signal: a running or already stopped one is
/// stopped; one that never started has no signal to receive.
pub open spec fn spec_stopped_scraper(s: ScraperView) -> ScraperView {
    if s.state == ScraperState::Idle {
        s
    } else {
        ScraperView { state: ScraperState::Stopped, ..s }
    }
}

/// A stop signal leaves no scraper running: a replaced set is retired
/// whole before any new scraper becomes visible, so no reader sees old
/// and new targets as current side by side.
pub proof fn lemma_stop_leaves_nothing_running(s: ScraperView)
    ensures
        spec_stopped_scraper(s).state != ScraperState::Running,
{
}

/// One poll as handed to the transport: the URL, and the bound on the
/// whole call in milliseconds.
#[derive(Debug, PartialEq, Eq)]
pub struct ScrapeRequest {
    /// The URL to poll.
    pub url: String,
    /// Bound on the whole call, in milliseconds.
    pub timeout: u64,
}

impl Scraper {
    /// A scraper for one target, not yet running.
    pub fn new(url: String, interval: u64, timeout: u64) -> (s: Scraper)
        ensures
            s@ == (ScraperView { url: url@, interval, timeout, state: ScraperState::Idle }),
    {
        Scraper { url, interval, timeout, state: ScraperState::Idle }
    }

    /// Starts the periodic poll.
    pub fn start(&mut self)
        requires
            old(self)@.state == ScraperState::Idle,
        ensures
            final(self)@ == (ScraperView { state: ScraperState::Running, ..old(self)@ }),
    {
        self.state = ScraperState::Running;
    }

    /// Requests termination: asynchronous and idempotent; the worker only
    /// notices right after its next wake, so effective stop latency is up
    /// to one full interval.
    pub fn stop(&mut self)
        ensures
            final(self)@ == spec_stopped_scraper(old(self)@),
    {
        match self.state {
            ScraperState::Idle => {},
            _ => {
                self.state = ScraperState::Stopped;
            },
        }
    }

    /// One wake of the worker: a running scraper issues exactly one poll of
    /// its URL bounded by its timeout; a stopped one terminates instead,
    /// and one never started has no worker to wake.
    pub fn tick(&self) -> (req: Option<ScrapeRequest>)
        ensures
            (req is Some) == (self@.state == ScraperState::Running),
            (req matches Some(q) ==> q.url@ == self@.url && q.timeout == self@.timeout),
    {
        match self.state {
            ScraperState::Running => Some(
                ScrapeRequest { url: self.url.clone(), timeout: self.timeout },
            ),
            _ => None,
        }
    }

    /// Observes one poll's response status. Only a 2xx status counts as a
    /// success; any other outcome is logged by the caller and absorbed —
    /// the scraper itself never changes, and the schedule continues.
    pub fn observe_status(&self, status: u16) -> (success: bool)
        ensures
            success == (200 <= status < 300),
    {
        200 <= status && status < 300
    }
}

} // verus!
